//! Rendering console lines for supervised processes.
//!
//! Every line a process emits is shown as `[<name>] ` followed by the line
//! body and a newline. The prefix alone carries the process's assigned color;
//! the body is always plain. A rendered line is a short sequence of spans,
//! each a piece of text with at most one color, so the writer at the edge can
//! paint a span, print it, and reset — and a process whose info carries no
//! color yields spans with no color at all.

use vstd::prelude::*;
use vstd::string::StringExecFns;
use crate::color::ConsoleColor;

verus! {

/// A piece of console text painted in at most one color.
#[derive(Debug)]
pub struct Span {
    pub color: Option<ConsoleColor>,
    pub text: String,
}

/// Display identity of one supervised process, fixed at launch.
#[derive(Clone, Debug)]
pub struct ProcessInfo {
    pub name: String,
    pub color: Option<ConsoleColor>,
}

/// The prefix text shown before every line of the named process.
pub open spec fn prefix_text(name: Seq<char>) -> Seq<char> {
    seq!['['] + name + seq![']', ' ']
}

/// What it means for `spans` to render `body` on behalf of `info`: a prefix
/// span carrying exactly the process's color, then the plain body span with
/// its terminator.
pub open spec fn rendered_line(info: ProcessInfo, body: Seq<char>, spans: Seq<Span>) -> bool {
    &&& spans.len() == 2
    &&& spans[0].color == info.color
    &&& spans[0].text@ == prefix_text(info.name@)
    &&& spans[1].color is None
    &&& spans[1].text@ == body + seq!['\n']
}

/// Render one output line of `info`'s process.
pub fn render_line(info: &ProcessInfo, body: &str) -> (spans: Vec<Span>)
    ensures
        rendered_line(*info, body@, spans@),
{
    proof {
        reveal_strlit("[");
        reveal_strlit("] ");
        reveal_strlit("\n");
    }
    let mut prefix = String::new();
    prefix.append("[");
    prefix.append(info.name.as_str());
    prefix.append("] ");
    proof {
        assert(prefix@ =~= prefix_text(info.name@));
    }
    let mut tail = body.to_owned();
    tail.append("\n");
    proof {
        assert(tail@ =~= body@ + seq!['\n']);
    }
    let mut spans: Vec<Span> = Vec::new();
    spans.push(Span { color: info.color, text: prefix });
    spans.push(Span { color: None, text: tail });
    spans
}

/// Color assignment is stable: whatever two bodies a process emits during its
/// run, both rendered lines open with the same prefix span — same color, same
/// text — namely the color fixed in the process's launch-time info.
pub proof fn lemma_prefix_stable(info: ProcessInfo, b1: Seq<char>, b2: Seq<char>, s1: Seq<Span>, s2: Seq<Span>)
    requires
        rendered_line(info, b1, s1),
        rendered_line(info, b2, s2),
    ensures
        s1[0].color == s2[0].color,
        s1[0].text@ == s2[0].text@,
        s1[0].color == info.color,
{
}

/// When a process's info carries no color — as whenever the supervisor's own
/// output is not a terminal — no span of any rendered line carries one, so no
/// color codes can reach the console.
pub proof fn lemma_plain_render_has_no_color(info: ProcessInfo, body: Seq<char>, spans: Seq<Span>)
    requires
        rendered_line(info, body, spans),
        info.color is None,
    ensures
        forall|i: int| 0 <= i < spans.len() ==> spans[i].color is None,
{
}

} // verus!
