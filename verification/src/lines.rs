//! Splitting a process's raw output bytes into console lines.
//!
//! The multiplexer feeds byte chunks in the order the process produced them;
//! the splitter hands back every line that has been completed by a terminator,
//! in that same order, and keeps the unterminated tail for the next chunk.
//! When the stream closes, the tail — if any — is flushed as one last line, so
//! no trailing output is ever dropped.

use vstd::prelude::*;

verus! {

/// The line-terminator byte the splitter recognises.
pub open spec fn newline() -> u8 {
    10
}

/// The terminator-ended lines of `s`, in order, without their terminators.
pub open spec fn complete_lines(s: Seq<u8>) -> Seq<Seq<u8>>
    decreases s.len(),
{
    if s.len() == 0 {
        Seq::empty()
    } else if s.last() == newline() {
        complete_lines(s.drop_last()).push(partial_line(s.drop_last()))
    } else {
        complete_lines(s.drop_last())
    }
}

/// The bytes of `s` after its last terminator (all of `s` if it has none).
pub open spec fn partial_line(s: Seq<u8>) -> Seq<u8>
    decreases s.len(),
{
    if s.len() == 0 {
        Seq::empty()
    } else if s.last() == newline() {
        Seq::empty()
    } else {
        partial_line(s.drop_last()).push(s.last())
    }
}

/// `lines`, re-joined with a terminator after each line.
pub open spec fn joined_lines(lines: Seq<Seq<u8>>) -> Seq<u8>
    decreases lines.len(),
{
    if lines.len() == 0 {
        Seq::empty()
    } else {
        joined_lines(lines.drop_last()) + lines.last() + seq![newline()]
    }
}

/// Holds when no byte of `s` is a terminator.
pub open spec fn terminator_free(s: Seq<u8>) -> bool {
    forall|i: int| 0 <= i < s.len() ==> s[i] != newline()
}

/// A stream with no terminator splits into no complete line; all of it is tail.
pub proof fn lemma_terminator_free_split(s: Seq<u8>)
    requires
        terminator_free(s),
    ensures
        complete_lines(s) == Seq::<Seq<u8>>::empty(),
        partial_line(s) == s,
    decreases s.len(),
{
    if s.len() > 0 {
        assert(forall|i: int| 0 <= i < s.drop_last().len() ==> s.drop_last()[i] == s[i]);
        lemma_terminator_free_split(s.drop_last());
        assert(partial_line(s) =~= s);
    }
}

/// The tail a split leaves behind never contains a terminator.
pub proof fn lemma_partial_line_terminator_free(s: Seq<u8>)
    ensures
        terminator_free(partial_line(s)),
    decreases s.len(),
{
    if s.len() > 0 && s.last() != newline() {
        lemma_partial_line_terminator_free(s.drop_last());
    }
}

/// No complete line contains a terminator: together with
/// `lemma_split_preserves_stream` this pins the split down as the one
/// factorization of the stream into terminator-free lines and tail.
pub proof fn lemma_complete_lines_terminator_free(s: Seq<u8>)
    ensures
        forall|i: int| 0 <= i < complete_lines(s).len() ==> terminator_free(
            #[trigger] complete_lines(s)[i],
        ),
    decreases s.len(),
{
    if s.len() > 0 {
        lemma_complete_lines_terminator_free(s.drop_last());
        if s.last() == newline() {
            lemma_partial_line_terminator_free(s.drop_last());
            assert forall|i: int| 0 <= i < complete_lines(s).len() implies terminator_free(
                #[trigger] complete_lines(s)[i],
            ) by {
                if i < complete_lines(s.drop_last()).len() {
                    assert(complete_lines(s)[i] == complete_lines(s.drop_last())[i]);
                } else {
                    assert(complete_lines(s)[i] == partial_line(s.drop_last()));
                }
            }
        }
    }
}

/// No byte is lost or reordered by splitting: the complete lines, re-joined
/// with their terminators and followed by the unterminated tail, are exactly
/// the original stream.
pub proof fn lemma_split_preserves_stream(s: Seq<u8>)
    ensures
        joined_lines(complete_lines(s)) + partial_line(s) == s,
    decreases s.len(),
{
    if s.len() == 0 {
        assert(joined_lines(complete_lines(s)) + partial_line(s) =~= s);
    } else {
        let p = s.drop_last();
        lemma_split_preserves_stream(p);
        if s.last() == newline() {
            assert(complete_lines(s) == complete_lines(p).push(partial_line(p)));
            assert(complete_lines(s).drop_last() =~= complete_lines(p));
            assert(complete_lines(s).last() == partial_line(p));
            assert(joined_lines(complete_lines(s)) == joined_lines(complete_lines(p))
                + partial_line(p) + seq![newline()]);
            assert(joined_lines(complete_lines(p)) + partial_line(p) + seq![newline()] =~= s);
            assert(joined_lines(complete_lines(s)) + partial_line(s) =~= s);
        } else {
            assert(complete_lines(s) == complete_lines(p));
            assert(partial_line(s) == partial_line(p).push(s.last()));
            assert(joined_lines(complete_lines(p)) + partial_line(p).push(s.last())
                =~= (joined_lines(complete_lines(p)) + partial_line(p)).push(s.last()));
            assert((joined_lines(complete_lines(p)) + partial_line(p)).push(s.last())
                == p.push(s.last()));
            assert(p.push(s.last()) =~= s);
        }
    }
}

/// Chunk boundaries do not matter: the lines completed by a first part of
/// the stream, followed by the lines the leftover tail completes together
/// with the rest, are exactly the lines of the whole stream — and the tails
/// agree too. With `push_chunk`'s contract this says that feeding a stream
/// in any chunks delivers every line once, in stream order.
pub proof fn lemma_split_composes(a: Seq<u8>, b: Seq<u8>)
    ensures
        complete_lines(a + b) == complete_lines(a) + complete_lines(partial_line(a) + b),
        partial_line(a + b) == partial_line(partial_line(a) + b),
    decreases b.len(),
{
    if b.len() == 0 {
        lemma_partial_line_terminator_free(a);
        lemma_terminator_free_split(partial_line(a));
        assert(a + b =~= a);
        assert(partial_line(a) + b =~= partial_line(a));
        assert(complete_lines(a) + complete_lines(partial_line(a)) =~= complete_lines(a));
    } else {
        let b0 = b.drop_last();
        let x = b.last();
        lemma_split_composes(a, b0);
        assert(a + b =~= (a + b0).push(x));
        assert(partial_line(a) + b =~= (partial_line(a) + b0).push(x));
        assert((a + b).drop_last() =~= a + b0);
        assert((partial_line(a) + b).drop_last() =~= partial_line(a) + b0);
        if x == newline() {
            assert(complete_lines(a + b) =~= complete_lines(a) + complete_lines(
                partial_line(a) + b,
            ));
        } else {
            assert(complete_lines(a + b) =~= complete_lines(a) + complete_lines(
                partial_line(a) + b,
            ));
        }
    }
}

/// Incremental line splitter for one process's output stream.
pub struct LineSplitter {
    pending: Vec<u8>,
}

impl LineSplitter {
    /// Bytes received so far that no terminator has closed yet.
    pub closed spec fn pending_bytes(&self) -> Seq<u8> {
        self.pending@
    }

    /// The held tail never contains a terminator.
    pub closed spec fn wf(&self) -> bool {
        terminator_free(self.pending@)
    }

    /// A fresh splitter holds nothing.
    pub fn new() -> (r: LineSplitter)
        ensures
            r.wf(),
            r.pending_bytes() == Seq::<u8>::empty(),
    {
        LineSplitter { pending: Vec::new() }
    }

    /// Feed the next chunk of the stream. Returns every line completed by the
    /// bytes seen so far, in stream order; the unterminated tail stays behind.
    pub fn push_chunk(&mut self, chunk: &[u8]) -> (lines: Vec<Vec<u8>>)
        requires
            old(self).wf(),
        ensures
            final(self).wf(),
            lines@.map_values(|l: Vec<u8>| l@) == complete_lines(
                old(self).pending_bytes() + chunk@,
            ),
            final(self).pending_bytes() == partial_line(old(self).pending_bytes() + chunk@),
    {
        let ghost start = self.pending@;
        let mut lines: Vec<Vec<u8>> = Vec::new();
        let mut i: usize = 0;
        proof {
            lemma_terminator_free_split(start);
            assert(start + chunk@.take(0) =~= start);
        }
        while i < chunk.len()
            invariant
                i <= chunk.len(),
                self.wf(),
                lines@.map_values(|l: Vec<u8>| l@) == complete_lines(start + chunk@.take(i as int)),
                self.pending@ == partial_line(start + chunk@.take(i as int)),
            decreases chunk.len() - i,
        {
            let ghost seen = start + chunk@.take(i as int);
            let b = chunk[i];
            proof {
                assert(start + chunk@.take(i + 1) =~= seen.push(chunk@[i as int]));
                assert(seen.push(chunk@[i as int]).drop_last() =~= seen);
            }
            if b == 10 {
                let mut line: Vec<u8> = Vec::new();
                core::mem::swap(&mut line, &mut self.pending);
                lines.push(line);
                proof {
                    assert(lines@.map_values(|l: Vec<u8>| l@) =~= complete_lines(
                        start + chunk@.take(i + 1),
                    ));
                }
            } else {
                self.pending.push(b);
                proof {
                    assert(lines@.map_values(|l: Vec<u8>| l@) =~= complete_lines(
                        start + chunk@.take(i + 1),
                    ));
                }
            }
            i = i + 1;
        }
        proof {
            assert(start + chunk@.take(chunk@.len() as int) =~= start + chunk@);
        }
        lines
    }

    /// The stream has closed: hand out the unterminated tail as a final line,
    /// or nothing if every byte was already delivered.
    pub fn take_partial(&mut self) -> (tail: Option<Vec<u8>>)
        requires
            old(self).wf(),
        ensures
            final(self).wf(),
            final(self).pending_bytes() == Seq::<u8>::empty(),
            match tail {
                Some(line) => line@ == old(self).pending_bytes() && line@.len() > 0,
                None => old(self).pending_bytes().len() == 0,
            },
    {
        if self.pending.len() == 0 {
            None
        } else {
            let mut line: Vec<u8> = Vec::new();
            core::mem::swap(&mut line, &mut self.pending);
            Some(line)
        }
    }
}

} // verus!
