//! Exit reporting for supervised processes.
//!
//! Each launched process is waited on exactly once; the tracker here makes
//! that a verified obligation: recording an outcome consumes the tracker's
//! single report, and the reported line embeds the operating-system status
//! value unchanged. A failed wait is reported the same way, never escalated.

use vstd::prelude::*;
use vstd::string::StringExecFns;

verus! {

/// The decimal digit character for `d` (meaningful for `d < 10`).
pub open spec fn digit_char(d: nat) -> char {
    if d == 0 { '0' }
    else if d == 1 { '1' }
    else if d == 2 { '2' }
    else if d == 3 { '3' }
    else if d == 4 { '4' }
    else if d == 5 { '5' }
    else if d == 6 { '6' }
    else if d == 7 { '7' }
    else if d == 8 { '8' }
    else { '9' }
}

/// The decimal digits of `n`, most significant first, no leading zeros
/// (a single `'0'` for zero).
pub open spec fn dec_digits(n: nat) -> Seq<char>
    decreases n,
{
    if n < 10 {
        seq![digit_char(n)]
    } else {
        dec_digits(n / 10).push(digit_char(n % 10))
    }
}

/// The decimal text of `i`, with a leading minus sign when negative.
pub open spec fn int_text(i: int) -> Seq<char> {
    if i >= 0 {
        dec_digits(i as nat)
    } else {
        seq!['-'] + dec_digits((-i) as nat)
    }
}

/// Render `n` in decimal.
pub fn format_u64(n: u64) -> (r: String)
    ensures
        r@ == dec_digits(n as nat),
    decreases n,
{
    let d = n % 10;
    let digit = match d {
        0 => "0",
        1 => "1",
        2 => "2",
        3 => "3",
        4 => "4",
        5 => "5",
        6 => "6",
        7 => "7",
        8 => "8",
        _ => "9",
    };
    proof {
        reveal_strlit("0");
        reveal_strlit("1");
        reveal_strlit("2");
        reveal_strlit("3");
        reveal_strlit("4");
        reveal_strlit("5");
        reveal_strlit("6");
        reveal_strlit("7");
        reveal_strlit("8");
        reveal_strlit("9");
        assert(digit@ =~= seq![digit_char((n % 10) as nat)]);
    }
    if n < 10 {
        let r = digit.to_owned();
        proof {
            assert(r@ =~= dec_digits(n as nat));
        }
        r
    } else {
        let mut r = format_u64(n / 10);
        r.append(digit);
        proof {
            assert(r@ =~= dec_digits(n as nat));
        }
        r
    }
}

/// Render `n` in decimal, signed.
pub fn format_i32(n: i32) -> (r: String)
    ensures
        r@ == int_text(n as int),
{
    if n >= 0 {
        format_u64(n as u64)
    } else {
        let wide: i64 = n as i64;
        let mag: u64 = (-wide) as u64;
        let mut r = ("-").to_owned();
        let tail = format_u64(mag);
        r.append(tail.as_str());
        proof {
            reveal_strlit("-");
            assert(r@ =~= int_text(n as int));
        }
        r
    }
}

/// How the operating system said a child terminated: a numeric exit code, or
/// the number of the signal that ended it.
#[derive(Clone, Copy, Debug, PartialEq, Eq, Structural)]
pub enum ExitKind {
    Code(i32),
    Signal(i32),
}

/// What the wait on a child produced: its termination status, or the message
/// of an operating-system failure to report one.
#[derive(Debug)]
pub enum WaitOutcome {
    Exited(ExitKind),
    WaitFailed(String),
}

/// The console text describing a termination status.
pub open spec fn status_text(k: ExitKind) -> Seq<char> {
    match k {
        ExitKind::Code(c) => "exit status: "@ + int_text(c as int),
        ExitKind::Signal(s) => "signal: "@ + int_text(s as int),
    }
}

/// The one console line reporting a process's wait outcome.
pub open spec fn report_text(name: Seq<char>, outcome: WaitOutcome) -> Seq<char> {
    match outcome {
        WaitOutcome::Exited(k) => name + " finished: "@ + status_text(k),
        WaitOutcome::WaitFailed(m) => name + " failed to be waited on: "@ + m@,
    }
}

/// Render a termination status on its own.
pub fn render_status(k: ExitKind) -> (r: String)
    ensures
        r@ == status_text(k),
{
    match k {
        ExitKind::Code(c) => {
            let mut r = ("exit status: ").to_owned();
            let digits = format_i32(c);
            r.append(digits.as_str());
            r
        },
        ExitKind::Signal(s) => {
            let mut r = ("signal: ").to_owned();
            let digits = format_i32(s);
            r.append(digits.as_str());
            r
        },
    }
}

/// Tracks the single exit report a launched process is owed. Waiting on a
/// child reclaims its process-table entry, so it must happen exactly once:
/// recording requires an unreaped tracker and leaves it reaped, which lets
/// the verifier reject any caller that would report the same process twice.
pub struct ProcessTracker {
    name: String,
    reaped: bool,
}

impl ProcessTracker {
    /// Name of the tracked process.
    pub closed spec fn name_text(&self) -> Seq<char> {
        self.name@
    }

    /// Whether this process's exit has already been reported.
    pub closed spec fn reaped(&self) -> bool {
        self.reaped
    }

    /// Start tracking a freshly launched process.
    pub fn new(name: String) -> (t: ProcessTracker)
        ensures
            !t.reaped(),
            t.name_text() == name@,
    {
        ProcessTracker { name, reaped: false }
    }

    /// Record the one wait outcome of this process and return the console
    /// line reporting it. The line carries the status value verbatim, and the
    /// tracker can never record a second outcome.
    pub fn record(&mut self, outcome: WaitOutcome) -> (line: String)
        requires
            !old(self).reaped(),
        ensures
            final(self).reaped(),
            final(self).name_text() == old(self).name_text(),
            line@ == report_text(old(self).name_text(), outcome),
    {
        let mut line = self.name.as_str().to_owned();
        match outcome {
            WaitOutcome::Exited(k) => {
                line.append(" finished: ");
                let status = render_status(k);
                line.append(status.as_str());
            },
            WaitOutcome::WaitFailed(m) => {
                line.append(" failed to be waited on: ");
                line.append(m.as_str());
            },
        }
        self.reaped = true;
        line
    }
}

/// The console line logging receipt of a signal by the supervisor itself.
pub open spec fn signal_text(sig: int) -> Seq<char> {
    "received signal "@ + int_text(sig)
}

/// Render the log line for a signal the supervisor received. Receiving one
/// is informational only; it never ends the supervision run by itself.
pub fn render_signal_line(sig: i32) -> (line: String)
    ensures
        line@ == signal_text(sig as int),
{
    let mut line = ("received signal ").to_owned();
    let digits = format_i32(sig);
    line.append(digits.as_str());
    line
}

} // verus!
