//! The decisions of the process supervisor: how a command becomes a line of
//! input, what an output line looks like to an event handler, and how each
//! mirror loop reacts to the outcome of its reads and writes.
use vstd::prelude::*;

verus! {

/// Whether `c` is white space in the Unicode sense.
pub uninterp spec fn whitespace(c: char) -> bool;

/// Relies on char::is_whitespace: the Unicode White_Space property of `c`.
#[verifier::external_body]
fn is_whitespace(c: char) -> (r: bool)
    ensures
        r == whitespace(c),
{
    c.is_whitespace()
}

/// The number of white-space characters that open `s`.
pub open spec fn leading_space(s: Seq<char>) -> nat
    decreases s.len(),
{
    if s.len() > 0 && whitespace(s[0]) {
        1 + leading_space(s.subrange(1, s.len() as int))
    } else {
        0
    }
}

/// The number of white-space characters that close `s`.
pub open spec fn trailing_space(s: Seq<char>) -> nat
    decreases s.len(),
{
    if s.len() > 0 && whitespace(s.last()) {
        1 + trailing_space(s.drop_last())
    } else {
        0
    }
}

/// `s` without its leading and trailing white space.
pub open spec fn trimmed(s: Seq<char>) -> Seq<char> {
    let t = s.subrange(leading_space(s) as int, s.len() as int);
    t.subrange(0, t.len() - trailing_space(t))
}

/// `s` without its leading and trailing white space.
pub fn trim(s: &str) -> (r: &str)
    ensures
        r@ == trimmed(s@),
{
    let n = s.unicode_len();
    let mut a: usize = 0;
    assert(s@.subrange(0, n as int) =~= s@);
    while a < n && is_whitespace(s.get_char(a))
        invariant
            n == s@.len(),
            a <= n,
            leading_space(s@) == a + leading_space(s@.subrange(a as int, n as int)),
        decreases n - a,
    {
        assert(s@.subrange(a as int, n as int).subrange(1, n - a) =~= s@.subrange(a + 1, n as int));
        a = a + 1;
    }
    assert(leading_space(s@.subrange(a as int, n as int)) == 0);
    let t = s.substring_char(a, n);
    let m = n - a;
    let mut b: usize = m;
    assert(t@.subrange(0, m as int) =~= t@);
    while b > 0 && is_whitespace(t.get_char(b - 1))
        invariant
            m == t@.len(),
            b <= m,
            trailing_space(t@) == (m - b) + trailing_space(t@.subrange(0, b as int)),
        decreases b,
    {
        assert(t@.subrange(0, b as int).drop_last() =~= t@.subrange(0, b - 1));
        b = b - 1;
    }
    assert(trailing_space(t@.subrange(0, b as int)) == 0);
    t.substring_char(0, b)
}

/// The bytes sent to the server for a command: the command without its
/// surrounding white space, ended by one newline.
pub fn command_line(command: &str) -> (r: String)
    ensures
        r@ == trimmed(command@).push('\n'),
{
    let t = trim(command);
    let r = String::from_str(t).concat("\n");
    proof {
        reveal_strlit("\n");
        assert(r@ =~= trimmed(command@).push('\n'));
    }
    r
}

/// An output line as an event handler sees it: without its line terminator,
/// a newline or a carriage return and a newline.
pub open spec fn without_terminator(s: Seq<char>) -> Seq<char> {
    if s.len() >= 2 && s.last() == '\n' && s[s.len() - 2] == '\r' {
        s.subrange(0, s.len() - 2)
    } else if s.len() >= 1 && s.last() == '\n' {
        s.drop_last()
    } else {
        s
    }
}

/// The line that an event handler receives for a line read from the server.
pub fn handler_line(buf: &str) -> (r: &str)
    ensures
        r@ == without_terminator(buf@),
{
    let n = buf.unicode_len();
    if n >= 2 && buf.get_char(n - 1) == '\n' && buf.get_char(n - 2) == '\r' {
        buf.substring_char(0, n - 2)
    } else if n >= 1 && buf.get_char(n - 1) == '\n' {
        buf.substring_char(0, n - 1)
    } else {
        buf
    }
}

/// The direction in which a mirror loop copies lines.
#[derive(Debug, Clone, Copy, PartialEq, Eq)]
pub enum Direction {
    /// From the supervisor's own input to the server's input.
    HostToServer,
    /// From the server's output to the supervisor's own output and the
    /// event handler.
    ServerToHost,
}

/// The kinds of I/O failure that the loops tell apart.
#[derive(Debug, Clone, Copy, PartialEq, Eq)]
pub enum IoFault {
    /// The operation was interrupted and may be tried again.
    Interrupted,
    /// The far end of the pipe was closed.
    BrokenPipe,
    /// Any other failure.
    Other,
}

/// What came of reading one line.
#[derive(Debug, Clone, Copy, PartialEq, Eq)]
pub enum ReadOutcome {
    /// A line, of at least one byte, was read.
    Line,
    /// The stream has ended.
    EndOfStream,
    /// The read failed.
    Failed(IoFault),
}

/// What a mirror loop does next.
#[derive(Debug, Clone, Copy, PartialEq, Eq)]
pub enum Step {
    /// Pass the line on (after a read) or go on to the next read (after a
    /// write).
    Proceed,
    /// Read again.
    Retry,
    /// Stop; this is a normal end.
    Finish,
    /// Stop and report the failure.
    Abort,
}

/// The step a loop takes after reading, by direction and outcome.
pub open spec fn step_after_read(d: Direction, o: ReadOutcome) -> Step {
    match o {
        ReadOutcome::Line => Step::Proceed,
        ReadOutcome::EndOfStream => Step::Finish,
        ReadOutcome::Failed(IoFault::Interrupted) => Step::Retry,
        ReadOutcome::Failed(IoFault::BrokenPipe) => if d == Direction::ServerToHost {
            Step::Finish
        } else {
            Step::Abort
        },
        ReadOutcome::Failed(IoFault::Other) => Step::Abort,
    }
}

/// The step a loop takes after writing a line: a closed pipe ends it
/// normally, any other failure ends it with an error.
pub open spec fn step_after_write(o: Option<IoFault>) -> Step {
    match o {
        None => Step::Proceed,
        Some(IoFault::BrokenPipe) => Step::Finish,
        Some(_) => Step::Abort,
    }
}

/// Decides what a mirror loop does after a read.
pub fn after_read(d: Direction, o: ReadOutcome) -> (r: Step)
    ensures
        r == step_after_read(d, o),
{
    match o {
        ReadOutcome::Line => Step::Proceed,
        ReadOutcome::EndOfStream => Step::Finish,
        ReadOutcome::Failed(IoFault::Interrupted) => Step::Retry,
        ReadOutcome::Failed(IoFault::BrokenPipe) => match d {
            Direction::ServerToHost => Step::Finish,
            Direction::HostToServer => Step::Abort,
        },
        ReadOutcome::Failed(IoFault::Other) => Step::Abort,
    }
}

/// Decides what a mirror loop does after a write; `None` is a write that
/// succeeded.
pub fn after_write(o: Option<IoFault>) -> (r: Step)
    ensures
        r == step_after_write(o),
{
    match o {
        None => Step::Proceed,
        Some(IoFault::BrokenPipe) => Step::Finish,
        Some(_) => Step::Abort,
    }
}

/// Once the server has closed its pipes, neither loop waits on it: the end of
/// its output ends the output loop normally, and a write into its closed
/// input ends the input loop normally.
pub proof fn lemma_closed_pipes_end_loops()
    ensures
        step_after_read(Direction::ServerToHost, ReadOutcome::EndOfStream) == Step::Finish,
        step_after_read(Direction::ServerToHost, ReadOutcome::Failed(IoFault::BrokenPipe))
            == Step::Finish,
        step_after_write(Some(IoFault::BrokenPipe)) == Step::Finish,
{
}

/// An event handler that ignores every line.
#[derive(Debug, Clone, Copy, Default)]
pub struct NoHandler;

} // verus!
