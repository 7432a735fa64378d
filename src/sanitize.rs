//! Removing terminal escape and control sequences from console output.
use vstd::prelude::*;

verus! {

/// A C0 or C1 control character.
pub open spec fn is_control(c: char) -> bool {
    c <= '\x1f' || ('\u{80}' <= c && c <= '\u{9f}')
}

/// A character that survives sanitizing: a newline or a non-control one.
pub open spec fn is_kept(c: char) -> bool {
    c == '\n' || !is_control(c)
}

/// Text that holds no escape or control character but newlines.
pub open spec fn is_clean(s: Seq<char>) -> bool {
    forall|i: int| 0 <= i < s.len() ==> is_kept(#[trigger] s[i])
}

/// Text with its control characters, newlines excepted, left out.
pub open spec fn plain(s: Seq<char>) -> Seq<char> {
    s.filter(|c: char| is_kept(c))
}

/// The text that the terminal parser prints for `s`, with newlines kept.
pub uninterp spec fn stripped(s: Seq<char>) -> Seq<char>;

/// Relies on String::push: appends `c` to `s`.
#[verifier::external_body]
fn push_char(s: &mut String, c: char)
    ensures
        final(s)@ == old(s)@.push(c),
{
    s.push(c);
}

/// Receives the parser's actions and keeps printed characters and newlines.
struct Collector {
    buf: String,
}

impl vte::Perform for Collector {
    fn print(&mut self, c: char) {
        push_char(&mut self.buf, c);
    }

    fn execute(&mut self, byte: u8) {
        if byte == 10u8 {
            push_char(&mut self.buf, '\n');
        }
    }
}

/// Relies on vte::Parser::advance, fed the whole text at once. It prints
/// only non-control characters and executes control bytes, of which the
/// collector keeps newlines. Outside an escape sequence (text without ESC),
/// each character is printed or executed in turn.
#[verifier::external_body]
fn run_terminal_parser(s: &str) -> (r: String)
    ensures
        r@ == stripped(s@),
        is_clean(r@),
        !s@.contains('\x1b') ==> r@ == plain(s@),
{
    let mut collector = Collector { buf: String::new() };
    let mut parser = vte::Parser::new();
    parser.advance(&mut collector, s.as_bytes());
    collector.buf
}

proof fn lemma_plain_of_clean(s: Seq<char>)
    requires
        is_clean(s),
    ensures
        plain(s) == s,
    decreases s.len(),
{
    reveal_with_fuel(Seq::filter, 1);
    if s.len() > 0 {
        lemma_plain_of_clean(s.drop_last());
        assert(s.drop_last().push(s.last()) =~= s);
    } else {
        assert(plain(s) =~= s);
    }
}

/// Strips escape sequences from `s`, keeping printable characters and
/// newlines. The result is clean, and clean text comes back unchanged, so
/// sanitizing twice gives what sanitizing once gives.
pub fn sanitize(s: &str) -> (r: String)
    ensures
        r@ == stripped(s@),
        is_clean(r@),
        !s@.contains('\x1b') ==> r@ == plain(s@),
        is_clean(s@) ==> r@ == s@,
{
    let r = run_terminal_parser(s);
    proof {
        if is_clean(s@) {
            lemma_plain_of_clean(s@);
            assert(!s@.contains('\x1b')) by {
                if s@.contains('\x1b') {
                    let i = choose|i: int| 0 <= i < s@.len() && s@[i] == '\x1b';
                    assert(is_kept(s@[i]));
                }
            }
        }
    }
    r
}

} // verus!
