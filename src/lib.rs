//! Safe access to the host interface of a WebAssembly program that runs inside a block-building
//! game: the block types the host knows, and a character sink that turns formatted text into
//! calls of the host's one-character output primitive, whose chat shows a line once a newline
//! arrives.
use vstd::prelude::*;

pub mod block;
pub mod chat;
pub mod fault;
pub mod fmt;

pub use block::Block;
pub use chat::Chat;
pub use fmt::MciWriteStream;

use chat::{lemma_newline_shows_pending, lemma_text_without_newline, lines_of, pending_of, NEWLINE};

verus! {

/// Writes one character to the chat. Characters show once a newline is written.
pub fn mc_putc(out: &mut MciWriteStream, ch: char)
    ensures
        final(out)@ == old(out)@.push(ch),
{
    out.put(ch);
}

/// Writes a string to the chat, character by character. The characters show once a newline is
/// written.
pub fn print_str(out: &mut MciWriteStream, s: &str)
    ensures
        final(out)@ == old(out)@ + s@,
{
    let ghost start = out@;
    let n = s.unicode_len();
    let mut i: usize = 0;
    while i < n
        invariant
            n == s@.len(),
            i <= n,
            out@ == start + s@.subrange(0, i as int),
        decreases n - i,
    {
        let c = s.get_char(i);
        mc_putc(out, c);
        assert(s@.subrange(0, i + 1) =~= s@.subrange(0, i as int).push(c));
        i = i + 1;
    }
    assert(s@.subrange(0, n as int) =~= s@);
}

/// Writes a string and then a newline to the chat, which shows the line.
pub fn println(out: &mut MciWriteStream, s: &str)
    ensures
        final(out)@ == old(out)@ + s@ + seq![NEWLINE],
{
    print_str(out, s);
    mc_putc(out, NEWLINE);
    assert((old(out)@ + s@).push(NEWLINE) =~= old(out)@ + s@ + seq![NEWLINE]);
}

/// A line written with its newline is shown as exactly one line of the chat: the text that was
/// pending followed by the line's characters, and afterwards nothing is pending.
pub proof fn lemma_println_shows_one_line(before: Seq<char>, s: Seq<char>)
    requires
        !s.contains(NEWLINE),
    ensures
        lines_of(before + s + seq![NEWLINE]) == lines_of(before).push(pending_of(before) + s),
        pending_of(before + s + seq![NEWLINE]) == Seq::<char>::empty(),
{
    lemma_text_without_newline(before, s);
    lemma_newline_shows_pending(before + s);
    assert(before + s + seq![NEWLINE] =~= (before + s).push(NEWLINE));
}

/// Two writes without a newline between them show nothing: the host holds both, joined with no
/// separator, in its pending line.
pub proof fn lemma_prints_join_pending(before: Seq<char>, a: Seq<char>, b: Seq<char>)
    requires
        !a.contains(NEWLINE),
        !b.contains(NEWLINE),
    ensures
        lines_of(before + a + b) == lines_of(before),
        pending_of(before + a + b) == pending_of(before) + a + b,
{
    lemma_text_without_newline(before, a);
    lemma_text_without_newline(before + a, b);
}

/// The stream that writing the characters of `s` one at a time after `before` hands to the host.
pub open spec fn forward_each(before: Seq<char>, s: Seq<char>) -> Seq<char>
    decreases s.len(),
{
    if s.len() == 0 {
        before
    } else {
        forward_each(before.push(s[0]), s.skip(1))
    }
}

/// Writing a string at once hands the host the same stream as writing its characters one at a
/// time.
pub proof fn lemma_bulk_matches_single(before: Seq<char>, s: Seq<char>)
    ensures
        forward_each(before, s) == before + s,
    decreases s.len(),
{
    if s.len() == 0 {
        assert(before + s =~= before);
    } else {
        lemma_bulk_matches_single(before.push(s[0]), s.skip(1));
        assert(before.push(s[0]) + s.skip(1) =~= before + s);
    }
}

/// Writing `a` and then `b` leaves the host the same stream, and so the same shown lines and
/// pending line, as writing their concatenation at once.
pub proof fn lemma_split_write(before: Seq<char>, a: Seq<char>, b: Seq<char>)
    ensures
        before + a + b == before + (a + b),
        lines_of(before + a + b) == lines_of(before + (a + b)),
        pending_of(before + a + b) == pending_of(before + (a + b)),
{
    assert(before + a + b =~= before + (a + b));
}

} // verus!
