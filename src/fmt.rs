//! The character sink that formatted text is written into.
use vstd::prelude::*;
use core::convert::Infallible;

verus! {

/// A sink for formatted text whose every character goes, in order and exactly once, to the
/// host's one-character output primitive. The host shows nothing until a newline is written.
///
/// Its view is the stream of characters handed to the primitive that the caller has not yet
/// collected with `take_output`. Writing never fails.
pub struct MciWriteStream {
    output: Vec<char>,
}

impl View for MciWriteStream {
    type V = Seq<char>;

    closed spec fn view(&self) -> Seq<char> {
        self.output@
    }
}

impl MciWriteStream {
    /// A sink through which nothing has been written.
    pub fn new() -> (r: MciWriteStream)
        ensures
            r@ == Seq::<char>::empty(),
    {
        MciWriteStream { output: Vec::new() }
    }

    /// Hands one character to the output primitive.
    pub(crate) fn put(&mut self, c: char)
        ensures
            final(self)@ == old(self)@.push(c),
    {
        self.output.push(c);
    }

    /// Forwards every character of `s`, in order. Always succeeds.
    pub fn write_str(&mut self, s: &str) -> (r: Result<(), Infallible>)
        ensures
            final(self)@ == old(self)@ + s@,
            r is Ok,
    {
        crate::print_str(self, s);
        Ok(())
    }

    /// Forwards one character. Always succeeds.
    pub fn write_char(&mut self, c: char) -> (r: Result<(), Infallible>)
        ensures
            final(self)@ == old(self)@.push(c),
            r is Ok,
    {
        crate::mc_putc(self, c);
        Ok(())
    }

    /// The characters forwarded since the last collection, in order; the sink is left empty.
    pub fn take_output(&mut self) -> (r: Vec<char>)
        ensures
            r@ == old(self)@,
            final(self)@ == Seq::<char>::empty(),
    {
        let r = self.output.clone();
        self.output = Vec::new();
        r
    }
}

} // verus!
