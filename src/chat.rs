//! The host's chat as this library sees it: the output primitive takes one character at a time,
//! gathers them into a pending line and shows that line, and clears it, when a newline arrives.
//!
//! `lines_of` and `pending_of` say what a stream of characters handed to the primitive leaves in
//! the chat; `Chat` is an executable model of the same host that keeps that state as it goes.
use vstd::prelude::*;

verus! {

/// The character on which the host shows its pending line.
pub const NEWLINE: char = '\n';

/// The text the host holds back after receiving `s`: what came after the last newline.
pub open spec fn pending_of(s: Seq<char>) -> Seq<char>
    decreases s.len(),
{
    if s.len() == 0 {
        seq![]
    } else if s.last() == NEWLINE {
        seq![]
    } else {
        pending_of(s.drop_last()).push(s.last())
    }
}

/// The lines the host has shown after receiving `s`, in order: one for each newline, holding
/// what came before it since the newline before.
pub open spec fn lines_of(s: Seq<char>) -> Seq<Seq<char>>
    decreases s.len(),
{
    if s.len() == 0 {
        seq![]
    } else if s.last() == NEWLINE {
        lines_of(s.drop_last()).push(pending_of(s.drop_last()))
    } else {
        lines_of(s.drop_last())
    }
}

/// Text without a newline shows no line and joins the pending one.
pub proof fn lemma_text_without_newline(before: Seq<char>, s: Seq<char>)
    requires
        !s.contains(NEWLINE),
    ensures
        lines_of(before + s) == lines_of(before),
        pending_of(before + s) == pending_of(before) + s,
    decreases s.len(),
{
    if s.len() == 0 {
        assert(before + s =~= before);
        assert(pending_of(before) + s =~= pending_of(before));
    } else {
        let t = s.drop_last();
        assert(!t.contains(NEWLINE)) by {
            if t.contains(NEWLINE) {
                let i = choose|i: int| 0 <= i < t.len() && t[i] == NEWLINE;
                assert(s[i] == NEWLINE);
            }
        }
        assert(s.last() != NEWLINE) by {
            assert(s[s.len() - 1] == s.last());
        }
        lemma_text_without_newline(before, t);
        assert((before + s).drop_last() =~= before + t);
        assert((before + s).last() == s.last());
        assert(pending_of(before) + s =~= (pending_of(before) + t).push(s.last()));
    }
}

/// A newline shows the pending line, with nothing added, and leaves nothing pending.
pub proof fn lemma_newline_shows_pending(before: Seq<char>)
    ensures
        lines_of(before.push(NEWLINE)) == lines_of(before).push(pending_of(before)),
        pending_of(before.push(NEWLINE)) == Seq::<char>::empty(),
{
    assert(before.push(NEWLINE).drop_last() =~= before);
}

/// The characters of a vector of lines.
pub open spec fn lines_view(lines: Seq<Vec<char>>) -> Seq<Seq<char>> {
    lines.map_values(|l: Vec<char>| l@)
}

/// An executable model of the host's chat: the lines it has shown and the line it holds back.
pub struct Chat {
    lines: Vec<Vec<char>>,
    pending: Vec<char>,
    received: Ghost<Seq<char>>,
}

impl Chat {
    /// Every character the host has received, in order.
    pub closed spec fn received(&self) -> Seq<char> {
        self.received@
    }

    /// The shown lines and the pending line are those that the received characters leave.
    pub closed spec fn wf(&self) -> bool {
        &&& lines_view(self.lines@) == lines_of(self.received@)
        &&& self.pending@ == pending_of(self.received@)
    }

    /// A chat that has received nothing.
    pub fn new() -> (r: Chat)
        ensures
            r.wf(),
            r.received() == Seq::<char>::empty(),
    {
        let r = Chat { lines: Vec::new(), pending: Vec::new(), received: Ghost(Seq::empty()) };
        assert(lines_view(r.lines@) =~= Seq::<Seq<char>>::empty());
        r
    }

    /// The host receives one character.
    pub fn receive(&mut self, c: char)
        requires
            old(self).wf(),
        ensures
            final(self).wf(),
            final(self).received() == old(self).received().push(c),
    {
        let ghost before = self.received@;
        let ghost after = before.push(c);
        assert(after.drop_last() =~= before);
        if c == NEWLINE {
            let line = self.pending.clone();
            self.pending = Vec::new();
            self.lines.push(line);
            assert(lines_view(self.lines@) =~= lines_view(old(self).lines@).push(line@));
        } else {
            self.pending.push(c);
        }
        self.received = Ghost(after);
    }

    /// The host receives each character of `s`, in order.
    pub fn receive_all(&mut self, s: &Vec<char>)
        requires
            old(self).wf(),
        ensures
            final(self).wf(),
            final(self).received() == old(self).received() + s@,
    {
        let ghost start = self.received@;
        let mut i: usize = 0;
        while i < s.len()
            invariant
                self.wf(),
                i <= s.len(),
                self.received() == start + s@.subrange(0, i as int),
            decreases s.len() - i,
        {
            self.receive(s[i]);
            assert(s@.subrange(0, i + 1) =~= s@.subrange(0, i as int).push(s@[i as int]));
            i = i + 1;
        }
        assert(s@.subrange(0, s.len() as int) =~= s@);
    }

    /// The lines shown so far, oldest first.
    pub fn lines(&self) -> (r: &Vec<Vec<char>>)
        requires
            self.wf(),
        ensures
            lines_view(r@) == lines_of(self.received()),
    {
        &self.lines
    }

    /// The text received since the last newline, not yet shown.
    pub fn pending(&self) -> (r: &Vec<char>)
        requires
            self.wf(),
        ensures
            r@ == pending_of(self.received()),
    {
        &self.pending
    }
}

} // verus!
