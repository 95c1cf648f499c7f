//! A cursor with lookahead over the characters of a text.

use vstd::prelude::*;

verus! {

/// The character at index `i` of `s`, if there is one.
pub open spec fn char_at(s: Seq<char>, i: int) -> Option<char> {
    if 0 <= i < s.len() {
        Some(s[i])
    } else {
        None
    }
}

/// A cursor over the characters of a text, with lookahead.
pub struct StrCached {
    data: Vec<char>,
    pos: usize,
}

impl StrCached {
    /// The whole text the cursor walks over.
    pub closed spec fn text(&self) -> Seq<char> {
        self.data@
    }

    /// How many characters have been consumed.
    pub closed spec fn offset(&self) -> int {
        self.pos as int
    }

    pub open spec fn wf(&self) -> bool {
        0 <= self.offset() <= self.text().len()
    }

    pub fn new(data: &str) -> (r: Self)
        ensures
            r.wf(),
            r.text() == data@,
            r.offset() == 0,
    {
        let mut chars: Vec<char> = Vec::new();
        for c in it: data.chars()
            invariant
                it.seq() == data@,
                chars@ == it.seq().subrange(0, it.index() as int),
        {
            chars.push(c);
        }
        StrCached { data: chars, pos: 0 }
    }

    /// The character under the cursor, or `None` at the end of the text.
    pub fn cur_char(&mut self) -> (r: Option<char>)
        requires
            old(self).wf(),
        ensures
            *final(self) == *old(self),
            r == char_at(old(self).text(), old(self).offset()),
    {
        if self.pos < self.data.len() {
            Some(self.data[self.pos])
        } else {
            None
        }
    }

    /// The character after the one under the cursor.
    pub fn peek_char(&mut self) -> (r: Option<char>)
        requires
            old(self).wf(),
            old(self).offset() < old(self).text().len(),
        ensures
            *final(self) == *old(self),
            r == char_at(old(self).text(), old(self).offset() + 1),
    {
        if self.data.len() - self.pos >= 2 {
            Some(self.data[self.pos + 1])
        } else {
            None
        }
    }

    /// The `n`-th character from the cursor on, counting the one under it as the first.
    pub fn peek_n(&mut self, n: usize) -> (r: Option<char>)
        requires
            old(self).wf(),
            old(self).offset() < old(self).text().len(),
            n >= 1,
        ensures
            *final(self) == *old(self),
            r == char_at(old(self).text(), old(self).offset() + n - 1),
    {
        if n - 1 < self.data.len() - self.pos {
            Some(self.data[self.pos + (n - 1)])
        } else {
            None
        }
    }

    /// Moves the cursor past one character; at the end of the text it stays.
    pub fn next_char(&mut self)
        requires
            old(self).wf(),
        ensures
            final(self).wf(),
            final(self).text() == old(self).text(),
            final(self).offset() == if old(self).offset() < old(self).text().len() {
                old(self).offset() + 1
            } else {
                old(self).offset()
            },
    {
        if self.pos < self.data.len() {
            self.pos = self.pos + 1;
        }
    }
}

} // verus!
