//! The bounded character buffer holding the secret being entered.

use vstd::prelude::*;

verus! {

/// A single mutation of the buffer, produced by the multi-tap resolver.
#[derive(Clone, Copy, Debug, PartialEq, Eq, Structural)]
pub enum TextEdit {
    /// Append a character (refused silently when the buffer is full).
    Append(char),
    /// Replace the last character (no effect on an empty buffer).
    ReplaceLast(char),
}

/// What the buffer holds after applying `e` to contents `s` under bound
/// `max_len`.
pub open spec fn spec_apply(s: Seq<char>, max_len: int, e: TextEdit) -> Seq<char> {
    match e {
        TextEdit::Append(c) => if s.len() < max_len {
            s.push(c)
        } else {
            s
        },
        TextEdit::ReplaceLast(c) => if s.len() > 0 {
            s.update(s.len() - 1, c)
        } else {
            s
        },
    }
}

/// An ordered, bounded sequence of characters. The bound is enforced here:
/// an append beyond `max_len` is refused, so the surrounding widget never
/// needs to report an over-capacity condition.
#[derive(Debug, PartialEq, Eq)]
pub struct TextBox {
    pub chars: Vec<char>,
    pub max_len: usize,
}

impl TextBox {
    /// The length bound holds.
    pub open spec fn wf(self) -> bool {
        self.chars@.len() <= self.max_len
    }

    /// An empty buffer with the given immutable bound.
    pub fn empty(max_len: usize) -> (r: TextBox)
        ensures
            r.wf(),
            r.chars@ =~= Seq::<char>::empty(),
            r.max_len == max_len,
    {
        TextBox { chars: Vec::new(), max_len }
    }

    /// Current length.
    pub fn len(&self) -> (n: usize)
        ensures
            n == self.chars@.len(),
    {
        self.chars.len()
    }

    /// Read the current contents.
    pub fn content(&self) -> (r: &Vec<char>)
        ensures
            r@ == self.chars@,
    {
        &self.chars
    }

    /// Apply one edit, refusing an append on a full buffer.
    pub fn apply(&mut self, e: TextEdit)
        requires
            old(self).wf(),
        ensures
            final(self).wf(),
            final(self).max_len == old(self).max_len,
            final(self).chars@ == spec_apply(old(self).chars@, old(self).max_len as int, e),
    {
        match e {
            TextEdit::Append(c) => {
                if self.chars.len() < self.max_len {
                    self.chars.push(c);
                }
            },
            TextEdit::ReplaceLast(c) => {
                let n = self.chars.len();
                if n > 0 {
                    self.chars.set(n - 1, c);
                }
            },
        }
    }

    /// Delete the last character; no effect on an empty buffer.
    pub fn delete_last(&mut self)
        requires
            old(self).wf(),
        ensures
            final(self).wf(),
            final(self).max_len == old(self).max_len,
            final(self).chars@ == if old(self).chars@.len() > 0 {
                old(self).chars@.drop_last()
            } else {
                old(self).chars@
            },
    {
        if self.chars.len() > 0 {
            self.chars.pop();
        }
    }

    /// Delete everything.
    pub fn clear(&mut self)
        requires
            old(self).wf(),
        ensures
            final(self).wf(),
            final(self).max_len == old(self).max_len,
            final(self).chars@ =~= Seq::<char>::empty(),
    {
        self.chars.clear();
    }
}

} // verus!
