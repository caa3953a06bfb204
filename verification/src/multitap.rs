//! The multi-tap resolver: repeated taps on one ambiguous key cycle through
//! that key's candidate characters until the selection commits.
//!
//! Only the pending-selection state is modeled; the resolver's commit
//! timeout is delivered by the surrounding loop as a timer notification.

use crate::textbox::TextEdit;
use vstd::prelude::*;

verus! {

/// An in-progress multi-tap selection: which key is cycling and which of its
/// candidate characters the last tap selected.
#[derive(Clone, Copy, Debug, PartialEq, Eq, Structural)]
pub struct PendingKey {
    pub key: usize,
    pub candidate: usize,
}

/// The pending state after a tap on key `idx` whose candidate characters are
/// `text`, given the previous pending state.
pub open spec fn spec_click_pending(p: Option<PendingKey>, idx: usize, text: Seq<char>) -> Option<
    PendingKey,
> {
    if text.len() <= 1 {
        None
    } else {
        match p {
            Some(pk) => if pk.key == idx {
                Some(
                    PendingKey {
                        key: idx,
                        candidate: ((pk.candidate + 1) % (text.len() as int)) as usize,
                    },
                )
            } else {
                Some(PendingKey { key: idx, candidate: 0 })
            },
            None => Some(PendingKey { key: idx, candidate: 0 }),
        }
    }
}

/// The buffer edit produced by a tap on key `idx` with candidates `text`:
/// an unambiguous key appends its only character; a repeated tap on the
/// pending key replaces the last character with the next candidate; a fresh
/// ambiguous tap appends the first candidate.
pub open spec fn spec_click_edit(p: Option<PendingKey>, idx: usize, text: Seq<char>) -> TextEdit
    recommends
        text.len() >= 1,
{
    if text.len() <= 1 {
        TextEdit::Append(text[0])
    } else {
        match p {
            Some(pk) => if pk.key == idx {
                TextEdit::ReplaceLast(text[(pk.candidate + 1) % (text.len() as int)])
            } else {
                TextEdit::Append(text[0])
            },
            None => TextEdit::Append(text[0]),
        }
    }
}

/// The resolver. It owns nothing but the pending selection.
#[derive(Clone, Copy, Debug, PartialEq, Eq, Structural)]
pub struct MultiTapKeyboard {
    pub pending: Option<PendingKey>,
}

impl MultiTapKeyboard {
    /// A pending candidate index left by [`MultiTapKeyboard::click_key`] is
    /// always strictly below the candidate count of some key, so stepping it
    /// cannot overflow.
    pub open spec fn wf(self) -> bool {
        match self.pending {
            Some(pk) => pk.candidate < usize::MAX,
            None => true,
        }
    }

    /// A resolver with no selection pending.
    pub fn new() -> (r: MultiTapKeyboard)
        ensures
            r.pending is None,
            r.wf(),
    {
        MultiTapKeyboard { pending: None }
    }

    /// The key of the pending selection, if one is cycling.
    pub fn pending_key(&self) -> (r: Option<usize>)
        ensures
            r == match self.pending {
                Some(pk) => Some(pk.key),
                None => None::<usize>,
            },
    {
        match self.pending {
            Some(pk) => Some(pk.key),
            None => None,
        }
    }

    /// Abandon any pending selection (the character already in the buffer
    /// stays as it is, committed).
    pub fn clear_pending_state(&mut self)
        ensures
            final(self).pending is None,
            final(self).wf(),
    {
        self.pending = None;
    }

    /// Resolve one tap on key `idx` whose candidate characters are `text`,
    /// returning the buffer edit to apply.
    pub fn click_key(&mut self, idx: usize, text: &Vec<char>) -> (e: TextEdit)
        requires
            old(self).wf(),
            text@.len() >= 1,
        ensures
            final(self).wf(),
            final(self).pending == spec_click_pending(old(self).pending, idx, text@),
            e == spec_click_edit(old(self).pending, idx, text@),
    {
        if text.len() <= 1 {
            self.pending = None;
            TextEdit::Append(text[0])
        } else {
            let same_key = match self.pending {
                Some(pk) => pk.key == idx,
                None => false,
            };
            if same_key {
                let candidate = match self.pending {
                    Some(pk) => pk.candidate,
                    None => 0,
                };
                let next = (candidate + 1) % text.len();
                self.pending = Some(PendingKey { key: idx, candidate: next });
                TextEdit::ReplaceLast(text[next])
            } else {
                self.pending = Some(PendingKey { key: idx, candidate: 0 });
                TextEdit::Append(text[0])
            }
        }
    }
}

} // verus!
