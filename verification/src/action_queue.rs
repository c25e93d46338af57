//! The per-character single-slot hand-off queue, and the interpretation
//! of one executed action's response envelope.
//!
//! The queue has capacity exactly one: at most one action per character is
//! buffered or in flight, which serializes that character's requests. Two
//! ghost histories — everything ever submitted and everything ever popped —
//! let the contracts state the first-in-first-out guarantee exactly.

use vstd::prelude::*;
use crate::error::Error;
use crate::request::ActionRequest;
use crate::response::{APIResponse, ActionData};

verus! {

/// A bounded hand-off with capacity one. `submitted` and `popped` record
/// the full history of both ends; `popped` is always a prefix of
/// `submitted`, and at most one submission is pending between them.
pub struct ActionQueue {
    slot: Option<ActionRequest>,
    submitted: Ghost<Seq<ActionRequest>>,
    popped: Ghost<Seq<ActionRequest>>,
}

impl ActionQueue {
    /// Everything ever submitted, oldest first.
    pub closed spec fn submitted(&self) -> Seq<ActionRequest> {
        self.submitted@
    }

    /// Everything ever popped, oldest first.
    pub closed spec fn popped(&self) -> Seq<ActionRequest> {
        self.popped@
    }

    /// A submission is pending: the slot is occupied.
    pub open spec fn is_full(&self) -> bool {
        self.submitted().len() > self.popped().len()
    }

    /// The queue's invariant: what was popped is exactly the prefix of
    /// what was submitted, at most one submission is pending, and the
    /// slot holds the pending submission when there is one.
    pub closed spec fn well_formed(&self) -> bool {
        &&& self.popped@.len() <= self.submitted@.len()
        &&& self.submitted@.len() - self.popped@.len() <= 1
        &&& self.popped@ == self.submitted@.take(self.popped@.len() as int)
        &&& if self.submitted@.len() > self.popped@.len() {
                self.slot == Some(self.submitted@.last())
            } else {
                self.slot is None
            }
    }

    /// A fresh queue with an empty slot and empty histories.
    pub fn new() -> (q: ActionQueue)
        ensures
            q.well_formed(),
            q.submitted() == Seq::<ActionRequest>::empty(),
            q.popped() == Seq::<ActionRequest>::empty(),
    {
        let q = ActionQueue {
            slot: None,
            submitted: Ghost(Seq::empty()),
            popped: Ghost(Seq::empty()),
        };
        proof {
            assert(q.popped@ =~= q.submitted@.take(q.popped@.len() as int));
        }
        q
    }

    /// Deposit a request into the slot if it is free. The producer side of
    /// the hand-off: a rejected deposit leaves the queue unchanged, and the
    /// caller waits for the slot to clear before trying again.
    pub fn push(&mut self, request: ActionRequest) -> (accepted: bool)
        requires
            old(self).well_formed(),
        ensures
            final(self).well_formed(),
            accepted == !old(self).is_full(),
            final(self).popped() == old(self).popped(),
            accepted ==> final(self).submitted() == old(self).submitted().push(request),
            !accepted ==> final(self).submitted() == old(self).submitted(),
    {
        if self.slot.is_some() {
            return false;
        }
        self.slot = Some(request);
        proof {
            self.submitted@ = self.submitted@.push(request);
            assert(self.popped@ =~= self.submitted@.take(self.popped@.len() as int));
        }
        true
    }

    /// Take the pending request out of the slot, if any. The consumer side
    /// of the hand-off: the popped request is exactly the oldest submission
    /// not yet popped, so consumption happens in submission order.
    pub fn pop(&mut self) -> (r: Option<ActionRequest>)
        requires
            old(self).well_formed(),
        ensures
            final(self).well_formed(),
            final(self).submitted() == old(self).submitted(),
            r is Some <==> old(self).is_full(),
            old(self).is_full() ==> {
                &&& r == Some(old(self).submitted()[old(self).popped().len() as int])
                &&& final(self).popped() == old(self).popped().push(
                    old(self).submitted()[old(self).popped().len() as int],
                )
            },
            !old(self).is_full() ==> final(self).popped() == old(self).popped(),
    {
        let taken = self.slot.take();
        match taken {
            Some(request) => {
                proof {
                    self.popped@ = self.popped@.push(request);
                    assert(self.popped@ =~= self.submitted@.take(self.popped@.len() as int));
                }
                Some(request)
            }
            None => None,
        }
    }
}

/// Law: consumption is first-in-first-out and serialized. In every
/// well-formed queue, what has been popped is exactly the prefix of what
/// was submitted — the n-th pop returned the n-th submission — and at most
/// one submission is pending, so no two of one character's actions are in
/// flight at once.
pub proof fn lemma_queue_fifo(q: &ActionQueue)
    requires
        q.well_formed(),
    ensures
        q.popped() == q.submitted().take(q.popped().len() as int),
        forall|i: int| 0 <= i < q.popped().len() ==> q.popped()[i] == q.submitted()[i],
        q.submitted().len() - q.popped().len() <= 1,
{
    assert forall|i: int| 0 <= i < q.popped().len() implies q.popped()[i] == q.submitted()[i] by {
        assert(q.popped()[i] == q.submitted().take(q.popped().len() as int)[i]);
    }
}

/// The model of one executed action's outcome, from the response envelope:
/// a success payload yields its remaining cooldown seconds; an error
/// payload is classified by code (490 a harmless no-op, 499 a cooldown
/// rejection, anything else a remote failure carried verbatim); an
/// envelope with both or neither payload breaks the server contract.
pub open spec fn spec_classify(res: APIResponse<ActionData>) -> Result<Option<i64>, Error> {
    match (res.data, res.error) {
        (Some(data), None) => Ok(Some(data.cooldown.remaining_seconds)),
        (None, Some(e)) => if e.code == 490 {
            Ok(None)
        } else if e.code == 499 {
            Err(Error::Cooldown)
        } else {
            Err(Error::APIError(e))
        },
        _ => Err(Error::InvalidAPIResponse),
    }
}

/// Interpret the decoded response envelope of one executed action.
/// `Ok(Some(s))` is a success with `s` seconds of cooldown to respect,
/// `Ok(None)` means proceed immediately (the no-op code 490), and each
/// error is classified as `spec_classify` states.
pub fn classify_response(res: APIResponse<ActionData>) -> (r: Result<Option<i64>, Error>)
    ensures
        r == spec_classify(res),
{
    match res {
        APIResponse { data: Some(data), error: None } => Ok(Some(data.cooldown.remaining_seconds)),
        APIResponse { data: None, error: Some(e) } => {
            if e.code == 490 {
                Ok(None)
            } else if e.code == 499 {
                Err(Error::Cooldown)
            } else {
                Err(Error::APIError(e))
            }
        }
        _ => Err(Error::InvalidAPIResponse),
    }
}

} // verus!
