//! The interaction correlator: the single coordinator that owns every
//! outstanding wait for a correlated follow-up message, keyed by the
//! (author, channel) pair. A matching inbound message resolves the wait
//! before ordinary dispatch ever sees the message; an expired wait is
//! removed exactly once, so a late message can never resolve it.

use vstd::prelude::*;
use crate::dispatch::DispatchRequest;
use crate::game::REPLY_TIMEOUT_SECS;
use crate::game::accepted_reply;
use crate::game::accepts_reply;

verus! {

/// One pending wait: the identity pair whose next matching message it
/// claims, and the timeout bounding it. Its content predicate is the
/// game's `accepted_reply`: an all-digit string or a cancellation keyword.
#[derive(Clone, Copy, PartialEq, Eq, Structural, Debug)]
pub struct CorrelationFilter {
    pub author_id: u64,
    pub channel_id: u64,
    pub timeout_secs: u64,
}

impl CorrelationFilter {
    /// A wait for the given identity pair under the configured timeout.
    pub fn new(author_id: u64, channel_id: u64) -> (r: CorrelationFilter)
        ensures
            r == (CorrelationFilter {
                author_id,
                channel_id,
                timeout_secs: REPLY_TIMEOUT_SECS,
            }),
    {
        CorrelationFilter { author_id, channel_id, timeout_secs: REPLY_TIMEOUT_SECS }
    }
}

/// The coordinator owning every outstanding wait. At most one wait exists
/// per (author, channel) pair.
pub struct Correlator {
    pub waits: Vec<CorrelationFilter>,
}

impl Correlator {
    /// Well-formedness: no two waits share an identity pair.
    pub open spec fn wf(self) -> bool {
        forall|i: int, j: int|
            0 <= i < j < self.waits@.len() ==> !((#[trigger] self.waits@[i]).author_id == (
            #[trigger] self.waits@[j]).author_id && self.waits@[i].channel_id
                == self.waits@[j].channel_id)
    }

    /// A wait is outstanding for this identity pair.
    pub open spec fn has_wait(self, author_id: u64, channel_id: u64) -> bool {
        exists|i: int|
            0 <= i < self.waits@.len() && (#[trigger] self.waits@[i]).author_id == author_id
                && self.waits@[i].channel_id == channel_id
    }

    /// A coordinator with no outstanding wait.
    pub fn new() -> (r: Correlator)
        ensures
            r.wf(),
            r.waits@.len() == 0,
    {
        Correlator { waits: Vec::new() }
    }

    fn find(&self, author_id: u64, channel_id: u64) -> (r: Option<usize>)
        ensures
            r is Some <==> self.has_wait(author_id, channel_id),
            r is Some ==> r->0 < self.waits@.len() && self.waits@[r->0 as int].author_id
                == author_id && self.waits@[r->0 as int].channel_id == channel_id,
    {
        let n = self.waits.len();
        let mut i: usize = 0;
        while i < n
            invariant
                i <= n,
                n == self.waits@.len(),
                forall|j: int|
                    0 <= j < i ==> !((#[trigger] self.waits@[j]).author_id == author_id
                        && self.waits@[j].channel_id == channel_id),
            decreases n - i,
        {
            if self.waits[i].author_id == author_id && self.waits[i].channel_id == channel_id {
                return Some(i);
            }
            i += 1;
        }
        None
    }

    /// Registers a wait before its command suspends. Refused, leaving the
    /// coordinator unchanged, exactly when the pair already has one: a
    /// second concurrent wait per pair is rejected.
    pub fn begin_wait(&mut self, filter: CorrelationFilter) -> (r: bool)
        requires
            old(self).wf(),
        ensures
            final(self).wf(),
            r == !old(self).has_wait(filter.author_id, filter.channel_id),
            r ==> final(self).waits@ == old(self).waits@.push(filter),
            !r ==> *final(self) == *old(self),
    {
        match self.find(filter.author_id, filter.channel_id) {
            Some(_) => false,
            None => {
                self.waits.push(filter);
                true
            },
        }
    }

    /// Offers an inbound message to the outstanding waits. It resolves one
    /// exactly when its (author, channel) pair has a wait and its content
    /// passes the reply predicate; the resolved wait is removed at once,
    /// every other wait is untouched, and a message that resolves no wait
    /// leaves the coordinator unchanged (it belongs to ordinary dispatch).
    pub fn deliver(&mut self, req: &DispatchRequest) -> (r: bool)
        requires
            old(self).wf(),
        ensures
            final(self).wf(),
            r == (old(self).has_wait(req.author_id, req.channel_id) && accepted_reply(
                req.content@,
            )),
            r ==> !final(self).has_wait(req.author_id, req.channel_id),
            forall|a: u64, c: u64|
                !(a == req.author_id && c == req.channel_id) ==> final(self).has_wait(a, c) == old(
                    self,
                ).has_wait(a, c),
            !r ==> *final(self) == *old(self),
    {
        if !accepts_reply(req.content.as_str()) {
            return false;
        }
        match self.find(req.author_id, req.channel_id) {
            None => false,
            Some(i) => {
                self.remove_at(i);
                true
            },
        }
    }

    /// Removes the wait of an identity pair when its timer fires; returns
    /// whether one was outstanding, so a second removal reports `false`
    /// and removes nothing.
    pub fn expire(&mut self, author_id: u64, channel_id: u64) -> (r: bool)
        requires
            old(self).wf(),
        ensures
            final(self).wf(),
            r == old(self).has_wait(author_id, channel_id),
            !final(self).has_wait(author_id, channel_id),
            forall|a: u64, c: u64|
                !(a == author_id && c == channel_id) ==> final(self).has_wait(a, c) == old(
                    self,
                ).has_wait(a, c),
            !r ==> *final(self) == *old(self),
    {
        match self.find(author_id, channel_id) {
            None => false,
            Some(i) => {
                self.remove_at(i);
                true
            },
        }
    }

    fn remove_at(&mut self, i: usize)
        requires
            old(self).wf(),
            i < old(self).waits@.len(),
        ensures
            final(self).wf(),
            !final(self).has_wait(
                old(self).waits@[i as int].author_id,
                old(self).waits@[i as int].channel_id,
            ),
            forall|a: u64, c: u64|
                !(a == old(self).waits@[i as int].author_id && c == old(
                    self,
                ).waits@[i as int].channel_id) ==> final(self).has_wait(a, c) == old(
                    self,
                ).has_wait(a, c),
    {
        let ghost before = self.waits@;
        let ghost key = self.waits@[i as int];
        self.waits.remove(i);
        proof {
            assert(forall|j: int| 0 <= j < i ==> self.waits@[j] == before[j]);
            assert(forall|j: int|
                i <= j < self.waits@.len() ==> self.waits@[j] == before[j + 1]);
            assert forall|a: u64, c: u64|
                !(a == key.author_id && c == key.channel_id) && old(self).has_wait(
                    a,
                    c,
                ) implies self.has_wait(a, c) by {
                let w = choose|j: int|
                    0 <= j < before.len() && (#[trigger] before[j]).author_id == a
                        && before[j].channel_id == c;
                if w < i {
                    assert(self.waits@[w].author_id == a && self.waits@[w].channel_id == c);
                } else {
                    assert(w != i);
                    assert(self.waits@[w - 1].author_id == a && self.waits@[w - 1].channel_id
                        == c);
                }
            }
            assert forall|a: u64, c: u64| self.has_wait(a, c) implies old(self).has_wait(
                a,
                c,
            ) by {
                let w = choose|j: int|
                    0 <= j < self.waits@.len() && (#[trigger] self.waits@[j]).author_id == a
                        && self.waits@[j].channel_id == c;
                if w < i {
                    assert(before[w].author_id == a && before[w].channel_id == c);
                } else {
                    assert(before[w + 1].author_id == a && before[w + 1].channel_id == c);
                }
            }
            assert(!self.has_wait(key.author_id, key.channel_id)) by {
                if self.has_wait(key.author_id, key.channel_id) {
                    let w = choose|j: int|
                        0 <= j < self.waits@.len() && (#[trigger] self.waits@[j]).author_id
                            == key.author_id && self.waits@[j].channel_id == key.channel_id;
                    if w < i {
                        assert(!(before[w].author_id == before[i as int].author_id
                            && before[w].channel_id == before[i as int].channel_id));
                    } else {
                        assert(!(before[i as int].author_id == before[w + 1].author_id
                            && before[i as int].channel_id == before[w + 1].channel_id));
                    }
                }
            }
        }
    }
}

} // verus!
