//! Bookkeeping of outstanding work requests.
//!
//! Each posted request is registered under a key, which is also its work
//! request id. The completion poller stores the completion that carries
//! that id in the request's slot and wakes the task that waits for it;
//! the waiting task takes the completion out and frees the slot.

use vstd::prelude::*;
use crate::error::Result;
use slab::Slab;
use std::task::Waker;

verus! {

/// `slab::Slab`, opaque to the proofs; what it holds is `slab_slots`.
#[verifier::external_type_specification]
#[verifier::external_body]
#[verifier::reject_recursive_types(T)]
pub struct ExSlab<T>(Slab<T>);

/// `std::task::Waker`, carried through opaquely.
#[verifier::external_type_specification]
#[verifier::external_body]
pub struct ExWaker(Waker);

/// A work completion, as `ibv_poll_cq` reports it.
#[derive(Debug, Clone, Copy, PartialEq, Eq)]
pub struct Completion {
    pub wr_id: u64,
    pub status: u32,
    pub opcode: u32,
    pub vendor_err: u32,
    pub byte_len: u32,
    pub imm_data: u32,
    pub qp_num: u32,
    pub src_qp: u32,
    pub wc_flags: u32,
    pub pkey_index: u16,
    pub slid: u16,
    pub sl: u8,
    pub dlid_path_bits: u8,
}

/// The completion of one request, handed to the task that waited for it.
#[derive(Debug, Clone, Copy, PartialEq, Eq)]
pub struct WorkCompletion {
    pub wc: Completion,
}

/// The slot of one outstanding request: the waker of the task that waits
/// for it, once that task has looked, and its completion, once it came.
pub struct WakerState {
    pub waker: Option<Waker>,
    pub result: Option<Completion>,
}

/// The slot of a request that was just posted.
pub open spec fn fresh_slot() -> WakerState {
    WakerState { waker: None, result: None }
}

/// What a slab of request slots holds, by key.
pub uninterp spec fn slab_slots(s: Slab<WakerState>) -> Map<usize, WakerState>;

/// `Slab::new`: an empty slab.
#[verifier::external_body]
fn slab_new() -> (created: Slab<WakerState>)
    ensures
        slab_slots(created) =~= Map::empty(),
{
    Slab::new()
}

/// `Slab::insert`: stores `v` under a key that was vacant and returns
/// the key. Which vacant key it picks depends on the slab's free list,
/// not on what it holds, so only its vacancy is stated. (It panics only
/// when its storage would outgrow `isize::MAX` bytes.)
#[verifier::external_body]
fn slab_insert(s: &mut Slab<WakerState>, v: WakerState) -> (key: usize)
    ensures
        !slab_slots(*old(s)).contains_key(key),
        slab_slots(*final(s)) == slab_slots(*old(s)).insert(key, v),
{
    s.insert(v)
}

/// `Slab::contains`: whether `key` holds a value.
#[verifier::external_body]
fn slab_contains(s: &Slab<WakerState>, key: usize) -> (b: bool)
    ensures
        b == slab_slots(*s).contains_key(key),
{
    s.contains(key)
}

/// `Slab::remove`: takes the value under `key` out and frees the key; it
/// panics on a vacant key.
#[verifier::external_body]
fn slab_remove(s: &mut Slab<WakerState>, key: usize) -> (v: WakerState)
    requires
        slab_slots(*old(s)).contains_key(key),
    ensures
        v == slab_slots(*old(s))[key],
        slab_slots(*final(s)) == slab_slots(*old(s)).remove(key),
{
    s.remove(key)
}

/// `IndexMut` of `Slab`, through which the value under `key` is replaced
/// by `v`; the old value is returned. Indexing panics on a vacant key.
#[verifier::external_body]
fn slab_replace(s: &mut Slab<WakerState>, key: usize, v: WakerState) -> (prev: WakerState)
    requires
        slab_slots(*old(s)).contains_key(key),
    ensures
        prev == slab_slots(*old(s))[key],
        slab_slots(*final(s)) == slab_slots(*old(s)).insert(key, v),
{
    core::mem::replace(&mut s[key], v)
}

/// The slots after the completion `wc` arrived: the slot under its id,
/// if there is one, holds the completion and no longer a waker.
pub open spec fn after_completion(slots: Map<usize, WakerState>, wc: Completion) -> Map<usize, WakerState> {
    let key: usize = wc.wr_id as usize;
    if slots.contains_key(key) {
        slots.insert(key, WakerState { waker: None, result: Some(wc) })
    } else {
        slots
    }
}

/// What the waiting task finds when it looks at the slot under `key`:
/// the completion, if it came, and the slots afterwards (the slot freed,
/// or holding `waker` to be woken later).
pub open spec fn after_poll(slots: Map<usize, WakerState>, key: usize, waker: Waker) -> (Option<Completion>, Map<usize, WakerState>) {
    match slots[key].result {
        Some(wc) => (Some(wc), slots.remove(key)),
        None => (None, slots.insert(key, WakerState { waker: Some(waker), result: None })),
    }
}

/// A registered request is answered with its own completion, whether the
/// waiting task looks before the completion arrives or after, and once
/// answered it leaves the outstanding requests as they were before it was
/// registered. When the task looked first, the completion hands back the
/// waker it left.
pub proof fn lemma_request_answered_with_its_completion(
    before: Map<usize, WakerState>,
    key: usize,
    wc: Completion,
    first_waker: Waker,
    second_waker: Waker,
)
    requires
        !before.contains_key(key),
        wc.wr_id == key as u64,
    ensures
        ({
            let registered = before.insert(key, fresh_slot());
            let (seen, waiting) = after_poll(registered, key, first_waker);
            let completed = after_completion(waiting, wc);
            let (answer, after) = after_poll(completed, key, second_waker);
            &&& seen is None
            &&& completed[key].result == Some(wc)
            &&& waiting[key].waker == Some(first_waker)
            &&& answer == Some(wc)
            &&& after =~= before
        }),
        ({
            let registered = before.insert(key, fresh_slot());
            let completed = after_completion(registered, wc);
            let (answer, after) = after_poll(completed, key, first_waker);
            &&& answer == Some(wc)
            &&& after =~= before
        }),
{
}

/// A completion touches only the slot of the request with its id.
pub proof fn lemma_completion_touches_only_its_request(
    slots: Map<usize, WakerState>,
    wc: Completion,
    other: usize,
)
    requires
        other != wc.wr_id as usize,
    ensures
        after_completion(slots, wc).contains_key(other) == slots.contains_key(other),
        slots.contains_key(other) ==> after_completion(slots, wc)[other] == slots[other],
        after_completion(slots, wc).dom() =~= slots.dom(),
{
}

/// A completion whose id belongs to no outstanding request is ignored.
pub proof fn lemma_unknown_completion_ignored(slots: Map<usize, WakerState>, wc: Completion)
    requires
        !slots.contains_key(wc.wr_id as usize),
    ensures
        after_completion(slots, wc) == slots,
{
}

/// Cancelling a request right after registering it, as a failed post
/// does, leaves the outstanding requests as they were.
pub proof fn lemma_cancel_undoes_register(slots: Map<usize, WakerState>, key: usize)
    requires
        !slots.contains_key(key),
    ensures
        slots.insert(key, fresh_slot()).remove(key) =~= slots,
{
}

/// Looking at one request's slot touches no other request.
pub proof fn lemma_poll_touches_only_its_request(
    slots: Map<usize, WakerState>,
    key: usize,
    waker: Waker,
    other: usize,
)
    requires
        slots.contains_key(key),
        other != key,
    ensures
        after_poll(slots, key, waker).1.contains_key(other) == slots.contains_key(other),
        slots.contains_key(other) ==> after_poll(slots, key, waker).1[other] == slots[other],
{
}

/// A look at a request whose completion has not come never answers it,
/// whatever its slot held before: the slot stays, with no completion and
/// the waker of this look, and no other slot changes.
pub proof fn lemma_pending_poll_keeps_its_waker(
    slots: Map<usize, WakerState>,
    key: usize,
    waker: Waker,
)
    requires
        slots.contains_key(key),
        slots[key].result is None,
    ensures
        after_poll(slots, key, waker).0 is None,
        after_poll(slots, key, waker).1.contains_key(key),
        after_poll(slots, key, waker).1[key] == (WakerState { waker: Some(waker), result: None }),
        after_poll(slots, key, waker).1.dom() =~= slots.dom(),
{
}

/// However often the waiting task looks before its completion comes, the
/// completion hands back the waker of its last look, and the next look
/// answers with that completion and frees the slot.
pub proof fn lemma_completion_wakes_the_last_look(
    slots: Map<usize, WakerState>,
    key: usize,
    wc: Completion,
    first_waker: Waker,
    last_waker: Waker,
    answering_waker: Waker,
)
    requires
        slots.contains_key(key),
        slots[key].result is None,
        wc.wr_id == key as u64,
    ensures
        ({
            let once = after_poll(slots, key, first_waker).1;
            let twice = after_poll(once, key, last_waker);
            let completed = after_completion(twice.1, wc);
            let (answer, after) = after_poll(completed, key, answering_waker);
            &&& twice.0 is None
            &&& twice.1[key].waker == Some(last_waker)
            &&& completed[key] == (WakerState { waker: None, result: Some(wc) })
            &&& answer == Some(wc)
            &&& after =~= slots.remove(key)
        }),
{
}

/// What the completion poller does after one wait on the queue.
#[derive(Debug)]
pub enum PollerStep {
    /// The completion was handed over; wake the returned waker, if there
    /// is one, and go on polling.
    Continue(Option<Waker>),
    /// The queue failed: stop polling.
    Stop,
}

/// The outstanding requests of a connection.
pub struct PendingRequests {
    slots: Slab<WakerState>,
}

impl PendingRequests {
    /// The slots of the outstanding requests, by work request id.
    pub closed spec fn view(&self) -> Map<usize, WakerState> {
        slab_slots(self.slots)
    }

    /// No outstanding request.
    pub fn new() -> (p: PendingRequests)
        ensures
            p@ == Map::<usize, WakerState>::empty(),
    {
        PendingRequests { slots: slab_new() }
    }

    /// Registers a request that is about to be posted; the key returned is
    /// its work request id, and no other outstanding request has it.
    pub fn register(&mut self) -> (key: usize)
        ensures
            !old(self)@.contains_key(key),
            final(self)@ == old(self)@.insert(key, fresh_slot()),
    {
        slab_insert(&mut self.slots, WakerState { waker: None, result: None })
    }

    /// Forgets a registered request whose post failed.
    pub fn cancel(&mut self, key: usize)
        requires
            old(self)@.contains_key(key),
        ensures
            final(self)@ == old(self)@.remove(key),
    {
        let _ = slab_remove(&mut self.slots, key);
    }

    /// Whether `key` is the id of an outstanding request.
    pub fn contains(&self, key: usize) -> (b: bool)
        ensures
            b == self@.contains_key(key),
    {
        slab_contains(&self.slots, key)
    }

    /// The waiting task looks at its slot: it gets the completion if it
    /// came, and the slot is freed; otherwise its waker is kept.
    pub fn poll(&mut self, key: usize, waker: Waker) -> (r: Option<WorkCompletion>)
        requires
            old(self)@.contains_key(key),
        ensures
            r matches Some(w) ==> after_poll(old(self)@, key, waker).0 == Some(w.wc),
            r is None ==> after_poll(old(self)@, key, waker).0 is None,
            final(self)@ == after_poll(old(self)@, key, waker).1,
            old(self)@[key].result is None ==> r is None && final(self)@ == old(self)@.insert(
                key,
                WakerState { waker: Some(waker), result: None },
            ),
            old(self)@[key].result matches Some(wc) ==> r == Some(WorkCompletion { wc })
                && final(self)@ == old(self)@.remove(key),
    {
        let prev = slab_replace(&mut self.slots, key, WakerState { waker: None, result: None });
        match prev.result {
            Some(wc) => {
                let _ = slab_remove(&mut self.slots, key);
                Some(WorkCompletion { wc })
            },
            None => {
                let _ = slab_replace(
                    &mut self.slots,
                    key,
                    WakerState { waker: Some(waker), result: None },
                );
                None
            },
        }
    }

    /// The poller hands over a completion: it is stored in the slot of the
    /// request with its id, and the waker kept there, if any, is returned
    /// to be woken. A completion with an unknown id changes nothing.
    pub fn complete(&mut self, wc: Completion) -> (w: Option<Waker>)
        ensures
            final(self)@ == after_completion(old(self)@, wc),
            old(self)@.contains_key(wc.wr_id as usize) ==> w == old(self)@[wc.wr_id as usize].waker,
            !old(self)@.contains_key(wc.wr_id as usize) ==> w is None,
            old(self)@.contains_key(wc.wr_id as usize) ==> final(self)@ == old(self)@.insert(
                wc.wr_id as usize,
                WakerState { waker: None, result: Some(wc) },
            ),
            !old(self)@.contains_key(wc.wr_id as usize) ==> final(self)@ == old(self)@,
    {
        let key: usize = wc.wr_id as usize;
        if slab_contains(&self.slots, key) {
            let prev = slab_replace(&mut self.slots, key, WakerState { waker: None, result: Some(wc) });
            prev.waker
        } else {
            None
        }
    }

    /// The poller's step after waiting on the completion queue: a
    /// completion is handed over, a failed wait ends the poller.
    pub fn on_polled(&mut self, polled: Result<Completion>) -> (s: PollerStep)
        ensures
            polled is Err ==> s is Stop && final(self)@ == old(self)@,
            polled matches Ok(wc) ==> final(self)@ == after_completion(old(self)@, wc) && (
            s matches PollerStep::Continue(w) && (old(self)@.contains_key(wc.wr_id as usize)
                ==> w == old(self)@[wc.wr_id as usize].waker) && (!old(self)@.contains_key(
                wc.wr_id as usize,
            ) ==> w is None)),
    {
        match polled {
            Ok(wc) => PollerStep::Continue(self.complete(wc)),
            Err(_) => PollerStep::Stop,
        }
    }
}

} // verus!
