//! Correlation of outstanding native calls with their one-shot completion actions.
use vstd::prelude::*;
use std::collections::HashMap;

verus! {

broadcast use vstd::std_specs::hash::group_hash_axioms;

/// A fault in the correlation of calls and completions.
#[derive(Clone, Copy, Debug, PartialEq, Eq, Structural)]
pub enum BridgeError {
    /// The handle is already waiting for a completion.
    AlreadyRegistered,
    /// No call is waiting under the handle: it was never issued, or it has
    /// already been completed.
    UnknownHandle,
    /// Every correlation handle has been issued.
    HandlesExhausted,
}

/// Issues correlation handles: 1, 2, 3, ... each one once.
pub struct HandleAllocator {
    last: i32,
}

impl View for HandleAllocator {
    /// The last handle issued, 0 before the first.
    type V = int;

    closed spec fn view(&self) -> int {
        self.last as int
    }
}

impl HandleAllocator {
    pub closed spec fn wf(&self) -> bool {
        self.last >= 0
    }

    pub fn new() -> (r: HandleAllocator)
        ensures
            r.wf(),
            r@ == 0,
    {
        HandleAllocator { last: 0 }
    }

    /// A handle never issued before by this allocator; `None` once they are all used.
    pub fn next_id(&mut self) -> (r: Option<i32>)
        requires
            old(self).wf(),
        ensures
            final(self).wf(),
            old(self)@ < i32::MAX ==> r == Some((old(self)@ + 1) as i32) && final(self)@ == old(
                self,
            )@ + 1,
            old(self)@ >= i32::MAX ==> r is None && final(self)@ == old(self)@,
            r matches Some(h) ==> 0 < h && h > old(self)@,
    {
        if self.last == i32::MAX {
            None
        } else {
            self.last = self.last + 1;
            Some(self.last)
        }
    }
}

/// Pending calls, each a handle with the action that delivers its one result.
pub struct Registry<A> {
    ids: HandleAllocator,
    pending: HashMap<i32, A>,
}

impl<A> Registry<A> {
    /// The pending actions by handle.
    pub closed spec fn pending(&self) -> Map<i32, A> {
        self.pending@
    }

    /// The last handle issued by `issue`.
    pub closed spec fn last_issued(&self) -> int {
        self.ids@
    }

    pub closed spec fn wf(&self) -> bool {
        self.ids.wf()
    }

    pub fn new() -> (r: Registry<A>)
        ensures
            r.wf(),
            r.pending() == Map::<i32, A>::empty(),
            r.last_issued() == 0,
    {
        Registry { ids: HandleAllocator::new(), pending: HashMap::new() }
    }

    /// Whether a call is waiting under `handle`.
    pub fn is_pending(&self, handle: i32) -> (r: bool)
        ensures
            r == self.pending().contains_key(handle),
    {
        self.pending.contains_key(&handle)
    }

    /// Stores `action` under `handle`, unless a call already waits there.
    pub fn register(&mut self, handle: i32, action: A) -> (r: Result<(), BridgeError>)
        requires
            old(self).wf(),
        ensures
            final(self).wf(),
            final(self).last_issued() == old(self).last_issued(),
            old(self).pending().contains_key(handle) ==> r == Err::<(), BridgeError>(
                BridgeError::AlreadyRegistered,
            ) && final(self).pending() == old(self).pending(),
            !old(self).pending().contains_key(handle) ==> r is Ok && final(self).pending() == old(
                self,
            ).pending().insert(handle, action),
    {
        if self.pending.contains_key(&handle) {
            Err(BridgeError::AlreadyRegistered)
        } else {
            self.pending.insert(handle, action);
            Ok(())
        }
    }

    /// Issues the next handle and stores `action` under it. Handles grow with
    /// every call, so one table serves every kind of call in the process; a
    /// handle that `register` already took is refused, and not issued again.
    pub fn issue(&mut self, action: A) -> (r: Result<i32, BridgeError>)
        requires
            old(self).wf(),
        ensures
            final(self).wf(),
            old(self).last_issued() >= i32::MAX ==> r == Err::<i32, BridgeError>(
                BridgeError::HandlesExhausted,
            ) && final(self).pending() == old(self).pending()
                && final(self).last_issued() == old(self).last_issued(),
            old(self).last_issued() < i32::MAX ==> final(self).last_issued()
                == old(self).last_issued() + 1,
            old(self).last_issued() < i32::MAX && !old(self).pending().contains_key(
                (old(self).last_issued() + 1) as i32,
            ) ==> r == Ok::<i32, BridgeError>((old(self).last_issued() + 1) as i32)
                && final(self).pending() == old(self).pending().insert(
                (old(self).last_issued() + 1) as i32,
                action,
            ),
            old(self).last_issued() < i32::MAX && old(self).pending().contains_key(
                (old(self).last_issued() + 1) as i32,
            ) ==> r == Err::<i32, BridgeError>(BridgeError::AlreadyRegistered)
                && final(self).pending() == old(self).pending(),
    {
        match self.ids.next_id() {
            None => Err(BridgeError::HandlesExhausted),
            Some(h) => {
                if self.pending.contains_key(&h) {
                    Err(BridgeError::AlreadyRegistered)
                } else {
                    self.pending.insert(h, action);
                    Ok(h)
                }
            },
        }
    }

    /// Removes the action waiting under `handle` and hands it out, to be run
    /// once with the call's result. A handle that nothing waits under is a fault.
    pub fn complete(&mut self, handle: i32) -> (r: Result<A, BridgeError>)
        requires
            old(self).wf(),
        ensures
            final(self).wf(),
            final(self).last_issued() == old(self).last_issued(),
            old(self).pending().contains_key(handle) ==> r == Ok::<A, BridgeError>(
                old(self).pending()[handle],
            ) && final(self).pending() == old(self).pending().remove(handle),
            !old(self).pending().contains_key(handle) ==> r == Err::<A, BridgeError>(
                BridgeError::UnknownHandle,
            ) && final(self).pending() == old(self).pending(),
    {
        match self.pending.remove(&handle) {
            Some(a) => Ok(a),
            None => Err(BridgeError::UnknownHandle),
        }
    }
}

/// Registering an action under a free handle and then completing that handle
/// hands back exactly that action, and leaves the table as it was before.
pub proof fn lemma_register_then_complete<A>(pending: Map<i32, A>, h: i32, action: A)
    requires
        !pending.contains_key(h),
    ensures
        pending.insert(h, action).contains_key(h),
        pending.insert(h, action)[h] == action,
        pending.insert(h, action).remove(h) == pending,
{
    assert(pending.insert(h, action).remove(h) =~= pending);
}

/// Once a handle has been completed nothing waits under it any more, so a
/// second completion of it is refused.
pub proof fn lemma_second_completion_refused<A>(pending: Map<i32, A>, h: i32)
    ensures
        !pending.remove(h).contains_key(h),
{
}

/// Completing one call leaves every other pending call, with its own action,
/// in place: completions in any order reach their own callers.
pub proof fn lemma_completion_keeps_others<A>(pending: Map<i32, A>, done: i32, other: i32)
    requires
        pending.contains_key(other),
        done != other,
    ensures
        pending.remove(done).contains_key(other),
        pending.remove(done)[other] == pending[other],
{
}

/// The table left after completing the handles of `done`, in that order.
pub open spec fn after_completions<A>(pending: Map<i32, A>, done: Seq<i32>) -> Map<i32, A>
    decreases done.len(),
{
    if done.len() == 0 {
        pending
    } else {
        after_completions(pending, done.drop_last()).remove(done.last())
    }
}

/// Whatever number of other calls complete, in whatever order, a pending call
/// keeps its own action: no completion reaches another caller.
pub proof fn lemma_completions_keep_others<A>(pending: Map<i32, A>, done: Seq<i32>, h: i32)
    requires
        pending.contains_key(h),
        !done.contains(h),
    ensures
        after_completions(pending, done).contains_key(h),
        after_completions(pending, done)[h] == pending[h],
    decreases done.len(),
{
    if done.len() > 0 {
        assert(!done.drop_last().contains(h)) by {
            if done.drop_last().contains(h) {
                let i = choose|i: int| 0 <= i < done.drop_last().len() && done.drop_last()[i] == h;
                assert(done[i] == h);
            }
        }
        assert(done.last() != h) by {
            assert(done[done.len() - 1] == done.last());
        }
        lemma_completions_keep_others(pending, done.drop_last(), h);
    }
}

/// Handles issued one after another, each one past the last, are pairwise distinct.
pub proof fn lemma_issued_handles_distinct(handles: Seq<i32>, last: int)
    requires
        forall|i: int| 0 <= i < handles.len() ==> #[trigger] handles[i] == last + i + 1,
    ensures
        forall|i: int, j: int|
            0 <= i < handles.len() && 0 <= j < handles.len() && i != j ==> #[trigger] handles[i]
                != #[trigger] handles[j],
{
}

} // verus!
