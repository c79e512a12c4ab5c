//! The task hub: one shared flag, changed only by compare-and-swap,
//! grants at most one outstanding permit to run a long task.

use std::sync::atomic::AtomicBool;
use std::sync::atomic::Ordering;
use std::sync::Arc;
use vstd::prelude::*;

verus! {

/// The permit that a successful acquire hands out. It releases the slot once:
/// through `finish`, or, when dropped unresolved, through its cleanup.
pub struct TaskHandle {
    busy_flag: Arc<AtomicBool>,
    released: bool,
}

impl TaskHandle {
    /// Whether this permit has released its slot already.
    pub closed spec fn is_released(&self) -> bool {
        self.released
    }

    pub fn new(busy_flag: Arc<AtomicBool>) -> (r: TaskHandle)
        ensures
            !r.is_released(),
    {
        TaskHandle { busy_flag, released: false }
    }

    /// Releases the slot, the first time only. Returns `false` when this permit
    /// had released it before, without touching the flag, or when the flag was
    /// found free.
    pub fn finish(&mut self) -> (released: bool)
        ensures
            final(self).is_released(),
            old(self).is_released() ==> !released,
        opens_invariants none
        no_unwind
    {
        if self.released {
            return false;
        }
        self.released = true;
        let observed = compare_exchange(&self.busy_flag, true, false);
        match observed {
            Ok(_) => true,
            Err(_) => false,
        }
    }
}

impl Drop for TaskHandle {
    /// A permit dropped unresolved releases its slot.
    fn drop(&mut self)
        opens_invariants none
        no_unwind
    {
        if !self.released {
            self.finish();
        }
    }
}

/// The hub's error: the slot is taken.
#[derive(Clone, Copy, Debug, PartialEq, Eq, Structural)]
pub enum TaskHubError {
    Busy,
}

impl TaskHubError {
    /// The text that a client is sent for this error.
    pub fn message(&self) -> (r: String)
        ensures
            r@ == "The task hub is busy now"@,
    {
        String::from_str("The task hub is busy now")
    }
}

/// The flag's value that a compare-and-swap found.
pub open spec fn found(r: Result<bool, bool>) -> bool {
    match r {
        Ok(v) => v,
        Err(v) => v,
    }
}

/// Relies on `AtomicBool::compare_exchange`: it writes `new` only when the flag
/// holds `current`, and returns the value it found, as `Ok` when it wrote and as
/// `Err` when it did not; that is `cas` on the value found. It panics only for a
/// failure ordering of `Release` or `AcqRel`, and `Acquire` is used here.
#[verifier::external_body]
fn compare_exchange(flag: &AtomicBool, current: bool, new: bool) -> (r: Result<bool, bool>)
    ensures
        r == cas(found(r), current, new).0,
    opens_invariants none
    no_unwind
{
    flag.compare_exchange(current, new, Ordering::AcqRel, Ordering::Acquire)
}

/// Hands out permits for the single task slot.
pub struct TaskHub {
    busy_flag: Arc<AtomicBool>,
}

impl TaskHub {
    pub fn new() -> (r: TaskHub) {
        TaskHub { busy_flag: Arc::new(AtomicBool::new(false)) }
    }

    /// Tries to take the slot. Busy, without any other effect, when it is taken.
    fn create_handle(&self) -> (r: Result<TaskHandle, TaskHubError>)
        ensures
            r matches Err(e) ==> e == TaskHubError::Busy,
    {
        let observed = compare_exchange(&self.busy_flag, false, true);
        match observed {
            Ok(_) => Ok(TaskHandle::new(self.busy_flag.clone())),
            Err(_) => Err(TaskHubError::Busy),
        }
    }

    /// Runs `f` with a fresh permit and `arg` when the slot is free; otherwise
    /// hands `arg` back with the error, so that its origin can still be answered.
    pub fn exclusively_exec<FN, ARG, T>(&self, f: FN, arg: ARG) -> (r: Result<
        T,
        (TaskHubError, ARG),
    >) where FN: Fn(TaskHandle, ARG) -> T
        requires
            forall|h: TaskHandle| f.requires((h, arg)),
        ensures
            r matches Ok(t) ==> exists|h: TaskHandle| f.ensures((h, arg), t),
            r matches Err((e, a)) ==> e == TaskHubError::Busy && a == arg,
    {
        let acquired = self.create_handle();
        if let Ok(handle) = acquired {
            let ghost h = handle;
            let t = f(handle, arg);
            assert(f.ensures((h, arg), t));
            let r = Ok(t);
            assert(r->Ok_0 == t);
            r
        } else {
            Err((TaskHubError::Busy, arg))
        }
    }
}

/// What a compare-and-swap of the flag from `current` to `new` returns when the
/// flag holds `flag`, and what the flag holds afterwards.
pub open spec fn cas(flag: bool, current: bool, new: bool) -> (Result<bool, bool>, bool) {
    if flag == current {
        (Ok(flag), new)
    } else {
        (Err(flag), flag)
    }
}

/// An operation on the task slot.
pub enum SlotOp {
    Acquire,
    Release,
}

/// One operation on a flag that holds `flag`: whether it took effect, and the
/// flag afterwards.
pub open spec fn slot_step(flag: bool, op: SlotOp) -> (bool, bool) {
    let (res, next) = match op {
        SlotOp::Acquire => cas(flag, false, true),
        SlotOp::Release => cas(flag, true, false),
    };
    (res is Ok, next)
}

/// The flag after `ops`, run in order from `flag`.
pub open spec fn slot_run(flag: bool, ops: Seq<SlotOp>) -> bool
    decreases ops.len(),
{
    if ops.len() == 0 {
        flag
    } else {
        slot_step(slot_run(flag, ops.drop_last()), ops.last()).1
    }
}

/// How many of `ops`, run in order from `flag`, took effect as `op`.
pub open spec fn granted(flag: bool, ops: Seq<SlotOp>, op: SlotOp) -> int
    decreases ops.len(),
{
    if ops.len() == 0 {
        0
    } else {
        let prev = slot_run(flag, ops.drop_last());
        let took = slot_step(prev, ops.last()).0 && ops.last() == op;
        granted(flag, ops.drop_last(), op) + if took {
            1int
        } else {
            0int
        }
    }
}

/// Mutual exclusion, of the model `slot_run` of the flag (not of a `TaskHub`,
/// whose shared flag no contract here can follow): from a free slot, whatever
/// the order of acquires and releases, the acquires that succeeded exceed the
/// releases that succeeded by one exactly while the slot is taken, and by none
/// while it is free. So in the model no second acquire succeeds until a release
/// does.
pub proof fn lemma_mutual_exclusion(ops: Seq<SlotOp>)
    ensures
        granted(false, ops, SlotOp::Acquire) - granted(false, ops, SlotOp::Release) == if slot_run(
            false,
            ops,
        ) {
            1int
        } else {
            0int
        },
    decreases ops.len(),
{
    if ops.len() > 0 {
        lemma_mutual_exclusion(ops.drop_last());
    }
}

/// Of the model `slot_run` of the flag (not of a `TaskHub`): while the slot is
/// taken an acquire fails and changes nothing; once it is released the next
/// acquire succeeds, so in the model the slot never locks for good.
pub proof fn lemma_acquire_after_release(ops: Seq<SlotOp>)
    ensures
        slot_run(false, ops) ==> slot_step(slot_run(false, ops), SlotOp::Acquire) == (
            false,
            true,
        ),
        slot_step(slot_run(false, ops.push(SlotOp::Release)), SlotOp::Acquire) == (true, true),
{
    assert(ops.push(SlotOp::Release).drop_last() =~= ops);
}

} // verus!
