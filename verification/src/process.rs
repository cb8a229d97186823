//! The process-group lifecycle guard: at most one pipeline instance per
//! project. The liveness of a recorded process group is probed by the
//! caller (a no-op signal); the decisions here say, for every probe
//! outcome, how the record changes and what must be done to the group.

use vstd::prelude::*;

use crate::errors::Error;
use crate::state::State;
use crate::state::StateView;

verus! {

/// What an explicit stop must do to the recorded process group.
#[derive(Clone, Copy, Debug, PartialEq, Eq, Structural)]
pub enum StopAction {
    /// No owner was recorded: nothing to do.
    NothingRunning,
    /// The recorded group is alive: terminate the whole group.
    SignaledGroup { pgid: u32 },
    /// The recorded group is dead: the record was stale and is cleared.
    ClearedStale { pgid: u32 },
}

/// Claiming ownership records the new process group and changes nothing
/// else.
pub open spec fn spec_acquire(s: StateView, new_pgid: u32) -> StateView {
    StateView { process_group_id: Some(new_pgid), ..s }
}

/// Releasing ownership clears the record and changes nothing else.
pub open spec fn spec_release(s: StateView) -> StateView {
    StateView { process_group_id: None, ..s }
}

/// The start gate of the lifecycle guard. `owner_alive` is the liveness
/// probe's finding on the recorded group (irrelevant when none is
/// recorded). A live owner refuses the start and mutates nothing; a
/// stale or absent owner is overwritten by the new group id.
pub fn try_acquire_lock(state: &mut State, owner_alive: bool, new_pgid: u32) -> (r: Result<
    (),
    Error,
>)
    ensures
        match old(state)@.process_group_id {
            Some(p) => {
                if owner_alive {
                    &&& r == Err::<(), Error>((Error::LockContention { pgid: p }))
                    &&& final(state)@ == old(state)@
                } else {
                    &&& r is Ok
                    &&& final(state)@ == spec_acquire(old(state)@, new_pgid)
                }
            },
            None => r is Ok && final(state)@ == spec_acquire(old(state)@, new_pgid),
        },
{
    let contended = match &state.process_group_id {
        Some(p) => {
            if owner_alive {
                Some(*p)
            } else {
                None
            }
        },
        None => None,
    };
    match contended {
        Some(p) => Err(Error::LockContention { pgid: p }),
        None => {
            state.process_group_id = Some(new_pgid);
            Ok(())
        },
    }
}

/// Releases ownership: the record no longer names an owner. Used on
/// normal exit and by the last-resort abnormal-termination hook.
pub fn release_lock(state: &mut State)
    ensures
        final(state)@ == spec_release(old(state)@),
{
    state.process_group_id = None;
}

/// The explicit stop operation. With no owner recorded it is a no-op;
/// with one recorded, the record is cleared either way, and the caller
/// must terminate the whole group exactly when the probe found it alive.
pub fn stop_transition(state: &mut State, owner_alive: bool) -> (r: StopAction)
    ensures
        match old(state)@.process_group_id {
            None => r == StopAction::NothingRunning && final(state)@ == old(state)@,
            Some(p) => {
                &&& final(state)@ == spec_release(old(state)@)
                &&& r == if owner_alive {
                    (StopAction::SignaledGroup { pgid: p })
                } else {
                    (StopAction::ClearedStale { pgid: p })
                }
            },
        },
{
    let recorded = match &state.process_group_id {
        Some(p) => Some(*p),
        None => None,
    };
    match recorded {
        None => StopAction::NothingRunning,
        Some(p) => {
            state.process_group_id = None;
            if owner_alive {
                StopAction::SignaledGroup { pgid: p }
            } else {
                StopAction::ClearedStale { pgid: p }
            }
        },
    }
}

} // verus!
