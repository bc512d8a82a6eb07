//! The lifecycle state machine and the authorization policy, as pure
//! functions: the full transition table and the two-branch authorizer
//! choice can be exercised without any storage or value movement.

use vstd::prelude::*;

use crate::types::Address;
use crate::types::Error;
use crate::types::StreamStatus;

verus! {

/// An operation attempted against a stream's lifecycle state.
#[derive(Clone, Copy, Debug, PartialEq, Eq, Structural)]
pub enum StreamEvent {
    Pause,
    Resume,
    Cancel,
    Withdraw,
}

/// The transition table: the status a stream moves to when `event` is
/// applied in `current`, or `InvalidState` where the table has no edge.
/// Withdrawal neither needs nor causes a status change by itself (the
/// promotion to `Completed` on full vesting is a separate, time-guarded
/// step), but it is only legal while `Active` or — for the residual
/// accrued remainder — after `Cancelled`.
pub open spec fn spec_next_status(current: StreamStatus, event: StreamEvent) -> Result<
    StreamStatus,
    Error,
> {
    match event {
        StreamEvent::Pause => match current {
            StreamStatus::Active => Ok(StreamStatus::Paused),
            _ => Err(Error::InvalidState),
        },
        StreamEvent::Resume => match current {
            StreamStatus::Paused => Ok(StreamStatus::Active),
            _ => Err(Error::InvalidState),
        },
        StreamEvent::Cancel => match current {
            StreamStatus::Active => Ok(StreamStatus::Cancelled),
            StreamStatus::Paused => Ok(StreamStatus::Cancelled),
            _ => Err(Error::InvalidState),
        },
        StreamEvent::Withdraw => match current {
            StreamStatus::Active => Ok(StreamStatus::Active),
            StreamStatus::Cancelled => Ok(StreamStatus::Cancelled),
            _ => Err(Error::InvalidState),
        },
    }
}

/// Applies the transition table to one status and one event.
pub fn next_status(current: StreamStatus, event: StreamEvent) -> (r: Result<
    StreamStatus,
    Error,
>)
    ensures
        r == spec_next_status(current, event),
{
    match event {
        StreamEvent::Pause => match current {
            StreamStatus::Active => Ok(StreamStatus::Paused),
            _ => Err(Error::InvalidState),
        },
        StreamEvent::Resume => match current {
            StreamStatus::Paused => Ok(StreamStatus::Active),
            _ => Err(Error::InvalidState),
        },
        StreamEvent::Cancel => match current {
            StreamStatus::Active => Ok(StreamStatus::Cancelled),
            StreamStatus::Paused => Ok(StreamStatus::Cancelled),
            _ => Err(Error::InvalidState),
        },
        StreamEvent::Withdraw => match current {
            StreamStatus::Active => Ok(StreamStatus::Active),
            StreamStatus::Cancelled => Ok(StreamStatus::Cancelled),
            _ => Err(Error::InvalidState),
        },
    }
}

/// A caller is authorized for the sender-or-administrator operations
/// (pause, resume, cancel) exactly when it is one of the two.
pub open spec fn spec_authorized(caller: Address, sender: Address, admin: Address) -> bool {
    caller == sender || caller == admin
}

/// The two-branch authorization policy: which identity must be
/// authenticated for a sender-or-administrator operation. A caller
/// claiming to be the administrator must prove control of the
/// administrator identity; any other caller must prove control of the
/// stream's sender.
pub fn resolve_authorizer(sender: Address, admin: Address, caller: Address) -> (who: Address)
    ensures
        who == (if caller == admin {
            admin
        } else {
            sender
        }),
{
    if caller == admin {
        admin
    } else {
        sender
    }
}

} // verus!
