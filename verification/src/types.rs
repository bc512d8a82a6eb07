//! Core data types: identities, the stream record, configuration, the
//! storage key space, and the error taxonomy.

use vstd::prelude::*;

verus! {

/// An identity handle: an opaque address standing for one party (a sender,
/// a recipient, the administrator, or the custody account itself).
#[derive(Clone, Copy, Debug, PartialEq, Eq, Structural)]
pub struct Address {
    pub handle: u64,
}

/// Why an operation was refused. Every failure aborts the whole operation
/// with no observable state change.
#[derive(Clone, Copy, Debug, PartialEq, Eq, Structural)]
pub enum Error {
    AlreadyInitialized,
    NotInitialized,
    Unauthorized,
    StreamNotFound,
    InvalidState,
    InvalidParams,
    InsufficientBalance,
    NothingToWithdraw,
    ArithmeticOverflow,
}

/// The singleton configuration: the custody/value-transfer target and the
/// administrative identity. Written exactly once, read-only afterwards.
#[derive(Clone, Copy, Debug, PartialEq, Eq, Structural)]
pub struct Config {
    pub token: Address,
    pub admin: Address,
}

/// The lifecycle state of a stream. `Active` is the initial state; the
/// terminal states are `Completed` and `Cancelled`.
#[derive(Clone, Copy, Debug, PartialEq, Eq, Structural)]
pub enum StreamStatus {
    Active,
    Paused,
    Completed,
    Cancelled,
}

/// The sole persistent entity: a single linear-vesting payment schedule
/// from one sender to one recipient.
#[derive(Clone, Copy, Debug, PartialEq, Eq, Structural)]
pub struct Stream {
    pub stream_id: u64,
    pub sender: Address,
    pub recipient: Address,
    pub deposit_amount: i128,
    pub rate_per_second: i128,
    pub start_time: u64,
    pub cliff_time: u64,
    pub end_time: u64,
    pub withdrawn_amount: i128,
    pub status: StreamStatus,
}

/// The conceptual key space of the registry's durable store.
#[derive(Clone, Copy, Debug, PartialEq, Eq, Structural)]
pub enum DataKey {
    Config,
    NextStreamId,
    Stream(u64),
}

/// The record invariant, established at creation and preserved by every
/// mutation: positive immutable deposit and rate, ordered timestamps with a
/// strictly positive duration, a withdrawn amount within `[0, deposit]`,
/// and a deposit that covers the full linear vesting schedule.
pub open spec fn valid_stream(s: Stream) -> bool {
    &&& s.deposit_amount > 0
    &&& s.rate_per_second > 0
    &&& s.start_time <= s.cliff_time
    &&& s.cliff_time <= s.end_time
    &&& s.start_time < s.end_time
    &&& 0 <= s.withdrawn_amount
    &&& s.withdrawn_amount <= s.deposit_amount
    &&& s.rate_per_second as int * (s.end_time as int - s.start_time as int)
        <= s.deposit_amount as int
}

} // verus!
