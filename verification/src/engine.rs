//! The stream lifecycle engine: every public operation authenticates its
//! caller, loads the addressed record from the registry, validates the
//! state and parameter invariants, computes any required accrual, moves
//! value through the token ledger, and re-saves the record. Every failure
//! aborts the whole operation with no observable state change — value
//! always moves before state is mutated, never after.
//!
//! The host supplies the authenticated caller and the current timestamp as
//! explicit arguments; the token ledger is the dependency-injected value
//! transfer collaborator.

use vstd::prelude::*;

use crate::accrual::accrued_amount;
use crate::accrual::accrued_spec;
use crate::registry::Registry;
use crate::token::spec_moved;
use crate::token::TokenLedger;
use crate::transition::next_status;
use crate::transition::resolve_authorizer;
use crate::transition::spec_authorized;
use crate::transition::spec_next_status;
use crate::transition::StreamEvent;
use crate::types::valid_stream;
use crate::types::Address;
use crate::types::Config;
use crate::types::DataKey;
use crate::types::Error;
use crate::types::Stream;
use crate::types::StreamStatus;

verus! {

/// The record as it is after its status flipped to `st`.
pub open spec fn spec_with_status(s: Stream, st: StreamStatus) -> Stream {
    Stream { status: st, ..s }
}

/// The payment-streaming engine: the lifecycle state machine over the
/// records owned by its registry.
pub struct FluxoraStream {
    registry: Registry,
}

impl FluxoraStream {
    /// The configuration record, if `init` has run.
    pub closed spec fn spec_config(self) -> Option<Config> {
        self.registry.spec_config()
    }

    /// The stored stream records, in order of creation.
    pub closed spec fn spec_streams(self) -> Seq<Stream> {
        self.registry.spec_streams()
    }

    /// The identifier the next created stream receives.
    pub closed spec fn spec_stream_count(self) -> u64 {
        self.registry.spec_stream_count()
    }

    /// Well-formedness, which holds of a fresh engine and is preserved by
    /// every operation: identifiers are allocated consecutively so record
    /// `i` sits at position `i`, the counter equals the number of records,
    /// every record satisfies the stream invariant, and records exist only
    /// after the configuration was written.
    pub open spec fn wf(self) -> bool {
        &&& self.spec_stream_count() as int == self.spec_streams().len()
        &&& forall|i: int|
            0 <= i < self.spec_streams().len() ==> (#[trigger] self.spec_streams()[i]).stream_id
                as int == i
        &&& forall|i: int|
            0 <= i < self.spec_streams().len() ==> valid_stream(
                #[trigger] self.spec_streams()[i],
            )
        &&& self.spec_streams().len() > 0 ==> self.spec_config() is Some
    }

    /// A fresh engine: no configuration, no streams, counter at zero.
    pub fn new() -> (r: FluxoraStream)
        ensures
            r.wf(),
            r.spec_config() is None,
            r.spec_streams() == Seq::<Stream>::empty(),
            r.spec_stream_count() == 0,
    {
        FluxoraStream { registry: Registry::new() }
    }

    /// Writes the configuration — the custody token target and the
    /// administrative identity — exactly once; a second call is refused
    /// with `AlreadyInitialized` and changes nothing.
    pub fn init(&mut self, token: Address, admin: Address) -> (r: Result<(), Error>)
        requires
            old(self).wf(),
        ensures
            final(self).wf(),
            final(self).spec_streams() == old(self).spec_streams(),
            final(self).spec_stream_count() == old(self).spec_stream_count(),
            (match r {
                Ok(()) => {
                    &&& old(self).spec_config() is None
                    &&& final(self).spec_config() == Some(Config { token, admin })
                },
                Err(e) => {
                    &&& e == Error::AlreadyInitialized
                    &&& old(self).spec_config() is Some
                    &&& final(self).spec_config() == old(self).spec_config()
                },
            }),
    {
        if self.registry.has(&DataKey::Config) {
            return Err(Error::AlreadyInitialized);
        }
        match self.registry.set_config(Config { token, admin }) {
            Ok(()) => {},
            Err(e) => {
                return Err(e);
            },
        }
        self.registry.set_stream_count(0);
        Ok(())
    }

    /// The configuration; fails with `NotInitialized` while unset.
    pub fn get_config(&self) -> (r: Result<Config, Error>)
        ensures
            (match r {
                Ok(cfg) => self.spec_config() == Some(cfg),
                Err(e) => self.spec_config() is None && e == Error::NotInitialized,
            }),
    {
        self.registry.get_config()
    }

    /// The full record of one stream; fails with `StreamNotFound` for an
    /// unknown identifier.
    pub fn get_stream_state(&self, stream_id: u64) -> (r: Result<Stream, Error>)
        ensures
            (match r {
                Ok(s) => (stream_id as int) < self.spec_streams().len() && s
                    == self.spec_streams()[stream_id as int],
                Err(e) => (stream_id as int) >= self.spec_streams().len() && e
                    == Error::StreamNotFound,
            }),
    {
        self.registry.load_stream(stream_id)
    }

    /// Authenticates a caller for the sender-or-administrator operations:
    /// resolves which identity must prove control, then checks the caller
    /// is that identity.
    pub fn require_sender_or_admin(&self, caller: Address, sender: Address) -> (r: Result<
        (),
        Error,
    >)
        ensures
            (match r {
                Ok(()) => self.spec_config() is Some && spec_authorized(
                    caller,
                    sender,
                    self.spec_config().unwrap().admin,
                ),
                Err(e) => match self.spec_config() {
                    None => e == Error::NotInitialized,
                    Some(cfg) => e == Error::Unauthorized && !spec_authorized(
                        caller,
                        sender,
                        cfg.admin,
                    ),
                },
            }),
    {
        let admin = match self.registry.get_admin() {
            Ok(a) => a,
            Err(e) => {
                return Err(e);
            },
        };
        let who = resolve_authorizer(sender, admin, caller);
        if caller == who {
            Ok(())
        } else {
            Err(Error::Unauthorized)
        }
    }

    /// Pauses an active stream on behalf of its sender or the
    /// administrator; accrual continues while paused, only withdrawal is
    /// blocked.
    pub fn pause_stream(&mut self, caller: Address, stream_id: u64) -> (r: Result<(), Error>)
        requires
            old(self).wf(),
        ensures
            final(self).wf(),
            final(self).spec_config() == old(self).spec_config(),
            final(self).spec_stream_count() == old(self).spec_stream_count(),
            withdrawn_monotonic(*old(self), *final(self)),
            (match r {
                Ok(()) => {
                    &&& spec_gate_err(*old(self), caller, stream_id, StreamEvent::Pause)
                        is None
                    &&& final(self).spec_streams() == old(self).spec_streams().update(
                        stream_id as int,
                        spec_with_status(
                            old(self).spec_streams()[stream_id as int],
                            StreamStatus::Paused,
                        ),
                    )
                },
                Err(e) => {
                    &&& spec_gate_err(*old(self), caller, stream_id, StreamEvent::Pause)
                        == Some(e)
                    &&& final(self).spec_streams() == old(self).spec_streams()
                },
            }),
    {
        self.apply_status_event(caller, stream_id, StreamEvent::Pause)
    }

    /// Resumes a paused stream on behalf of its sender or the
    /// administrator.
    pub fn resume_stream(&mut self, caller: Address, stream_id: u64) -> (r: Result<(), Error>)
        requires
            old(self).wf(),
        ensures
            final(self).wf(),
            final(self).spec_config() == old(self).spec_config(),
            final(self).spec_stream_count() == old(self).spec_stream_count(),
            withdrawn_monotonic(*old(self), *final(self)),
            (match r {
                Ok(()) => {
                    &&& spec_gate_err(*old(self), caller, stream_id, StreamEvent::Resume)
                        is None
                    &&& final(self).spec_streams() == old(self).spec_streams().update(
                        stream_id as int,
                        spec_with_status(
                            old(self).spec_streams()[stream_id as int],
                            StreamStatus::Active,
                        ),
                    )
                },
                Err(e) => {
                    &&& spec_gate_err(*old(self), caller, stream_id, StreamEvent::Resume)
                        == Some(e)
                    &&& final(self).spec_streams() == old(self).spec_streams()
                },
            }),
    {
        self.apply_status_event(caller, stream_id, StreamEvent::Resume)
    }

    /// Computes the currently accrued amount of a stream: a read-only
    /// operation with no authorization and no side effects, so repeated
    /// calls at the same time against the same state return the same
    /// value.
    pub fn calculate_accrued(&self, stream_id: u64, now: u64) -> (r: Result<i128, Error>)
        requires
            self.wf(),
        ensures
            (match r {
                Ok(v) => (stream_id as int) < self.spec_streams().len() && v as int
                    == accrued_spec(self.spec_streams()[stream_id as int], now),
                Err(e) => (stream_id as int) >= self.spec_streams().len() && e
                    == Error::StreamNotFound,
            }),
    {
        let stream = match self.registry.load_stream(stream_id) {
            Ok(s) => s,
            Err(e) => {
                return Err(e);
            },
        };
        Ok(accrued_amount(&stream, now))
    }

    /// Cancels an active or paused stream on behalf of its sender or the
    /// administrator: the unstreamed remainder `deposit - accrued` flows
    /// back from custody to the sender, and the accrued-but-unwithdrawn
    /// portion remains claimable by the recipient afterwards. The refund
    /// and the accrual at cancel time always account for exactly the whole
    /// deposit.
    pub fn cancel_stream(
        &mut self,
        bank: &mut TokenLedger,
        caller: Address,
        stream_id: u64,
        now: u64,
    ) -> (r: Result<(), Error>)
        requires
            old(self).wf(),
        ensures
            final(self).wf(),
            final(self).spec_config() == old(self).spec_config(),
            final(self).spec_stream_count() == old(self).spec_stream_count(),
            withdrawn_monotonic(*old(self), *final(self)),
            (match r {
                Ok(()) => ({
                    let s = old(self).spec_streams()[stream_id as int];
                    let cfg = old(self).spec_config().unwrap();
                    let refund = s.deposit_amount as int - accrued_spec(s, now);
                    &&& spec_cancel_err(*old(self), *old(bank), caller, stream_id, now)
                        is None
                    &&& refund >= 0
                    &&& refund + accrued_spec(s, now) == s.deposit_amount as int
                    &&& final(self).spec_streams() == old(self).spec_streams().update(
                        stream_id as int,
                        spec_with_status(s, StreamStatus::Cancelled),
                    )
                    &&& forall|a: Address|
                        final(bank).spec_balance(a) == (if refund > 0 {
                            spec_moved(*old(bank), cfg.token, s.sender, refund, a)
                        } else {
                            old(bank).spec_balance(a)
                        })
                }),
                Err(e) => {
                    &&& spec_cancel_err(*old(self), *old(bank), caller, stream_id, now)
                        == Some(e)
                    &&& final(self).spec_streams() == old(self).spec_streams()
                    &&& forall|a: Address|
                        final(bank).spec_balance(a) == old(bank).spec_balance(a)
                },
            }),
    {
        let stream = match self.registry.load_stream(stream_id) {
            Ok(s) => s,
            Err(e) => {
                return Err(e);
            },
        };
        match self.require_sender_or_admin(caller, stream.sender) {
            Ok(()) => {},
            Err(e) => {
                return Err(e);
            },
        }
        let new_status = match next_status(stream.status, StreamEvent::Cancel) {
            Ok(st) => st,
            Err(e) => {
                return Err(e);
            },
        };
        let accrued: i128 = accrued_amount(&stream, now);
        let unstreamed: i128 = stream.deposit_amount - accrued;
        if unstreamed > 0 {
            let token = match self.registry.get_token() {
                Ok(t) => t,
                Err(e) => {
                    return Err(e);
                },
            };
            match bank.transfer(token, stream.sender, unstreamed) {
                Ok(()) => {},
                Err(e) => {
                    return Err(e);
                },
            }
        }
        let updated = Stream { status: new_status, ..stream };
        self.registry.save_stream(&updated);
        Ok(())
    }

    /// Creates a new stream: validates every creation precondition, checks
    /// that the deposit covers the full vesting schedule with an
    /// overflow-checked multiplication, moves the deposit from the sender
    /// into custody before any state is written, then allocates a fresh
    /// identifier and persists the record as `Active` with nothing
    /// withdrawn.
    pub fn create_stream(
        &mut self,
        bank: &mut TokenLedger,
        caller: Address,
        sender: Address,
        recipient: Address,
        deposit_amount: i128,
        rate_per_second: i128,
        start_time: u64,
        cliff_time: u64,
        end_time: u64,
    ) -> (r: Result<u64, Error>)
        requires
            old(self).wf(),
        ensures
            final(self).wf(),
            final(self).spec_config() == old(self).spec_config(),
            withdrawn_monotonic(*old(self), *final(self)),
            (match r {
                Ok(id) => ({
                    let cfg = old(self).spec_config().unwrap();
                    &&& spec_create_err(
                        *old(self),
                        *old(bank),
                        caller,
                        sender,
                        recipient,
                        deposit_amount,
                        rate_per_second,
                        start_time,
                        cliff_time,
                        end_time,
                    ) is None
                    &&& id == old(self).spec_stream_count()
                    &&& final(self).spec_stream_count() == id + 1
                    &&& final(self).spec_streams() == old(self).spec_streams().push(
                        spec_new_stream(
                            id,
                            sender,
                            recipient,
                            deposit_amount,
                            rate_per_second,
                            start_time,
                            cliff_time,
                            end_time,
                        ),
                    )
                    &&& forall|a: Address|
                        final(bank).spec_balance(a) == spec_moved(
                            *old(bank),
                            sender,
                            cfg.token,
                            deposit_amount as int,
                            a,
                        )
                }),
                Err(e) => {
                    &&& spec_create_err(
                        *old(self),
                        *old(bank),
                        caller,
                        sender,
                        recipient,
                        deposit_amount,
                        rate_per_second,
                        start_time,
                        cliff_time,
                        end_time,
                    ) == Some(e)
                    &&& final(self).spec_streams() == old(self).spec_streams()
                    &&& final(self).spec_stream_count() == old(self).spec_stream_count()
                    &&& forall|a: Address|
                        final(bank).spec_balance(a) == old(bank).spec_balance(a)
                },
            }),
    {
        if caller != sender {
            return Err(Error::Unauthorized);
        }
        if deposit_amount <= 0 {
            return Err(Error::InvalidParams);
        }
        if rate_per_second <= 0 {
            return Err(Error::InvalidParams);
        }
        if sender == recipient {
            return Err(Error::InvalidParams);
        }
        if start_time >= end_time {
            return Err(Error::InvalidParams);
        }
        if cliff_time < start_time || cliff_time > end_time {
            return Err(Error::InvalidParams);
        }
        let duration: i128 = (end_time - start_time) as i128;
        proof {
            assert(rate_per_second as int * (duration as int) >= duration as int)
                by (nonlinear_arith)
                requires
                    rate_per_second >= 1,
                    duration as int >= 0,
            ;
        }
        let total_streamable: i128 = match rate_per_second.checked_mul(duration) {
            Some(v) => v,
            None => {
                return Err(Error::ArithmeticOverflow);
            },
        };
        if deposit_amount < total_streamable {
            return Err(Error::InvalidParams);
        }
        let token = match self.registry.get_token() {
            Ok(t) => t,
            Err(e) => {
                return Err(e);
            },
        };
        let stream_id: u64 = self.registry.get_stream_count();
        if stream_id == u64::MAX {
            return Err(Error::ArithmeticOverflow);
        }
        let sender_balance: i128 = bank.balance(sender);
        if sender_balance < deposit_amount {
            return Err(Error::InsufficientBalance);
        }
        match bank.transfer(sender, token, deposit_amount) {
            Ok(()) => {},
            Err(e) => {
                return Err(e);
            },
        }
        self.registry.set_stream_count(stream_id + 1);
        let stream = Stream {
            stream_id,
            sender,
            recipient,
            deposit_amount,
            rate_per_second,
            start_time,
            cliff_time,
            end_time,
            withdrawn_amount: 0,
            status: StreamStatus::Active,
        };
        self.registry.save_stream(&stream);
        Ok(stream_id)
    }

    /// Withdraws everything accrued but not yet withdrawn: only the
    /// recipient may call, only while the stream is `Active` or — for the
    /// residual remainder — after it was `Cancelled`. The amount moves
    /// from custody to the recipient before the record is updated; when
    /// full vesting has been reached and the whole deposit is withdrawn,
    /// the stream advances to `Completed`.
    pub fn withdraw(
        &mut self,
        bank: &mut TokenLedger,
        caller: Address,
        stream_id: u64,
        now: u64,
    ) -> (r: Result<i128, Error>)
        requires
            old(self).wf(),
        ensures
            final(self).wf(),
            final(self).spec_config() == old(self).spec_config(),
            final(self).spec_stream_count() == old(self).spec_stream_count(),
            withdrawn_monotonic(*old(self), *final(self)),
            (match r {
                Ok(amount) => ({
                    let s = old(self).spec_streams()[stream_id as int];
                    let cfg = old(self).spec_config().unwrap();
                    &&& spec_withdraw_err(*old(self), *old(bank), caller, stream_id, now)
                        is None
                    &&& amount as int == accrued_spec(s, now) - s.withdrawn_amount as int
                    &&& amount > 0
                    &&& final(self).spec_streams() == old(self).spec_streams().update(
                        stream_id as int,
                        spec_after_withdraw(s, now),
                    )
                    &&& forall|a: Address|
                        final(bank).spec_balance(a) == spec_moved(
                            *old(bank),
                            cfg.token,
                            s.recipient,
                            amount as int,
                            a,
                        )
                }),
                Err(e) => {
                    &&& spec_withdraw_err(*old(self), *old(bank), caller, stream_id, now)
                        == Some(e)
                    &&& final(self).spec_streams() == old(self).spec_streams()
                    &&& forall|a: Address|
                        final(bank).spec_balance(a) == old(bank).spec_balance(a)
                },
            }),
    {
        let stream = match self.registry.load_stream(stream_id) {
            Ok(s) => s,
            Err(e) => {
                return Err(e);
            },
        };
        if caller != stream.recipient {
            return Err(Error::Unauthorized);
        }
        match next_status(stream.status, StreamEvent::Withdraw) {
            Ok(_) => {},
            Err(e) => {
                return Err(e);
            },
        }
        let accrued: i128 = accrued_amount(&stream, now);
        let withdrawable: i128 = accrued - stream.withdrawn_amount;
        if withdrawable <= 0 {
            return Err(Error::NothingToWithdraw);
        }
        let token = match self.registry.get_token() {
            Ok(t) => t,
            Err(e) => {
                return Err(e);
            },
        };
        match bank.transfer(token, stream.recipient, withdrawable) {
            Ok(()) => {},
            Err(e) => {
                return Err(e);
            },
        }
        let new_withdrawn: i128 = stream.withdrawn_amount + withdrawable;
        let new_status = if stream.status == StreamStatus::Active && now >= stream.end_time
            && new_withdrawn == stream.deposit_amount {
            StreamStatus::Completed
        } else {
            stream.status
        };
        let updated = Stream { withdrawn_amount: new_withdrawn, status: new_status, ..stream };
        self.registry.save_stream(&updated);
        Ok(withdrawable)
    }

    /// The administrative override: the administrator force-cancels any
    /// stream. Requires the administrator's own authentication and then
    /// performs exactly the cancel logic.
    pub fn cancel_stream_as_admin(
        &mut self,
        bank: &mut TokenLedger,
        caller: Address,
        stream_id: u64,
        now: u64,
    ) -> (r: Result<(), Error>)
        requires
            old(self).wf(),
        ensures
            final(self).wf(),
            final(self).spec_config() == old(self).spec_config(),
            final(self).spec_stream_count() == old(self).spec_stream_count(),
            withdrawn_monotonic(*old(self), *final(self)),
            (match r {
                Ok(()) => ({
                    let s = old(self).spec_streams()[stream_id as int];
                    let cfg = old(self).spec_config().unwrap();
                    let refund = s.deposit_amount as int - accrued_spec(s, now);
                    &&& spec_admin_cancel_err(*old(self), *old(bank), caller, stream_id, now)
                        is None
                    &&& refund >= 0
                    &&& refund + accrued_spec(s, now) == s.deposit_amount as int
                    &&& final(self).spec_streams() == old(self).spec_streams().update(
                        stream_id as int,
                        spec_with_status(s, StreamStatus::Cancelled),
                    )
                    &&& forall|a: Address|
                        final(bank).spec_balance(a) == (if refund > 0 {
                            spec_moved(*old(bank), cfg.token, s.sender, refund, a)
                        } else {
                            old(bank).spec_balance(a)
                        })
                }),
                Err(e) => {
                    &&& spec_admin_cancel_err(*old(self), *old(bank), caller, stream_id, now)
                        == Some(e)
                    &&& final(self).spec_streams() == old(self).spec_streams()
                    &&& forall|a: Address|
                        final(bank).spec_balance(a) == old(bank).spec_balance(a)
                },
            }),
    {
        let admin = match self.registry.get_admin() {
            Ok(a) => a,
            Err(e) => {
                return Err(e);
            },
        };
        if caller != admin {
            return Err(Error::Unauthorized);
        }
        self.cancel_stream(bank, caller, stream_id, now)
    }

    /// Shared load–authenticate–transition–save path of `pause_stream` and
    /// `resume_stream`.
    fn apply_status_event(&mut self, caller: Address, stream_id: u64, event: StreamEvent) -> (r:
        Result<(), Error>)
        requires
            old(self).wf(),
            event == StreamEvent::Pause || event == StreamEvent::Resume,
        ensures
            final(self).wf(),
            final(self).spec_config() == old(self).spec_config(),
            final(self).spec_stream_count() == old(self).spec_stream_count(),
            withdrawn_monotonic(*old(self), *final(self)),
            (match r {
                Ok(()) => {
                    &&& spec_gate_err(*old(self), caller, stream_id, event) is None
                    &&& final(self).spec_streams() == old(self).spec_streams().update(
                        stream_id as int,
                        spec_with_status(
                            old(self).spec_streams()[stream_id as int],
                            spec_next_status(
                                old(self).spec_streams()[stream_id as int].status,
                                event,
                            ).unwrap(),
                        ),
                    )
                },
                Err(e) => {
                    &&& spec_gate_err(*old(self), caller, stream_id, event) == Some(e)
                    &&& final(self).spec_streams() == old(self).spec_streams()
                },
            }),
    {
        let stream = match self.registry.load_stream(stream_id) {
            Ok(s) => s,
            Err(e) => {
                return Err(e);
            },
        };
        match self.require_sender_or_admin(caller, stream.sender) {
            Ok(()) => {},
            Err(e) => {
                return Err(e);
            },
        }
        let new_status = match next_status(stream.status, event) {
            Ok(st) => st,
            Err(e) => {
                return Err(e);
            },
        };
        let updated = Stream { status: new_status, ..stream };
        self.registry.save_stream(&updated);
        Ok(())
    }
}

/// No record's withdrawn amount ever decreases from `pre` to `post`.
pub open spec fn withdrawn_monotonic(pre: FluxoraStream, post: FluxoraStream) -> bool {
    forall|i: int|
        0 <= i < pre.spec_streams().len() && i < post.spec_streams().len() ==> (
        #[trigger] post.spec_streams()[i]).withdrawn_amount >= (
        #[trigger] pre.spec_streams()[i]).withdrawn_amount
}

/// The first failure, if any, of the load–authenticate–transition gate
/// every status-changing operation runs: unknown identifier, missing
/// configuration, a caller that is neither the stream's sender nor the
/// administrator, or an edge absent from the transition table.
pub open spec fn spec_gate_err(
    pre: FluxoraStream,
    caller: Address,
    stream_id: u64,
    event: StreamEvent,
) -> Option<Error> {
    if stream_id as int >= pre.spec_streams().len() {
        Some(Error::StreamNotFound)
    } else {
        match pre.spec_config() {
            None => Some(Error::NotInitialized),
            Some(cfg) => {
                let s = pre.spec_streams()[stream_id as int];
                if !spec_authorized(caller, s.sender, cfg.admin) {
                    Some(Error::Unauthorized)
                } else {
                    match spec_next_status(s.status, event) {
                        Ok(_) => None,
                        Err(e) => Some(e),
                    }
                }
            },
        }
    }
}

/// A freshly created record: `Active`, nothing withdrawn yet.
pub open spec fn spec_new_stream(
    stream_id: u64,
    sender: Address,
    recipient: Address,
    deposit_amount: i128,
    rate_per_second: i128,
    start_time: u64,
    cliff_time: u64,
    end_time: u64,
) -> Stream {
    Stream {
        stream_id,
        sender,
        recipient,
        deposit_amount,
        rate_per_second,
        start_time,
        cliff_time,
        end_time,
        withdrawn_amount: 0,
        status: StreamStatus::Active,
    }
}

/// The record as it is after a successful withdrawal at time `now`: the
/// withdrawn amount catches up with the accrual, and a fully vested,
/// fully withdrawn active stream advances to `Completed`.
pub open spec fn spec_after_withdraw(s: Stream, now: u64) -> Stream {
    let w = accrued_spec(s, now);
    let st = if s.status == StreamStatus::Active && now >= s.end_time && w == s.deposit_amount
        as int {
        StreamStatus::Completed
    } else {
        s.status
    };
    Stream { withdrawn_amount: w as i128, status: st, ..s }
}

/// The first failure, if any, of a creation, in the order the checks run:
/// the sender's own authentication, the parameter preconditions, the
/// overflow-checked vesting total, the deposit covering that total, the
/// configuration, identifier space, and the failure modes of the
/// sender-to-custody deposit transfer.
pub open spec fn spec_create_err(
    pre: FluxoraStream,
    bank: TokenLedger,
    caller: Address,
    sender: Address,
    recipient: Address,
    deposit_amount: i128,
    rate_per_second: i128,
    start_time: u64,
    cliff_time: u64,
    end_time: u64,
) -> Option<Error> {
    if caller != sender {
        Some(Error::Unauthorized)
    } else if deposit_amount <= 0 {
        Some(Error::InvalidParams)
    } else if rate_per_second <= 0 {
        Some(Error::InvalidParams)
    } else if sender == recipient {
        Some(Error::InvalidParams)
    } else if start_time >= end_time {
        Some(Error::InvalidParams)
    } else if cliff_time < start_time || cliff_time > end_time {
        Some(Error::InvalidParams)
    } else if rate_per_second as int * (end_time as int - start_time as int) > i128::MAX as int {
        Some(Error::ArithmeticOverflow)
    } else if (deposit_amount as int) < rate_per_second as int * (end_time as int - start_time
        as int) {
        Some(Error::InvalidParams)
    } else {
        match pre.spec_config() {
            None => Some(Error::NotInitialized),
            Some(cfg) => if pre.spec_stream_count() == u64::MAX {
                Some(Error::ArithmeticOverflow)
            } else if bank.spec_balance(sender) < deposit_amount as int {
                Some(Error::InsufficientBalance)
            } else if sender != cfg.token && bank.spec_balance(cfg.token) + deposit_amount
                > i128::MAX as int {
                Some(Error::ArithmeticOverflow)
            } else {
                None
            },
        }
    }
}

/// The first failure, if any, of a withdrawal, in the order the checks
/// run: unknown identifier, a caller other than the recipient, a status
/// that blocks withdrawal, nothing accrued beyond what was already
/// withdrawn, missing configuration, and the failure modes of the
/// custody-to-recipient transfer.
pub open spec fn spec_withdraw_err(
    pre: FluxoraStream,
    bank: TokenLedger,
    caller: Address,
    stream_id: u64,
    now: u64,
) -> Option<Error> {
    if stream_id as int >= pre.spec_streams().len() {
        Some(Error::StreamNotFound)
    } else {
        let s = pre.spec_streams()[stream_id as int];
        if caller != s.recipient {
            Some(Error::Unauthorized)
        } else {
            match spec_next_status(s.status, StreamEvent::Withdraw) {
                Err(e) => Some(e),
                Ok(_) => {
                    let w = accrued_spec(s, now) - s.withdrawn_amount as int;
                    if w <= 0 {
                        Some(Error::NothingToWithdraw)
                    } else {
                        match pre.spec_config() {
                            None => Some(Error::NotInitialized),
                            Some(cfg) => if bank.spec_balance(cfg.token) < w {
                                Some(Error::InsufficientBalance)
                            } else if cfg.token != s.recipient && bank.spec_balance(s.recipient)
                                + w > i128::MAX as int {
                                Some(Error::ArithmeticOverflow)
                            } else {
                                None
                            },
                        }
                    }
                },
            }
        }
    }
}

/// The first failure, if any, of a cancellation: the status-change gate,
/// then — only when a positive refund is owed — the failure modes of the
/// custody-to-sender transfer.
pub open spec fn spec_cancel_err(
    pre: FluxoraStream,
    bank: TokenLedger,
    caller: Address,
    stream_id: u64,
    now: u64,
) -> Option<Error> {
    match spec_gate_err(pre, caller, stream_id, StreamEvent::Cancel) {
        Some(e) => Some(e),
        None => {
            let s = pre.spec_streams()[stream_id as int];
            let cfg = pre.spec_config().unwrap();
            let unstreamed = s.deposit_amount as int - accrued_spec(s, now);
            if unstreamed > 0 {
                if bank.spec_balance(cfg.token) < unstreamed {
                    Some(Error::InsufficientBalance)
                } else if cfg.token != s.sender && bank.spec_balance(s.sender) + unstreamed
                    > i128::MAX as int {
                    Some(Error::ArithmeticOverflow)
                } else {
                    None
                }
            } else {
                None
            }
        },
    }
}

/// The first failure, if any, of an administrative cancellation: the
/// administrator must be configured and calling in person; then exactly
/// the cancel logic applies.
pub open spec fn spec_admin_cancel_err(
    pre: FluxoraStream,
    bank: TokenLedger,
    caller: Address,
    stream_id: u64,
    now: u64,
) -> Option<Error> {
    match pre.spec_config() {
        None => Some(Error::NotInitialized),
        Some(cfg) => if caller != cfg.admin {
            Some(Error::Unauthorized)
        } else {
            spec_cancel_err(pre, bank, caller, stream_id, now)
        },
    }
}

} // verus!
