//! One test per failure mode: every error variant is produced by an input
//! that earns it, and nothing else changes.

use fluxora_stream::Address;
use fluxora_stream::Error;
use fluxora_stream::FluxoraStream;
use fluxora_stream::StreamStatus;
use fluxora_stream::TokenLedger;

struct TestContext {
    engine: FluxoraStream,
    bank: TokenLedger,
    token: Address,
    admin: Address,
    sender: Address,
    recipient: Address,
}

fn setup() -> TestContext {
    let mut engine = FluxoraStream::new();
    let mut bank = TokenLedger::new();
    let token = Address { handle: 10 };
    let admin = Address { handle: 1 };
    let sender = Address { handle: 2 };
    let recipient = Address { handle: 3 };
    engine.init(token, admin).unwrap();
    bank.mint(sender, 10_000).unwrap();
    TestContext { engine, bank, token, admin, sender, recipient }
}

fn create_default_stream(ctx: &mut TestContext) -> u64 {
    ctx.engine
        .create_stream(
            &mut ctx.bank,
            ctx.sender,
            ctx.sender,
            ctx.recipient,
            1000,
            1,
            0,
            0,
            1000,
        )
        .unwrap()
}

fn create_cliff_stream(ctx: &mut TestContext) -> u64 {
    ctx.engine
        .create_stream(
            &mut ctx.bank,
            ctx.sender,
            ctx.sender,
            ctx.recipient,
            1000,
            1,
            0,
            500,
            1000,
        )
        .unwrap()
}

fn create_failing(ctx: &mut TestContext, deposit: i128, rate: i128, start: u64, cliff: u64, end: u64) -> Error {
    ctx.engine
        .create_stream(
            &mut ctx.bank,
            ctx.sender,
            ctx.sender,
            ctx.recipient,
            deposit,
            rate,
            start,
            cliff,
            end,
        )
        .unwrap_err()
}

#[test]
fn test_init_already_initialized_fails() {
    let mut ctx = setup();
    let err = ctx.engine.init(ctx.token, ctx.admin).unwrap_err();
    assert_eq!(err, Error::AlreadyInitialized);
}

#[test]
fn test_get_config_not_initialized_fails() {
    let engine = FluxoraStream::new();
    assert_eq!(engine.get_config().unwrap_err(), Error::NotInitialized);
}

#[test]
fn test_create_stream_not_initialized_fails() {
    let mut engine = FluxoraStream::new();
    let mut bank = TokenLedger::new();
    let sender = Address { handle: 2 };
    let recipient = Address { handle: 3 };
    bank.mint(sender, 10_000).unwrap();
    let err = engine
        .create_stream(&mut bank, sender, sender, recipient, 1000, 1, 0, 0, 1000)
        .unwrap_err();
    assert_eq!(err, Error::NotInitialized);
}

#[test]
fn test_create_stream_zero_deposit_fails() {
    let mut ctx = setup();
    assert_eq!(create_failing(&mut ctx, 0, 1, 0, 0, 1000), Error::InvalidParams);
}

#[test]
fn test_create_stream_negative_deposit_fails() {
    let mut ctx = setup();
    assert_eq!(create_failing(&mut ctx, -100, 1, 0, 0, 1000), Error::InvalidParams);
}

#[test]
fn test_create_stream_zero_rate_fails() {
    let mut ctx = setup();
    assert_eq!(create_failing(&mut ctx, 1000, 0, 0, 0, 1000), Error::InvalidParams);
}

#[test]
fn test_create_stream_negative_rate_fails() {
    let mut ctx = setup();
    assert_eq!(create_failing(&mut ctx, 1000, -1, 0, 0, 1000), Error::InvalidParams);
}

#[test]
fn test_create_stream_sender_equals_recipient_fails() {
    let mut ctx = setup();
    let err = ctx
        .engine
        .create_stream(&mut ctx.bank, ctx.sender, ctx.sender, ctx.sender, 1000, 1, 0, 0, 1000)
        .unwrap_err();
    assert_eq!(err, Error::InvalidParams);
}

#[test]
fn test_create_stream_invalid_times_fails() {
    let mut ctx = setup();
    assert_eq!(create_failing(&mut ctx, 1000, 1, 1000, 1000, 500), Error::InvalidParams);
}

#[test]
fn test_create_stream_cliff_before_start_fails() {
    let mut ctx = setup();
    assert_eq!(create_failing(&mut ctx, 1000, 1, 100, 50, 1100), Error::InvalidParams);
}

#[test]
fn test_create_stream_cliff_after_end_fails() {
    let mut ctx = setup();
    assert_eq!(create_failing(&mut ctx, 1000, 1, 0, 1500, 1000), Error::InvalidParams);
}

#[test]
fn test_create_stream_deposit_less_than_total_fails() {
    let mut ctx = setup();
    assert_eq!(create_failing(&mut ctx, 500, 1, 0, 0, 1000), Error::InvalidParams);
}

#[test]
fn test_create_stream_insufficient_balance_fails() {
    let mut ctx = setup();
    assert_eq!(
        create_failing(&mut ctx, 20_000, 20, 0, 0, 1000),
        Error::InsufficientBalance
    );
}

#[test]
fn test_create_stream_rate_times_duration_overflows() {
    let mut ctx = setup();
    assert_eq!(
        create_failing(&mut ctx, 1000, i128::MAX, 0, 0, 2),
        Error::ArithmeticOverflow
    );
}

#[test]
fn test_create_stream_unauthorized_caller_fails() {
    let mut ctx = setup();
    let stranger = Address { handle: 99 };
    let err = ctx
        .engine
        .create_stream(&mut ctx.bank, stranger, ctx.sender, ctx.recipient, 1000, 1, 0, 0, 1000)
        .unwrap_err();
    assert_eq!(err, Error::Unauthorized);
}

#[test]
fn test_create_stream_failure_leaves_no_record() {
    let mut ctx = setup();
    assert_eq!(create_failing(&mut ctx, 20_000, 20, 0, 0, 1000), Error::InsufficientBalance);
    assert_eq!(ctx.engine.get_stream_state(0).unwrap_err(), Error::StreamNotFound);
    assert_eq!(ctx.bank.balance(ctx.sender), 10_000);
    assert_eq!(ctx.bank.balance(ctx.token), 0);
}

#[test]
fn test_pause_already_paused_fails() {
    let mut ctx = setup();
    let stream_id = create_default_stream(&mut ctx);
    ctx.engine.pause_stream(ctx.sender, stream_id).unwrap();
    let err = ctx.engine.pause_stream(ctx.sender, stream_id).unwrap_err();
    assert_eq!(err, Error::InvalidState);
}

#[test]
fn test_resume_active_stream_fails() {
    let mut ctx = setup();
    let stream_id = create_default_stream(&mut ctx);
    let err = ctx.engine.resume_stream(ctx.sender, stream_id).unwrap_err();
    assert_eq!(err, Error::InvalidState);
}

#[test]
fn test_pause_stream_by_stranger_fails() {
    let mut ctx = setup();
    let stream_id = create_default_stream(&mut ctx);
    let stranger = Address { handle: 99 };
    let err = ctx.engine.pause_stream(stranger, stream_id).unwrap_err();
    assert_eq!(err, Error::Unauthorized);
}

#[test]
fn test_withdraw_by_sender_fails() {
    let mut ctx = setup();
    let stream_id = create_default_stream(&mut ctx);
    let sender = ctx.sender;
    let err = ctx
        .engine
        .withdraw(&mut ctx.bank, sender, stream_id, 500)
        .unwrap_err();
    assert_eq!(err, Error::Unauthorized);
}

#[test]
fn test_withdraw_paused_stream_fails() {
    let mut ctx = setup();
    let stream_id = create_default_stream(&mut ctx);

    ctx.engine.pause_stream(ctx.sender, stream_id).unwrap();
    let state = ctx.engine.get_stream_state(stream_id).unwrap();
    assert_eq!(state.status, StreamStatus::Paused);

    let err = ctx
        .engine
        .withdraw(&mut ctx.bank, ctx.recipient, stream_id, 500)
        .unwrap_err();
    assert_eq!(err, Error::InvalidState);
}

#[test]
fn test_withdraw_before_cliff_fails() {
    let mut ctx = setup();
    let stream_id = create_cliff_stream(&mut ctx);
    let err = ctx
        .engine
        .withdraw(&mut ctx.bank, ctx.recipient, stream_id, 100)
        .unwrap_err();
    assert_eq!(err, Error::NothingToWithdraw);
}

#[test]
fn test_withdraw_twice_after_cancel_fails() {
    let mut ctx = setup();
    let stream_id = create_default_stream(&mut ctx);
    ctx.engine
        .cancel_stream(&mut ctx.bank, ctx.sender, stream_id, 400)
        .unwrap();
    ctx.engine
        .withdraw(&mut ctx.bank, ctx.recipient, stream_id, 400)
        .unwrap();
    let err = ctx
        .engine
        .withdraw(&mut ctx.bank, ctx.recipient, stream_id, 400)
        .unwrap_err();
    assert_eq!(err, Error::NothingToWithdraw);
}

#[test]
fn test_withdraw_completed_stream_fails() {
    let mut ctx = setup();
    let stream_id = create_default_stream(&mut ctx);
    ctx.engine
        .withdraw(&mut ctx.bank, ctx.recipient, stream_id, 1000)
        .unwrap();
    assert_eq!(
        ctx.engine.get_stream_state(stream_id).unwrap().status,
        StreamStatus::Completed
    );
    let err = ctx
        .engine
        .withdraw(&mut ctx.bank, ctx.recipient, stream_id, 1000)
        .unwrap_err();
    assert_eq!(err, Error::InvalidState);
}

#[test]
fn test_cancel_already_cancelled_fails() {
    let mut ctx = setup();
    let stream_id = create_default_stream(&mut ctx);
    ctx.engine
        .cancel_stream(&mut ctx.bank, ctx.sender, stream_id, 0)
        .unwrap();
    let err = ctx
        .engine
        .cancel_stream(&mut ctx.bank, ctx.sender, stream_id, 0)
        .unwrap_err();
    assert_eq!(err, Error::InvalidState);
}

#[test]
fn test_cancel_completed_stream_fails() {
    let mut ctx = setup();
    let stream_id = create_default_stream(&mut ctx);
    ctx.engine
        .withdraw(&mut ctx.bank, ctx.recipient, stream_id, 1000)
        .unwrap();
    let err = ctx
        .engine
        .cancel_stream(&mut ctx.bank, ctx.sender, stream_id, 1000)
        .unwrap_err();
    assert_eq!(err, Error::InvalidState);
}

#[test]
fn test_cancel_stream_as_admin_by_non_admin_fails() {
    let mut ctx = setup();
    let stream_id = create_default_stream(&mut ctx);
    let sender = ctx.sender;
    let err = ctx
        .engine
        .cancel_stream_as_admin(&mut ctx.bank, sender, stream_id, 0)
        .unwrap_err();
    assert_eq!(err, Error::Unauthorized);
}

#[test]
fn test_get_stream_state_not_found_fails() {
    let ctx = setup();
    assert_eq!(ctx.engine.get_stream_state(999).unwrap_err(), Error::StreamNotFound);
}

#[test]
fn test_pause_stream_not_found_fails() {
    let mut ctx = setup();
    let sender = ctx.sender;
    assert_eq!(
        ctx.engine.pause_stream(sender, 999).unwrap_err(),
        Error::StreamNotFound
    );
}

#[test]
fn test_resume_stream_not_found_fails() {
    let mut ctx = setup();
    let sender = ctx.sender;
    assert_eq!(
        ctx.engine.resume_stream(sender, 999).unwrap_err(),
        Error::StreamNotFound
    );
}

#[test]
fn test_cancel_stream_not_found_fails() {
    let mut ctx = setup();
    let sender = ctx.sender;
    let err = ctx
        .engine
        .cancel_stream(&mut ctx.bank, sender, 999, 0)
        .unwrap_err();
    assert_eq!(err, Error::StreamNotFound);
}

#[test]
fn test_withdraw_stream_not_found_fails() {
    let mut ctx = setup();
    let recipient = ctx.recipient;
    let err = ctx
        .engine
        .withdraw(&mut ctx.bank, recipient, 999, 0)
        .unwrap_err();
    assert_eq!(err, Error::StreamNotFound);
}

#[test]
fn test_calculate_accrued_not_found_fails() {
    let ctx = setup();
    assert_eq!(
        ctx.engine.calculate_accrued(999, 0).unwrap_err(),
        Error::StreamNotFound
    );
}
