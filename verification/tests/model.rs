//! Unit tests of the supporting components: the token ledger model, the
//! pure transition table, and the authorization policy.

use fluxora_stream::next_status;
use fluxora_stream::resolve_authorizer;
use fluxora_stream::Address;
use fluxora_stream::Error;
use fluxora_stream::StreamEvent;
use fluxora_stream::StreamStatus;
use fluxora_stream::TokenLedger;

#[test]
fn test_ledger_balances_start_at_zero() {
    let bank = TokenLedger::new();
    assert_eq!(bank.balance(Address { handle: 0 }), 0);
    assert_eq!(bank.balance(Address { handle: 77 }), 0);
}

#[test]
fn test_ledger_mint_and_transfer() {
    let mut bank = TokenLedger::new();
    let a = Address { handle: 1 };
    let b = Address { handle: 2 };
    bank.mint(a, 500).unwrap();
    bank.transfer(a, b, 200).unwrap();
    assert_eq!(bank.balance(a), 300);
    assert_eq!(bank.balance(b), 200);
}

#[test]
fn test_ledger_transfer_insufficient_balance() {
    let mut bank = TokenLedger::new();
    let a = Address { handle: 1 };
    let b = Address { handle: 2 };
    bank.mint(a, 100).unwrap();
    assert_eq!(bank.transfer(a, b, 101).unwrap_err(), Error::InsufficientBalance);
    assert_eq!(bank.balance(a), 100);
    assert_eq!(bank.balance(b), 0);
}

#[test]
fn test_ledger_transfer_to_self_changes_nothing() {
    let mut bank = TokenLedger::new();
    let a = Address { handle: 1 };
    bank.mint(a, 100).unwrap();
    bank.transfer(a, a, 60).unwrap();
    assert_eq!(bank.balance(a), 100);
}

#[test]
fn test_ledger_transfer_overflow() {
    let mut bank = TokenLedger::new();
    let a = Address { handle: 1 };
    let b = Address { handle: 2 };
    bank.mint(a, 5).unwrap();
    bank.mint(b, i128::MAX).unwrap();
    assert_eq!(bank.transfer(a, b, 5).unwrap_err(), Error::ArithmeticOverflow);
    assert_eq!(bank.balance(a), 5);
    assert_eq!(bank.balance(b), i128::MAX);
}

#[test]
fn test_ledger_mint_overflow() {
    let mut bank = TokenLedger::new();
    let a = Address { handle: 1 };
    bank.mint(a, i128::MAX).unwrap();
    assert_eq!(bank.mint(a, 1).unwrap_err(), Error::ArithmeticOverflow);
    assert_eq!(bank.balance(a), i128::MAX);
}

#[test]
fn test_transition_table_exhaustive() {
    let states = [
        StreamStatus::Active,
        StreamStatus::Paused,
        StreamStatus::Completed,
        StreamStatus::Cancelled,
    ];
    for state in states {
        assert_eq!(
            next_status(state, StreamEvent::Pause),
            match state {
                StreamStatus::Active => Ok(StreamStatus::Paused),
                _ => Err(Error::InvalidState),
            }
        );
        assert_eq!(
            next_status(state, StreamEvent::Resume),
            match state {
                StreamStatus::Paused => Ok(StreamStatus::Active),
                _ => Err(Error::InvalidState),
            }
        );
        assert_eq!(
            next_status(state, StreamEvent::Cancel),
            match state {
                StreamStatus::Active | StreamStatus::Paused => Ok(StreamStatus::Cancelled),
                _ => Err(Error::InvalidState),
            }
        );
        assert_eq!(
            next_status(state, StreamEvent::Withdraw),
            match state {
                StreamStatus::Active => Ok(StreamStatus::Active),
                StreamStatus::Cancelled => Ok(StreamStatus::Cancelled),
                _ => Err(Error::InvalidState),
            }
        );
    }
}

#[test]
fn test_resolve_authorizer_branches() {
    let sender = Address { handle: 2 };
    let admin = Address { handle: 1 };
    let stranger = Address { handle: 9 };
    assert_eq!(resolve_authorizer(sender, admin, admin), admin);
    assert_eq!(resolve_authorizer(sender, admin, sender), sender);
    assert_eq!(resolve_authorizer(sender, admin, stranger), sender);
    let both = Address { handle: 5 };
    assert_eq!(resolve_authorizer(both, both, both), both);
}
