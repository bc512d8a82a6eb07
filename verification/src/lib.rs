//! A continuous payment-streaming (vesting) accounting engine.
//!
//! A sender deposits funds that unlock linearly over time to a recipient,
//! with support for pausing, cancellation, and partial withdrawal. The crate
//! is organised around two components: a registry that owns the persistent
//! `Stream` records and the identifier counter, and the lifecycle engine
//! that owns every state transition and the accrual arithmetic. Value
//! movement is performed against a `TokenLedger`, the in-memory model of the
//! fungible-token custody account; the authenticated caller and the current
//! timestamp are supplied explicitly by the host on every operation.

pub mod accrual;
pub mod engine;
pub mod registry;
pub mod token;
pub mod transition;
pub mod types;

pub use accrual::accrued_amount;
pub use engine::FluxoraStream;
pub use registry::Registry;
pub use token::TokenLedger;
pub use transition::next_status;
pub use transition::resolve_authorizer;
pub use transition::StreamEvent;
pub use types::Address;
pub use types::Config;
pub use types::DataKey;
pub use types::Error;
pub use types::Stream;
pub use types::StreamStatus;
