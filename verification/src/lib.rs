//! A self-rescheduling task engine for a fee-metered ledger: address
//! derivation, rent and escrow accounting, the recurring-payment state
//! machine, the growable dataset buffer and the continuation protocol that
//! chains one invocation to the next.

pub mod address;
pub mod client;
pub mod codec;
pub mod continuation;
pub mod dataset;
pub mod error;
pub mod ledger;
pub mod payment;
pub mod realloc_buffer;
pub mod schedule;
