//! Instruction-processing core of a token faucet: a pool bound to one mint,
//! bounded withdrawals, and closure by a single authority.

pub mod authority;
pub mod error;
pub mod instruction;
pub mod key;
pub mod processor;
pub mod state;
pub mod token;
