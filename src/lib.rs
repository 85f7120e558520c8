//! An escrow exchange: an administrator funds an escrow of tokens, anyone swaps
//! native value for tokens at a fixed ratio, and the administrator withdraws what
//! was swapped. The processor is a pure function from an invocation (the accounts
//! it names, the rent floor, the instruction bytes) to the balances and record
//! bytes to commit and the token-service call to make.

pub mod authority;
pub mod bytes;
pub mod error;
pub mod identity;
pub mod instruction;
pub mod processor;
pub mod state;
pub mod token;
