//! A minimal on-chain counter program.
//!
//! An account owned by the program stores a single unsigned 32-bit counter
//! as four little-endian bytes. A caller-supplied instruction buffer selects
//! one of three operations - increment, decrement, reset - and the program
//! applies it to the counter after validating the account's ownership.

pub mod account;
pub mod error;
pub mod instruction;
pub mod processor;
pub mod state;

pub use account::Account;
pub use account::Pubkey;
pub use error::ProgramError;
pub use instruction::HelloInstruction;
pub use processor::process_instruction;
pub use state::GreetingAccount;
