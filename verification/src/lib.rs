//! Verified core of an on-ledger program with two instructions: one creates
//! a program-owned account at a derived address unless it exists, the other
//! hashes three identities into a seed and derives the program's address for
//! it.
//!
//! The core decides and never acts. It works on plain snapshots of the
//! accounts that an invocation names, and what has to happen on the ledger
//! comes back as a value: a plan for the account to create, or the report of
//! a crank. The shell around the core reads the accounts, asks the runtime
//! for the rent-exempt minimum, and hands the plan's instruction to the
//! runtime with the plan's authority.
//!
//! - [`decode`]: the payload's layout and the instructions it can name;
//! - [`derive`]: program-derived addresses;
//! - [`hash`]: the seed of a crank;
//! - [`provision`]: the decision to create, the plan, and what a creation
//!   leaves behind;
//! - [`crank`]: the crank and its report;
//! - [`processor`]: the entry point;
//! - [`store`]: the raw write into an account's buffer;
//! - [`system`]: the system program's instruction that creates an account;
//! - [`account`]: identities, accounts and error codes.

pub mod account;
pub mod crank;
pub mod decode;
pub mod derive;
pub mod hash;
pub mod processor;
pub mod provision;
pub mod store;
pub mod system;

pub use account::{Account, Address, ProgramError};
pub use processor::{process_instruction, Outcome};
