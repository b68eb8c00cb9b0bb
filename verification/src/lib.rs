//! A counter kept in one account of a ledger: its wire formats, its two
//! instructions and the rules they enforce, with every rule proved.
//!
//! The host hands the program plain values: the program's address, the
//! accounts that the invocation names, and the instruction's bytes. What only
//! the host can do, creating an account, the program asks for and waits on.

pub mod account;
pub mod error;
pub mod instruction;
pub mod laws;
pub mod processor;
pub mod state;
pub mod wire;

pub use account::{AccountInfo, Pubkey};
pub use error::ProgramError;
pub use instruction::CounterInstruction;
pub use processor::{finish_initialize_counter, fund_initialize_counter,
    process_increment_counter, process_initialize_counter, process_instruction, CreateAccount,
    Progress};
pub use state::CounterAccount;
