//! A custodial escrow: one depositor's funds held in a program-controlled
//! vault and paid out to a fixed recipient, in percentage installments or by
//! cancellation, under the authority of the initiator and an arbiter.
pub mod fee;
pub mod laws;
pub mod ledger;
pub mod program;
pub mod types;

pub use fee::{fee_split, release_gross, FeeSplit};
pub use ledger::Ledger;
pub use program::{new_escrow, plan_cancel, plan_release, Config, EscrowProgram};
pub use types::{
    authorize, derive_vault_address, DealType, Escrow, EscrowError, EscrowStatus, Holding, Pubkey,
};
