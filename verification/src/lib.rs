//! Anonymous, encrypted voting on funded proposals: the proposal state machine, its nullifier
//! registry, the tally fold and the one-time settlement, with every rule proved.

pub mod error;
pub mod ledger;
pub mod lifecycle;
pub mod model;
pub mod proposal;
pub mod registry;
pub mod state;
pub mod tally;

pub use crate::error::ErrorCode;
pub use crate::ledger::{
    finalize_execution, finalize_proposal, initialize_proposal, process, set_tally, submit_vote,
    Ledger,
};
pub use crate::model::Instruction;
pub use crate::proposal::{check_tally, verify_inclusion, verify_proof};
pub use crate::registry::NullifierRegistry;
pub use crate::state::{
    nullifier_tag, same_bytes, Bytes32, ExecuteProposal, FinalizeProposal, InitProposal, Manager,
    NullifierAccount, Proposal, SetTally, SubmitVote, TransferChecked, TALLY_PASSED,
};
pub use crate::tally::{add_together, aggregate, InputValues, Tally};
