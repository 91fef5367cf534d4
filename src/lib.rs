//! A verifying client of one authority of a distributed ledger. Each raw
//! response is accepted only once it is shown to come from the authority that
//! was queried, to concern the subject that was requested, and to carry
//! signatures valid under the committee of the epoch it declares.
use vstd::prelude::*;

pub mod base_types;
pub mod committee;
pub mod crypto;
pub mod error;
pub mod messages;
pub mod messages_checkpoint;
pub mod safe_client;
pub mod signature;
pub mod sui_system_state;

verus! {

} // verus!
