//! CAPCOM: agent-to-agent negotiation between engines of different users,
//! where every action that crosses from one user to the other passes a human
//! approval gate on both sides.
//!
//! - `protocol`: cards, proposals, frames, verdicts and gate events.
//! - `capcom`: one engine's negotiation state and the decisions of its routes.
//! - `compose`: turning a free-text instruction into a proposal.
//! - `error`: route errors and their HTTP statuses.
//! - `text`, `table`: the text helpers and the keyed table underneath.
//! - `laws`: properties that span several operations.
use vstd::prelude::*;

pub mod capcom;
pub mod compose;
pub mod error;
pub mod laws;
pub mod operation_laws;
pub mod protocol;
pub mod table;
pub mod text;

verus! {

} // verus!
