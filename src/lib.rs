//! A self-healing daemon's decisions, verified: which containers to look at,
//! the policy their labels give, the verdict an inspection yields, what to do
//! about a failing container, and the history of what was done. The caller
//! performs the I/O that the state machines ask for.
use vstd::prelude::*;

pub mod cycle;
pub mod discovery;
pub mod history;
pub mod inspect;
pub mod policy;
pub mod report;
pub mod settings;
pub mod task;
pub mod text;

verus! {

} // verus!
