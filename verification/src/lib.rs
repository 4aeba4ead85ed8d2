//! Core of an ordered download-job queue: request validation, unique job
//! identifiers, a mirrored queue store, submission coordination, and the
//! single-consumer worker's finalization steps.

pub mod correlate;
pub mod gauge;
pub mod ids;
pub mod models;
pub mod premium;
pub mod store;
pub mod submit;
pub mod worker;
pub mod validate;

use vstd::prelude::*;

verus! {

} // verus!
