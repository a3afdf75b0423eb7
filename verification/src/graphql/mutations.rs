//! The operations that change credentials.

pub mod credential;

use vstd::prelude::*;

verus! {

/// Every operation of the API that changes something.
#[derive(Default)]
pub struct Mutation(pub credential::Mutation);

} // verus!
