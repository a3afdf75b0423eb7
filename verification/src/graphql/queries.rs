//! The operations that read credentials.

pub mod credentials;
pub mod organizations;

use vstd::prelude::*;

verus! {

/// Every read operation of the API.
#[derive(Default)]
pub struct Query(pub credentials::Query, pub organizations::Query);

} // verus!
