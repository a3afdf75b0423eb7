//! Looking an organization up by its identifier.

use crate::graphql::objects::organization::Organization;
use crate::id::Uuid;
use vstd::prelude::*;

verus! {

/// The read operations on organizations.
#[derive(Default)]
pub struct Query;

impl Query {
    /// The organization with the given identifier. An organization has
    /// nothing of its own here; it is the anchor of its credentials.
    pub fn find_organization_by_id(&self, id: Uuid) -> (r: Organization)
        ensures
            r.id == id,
    {
        Organization { id }
    }
}

} // verus!
