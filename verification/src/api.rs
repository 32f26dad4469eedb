//! Service-level authorization queries.
//!
//! A [`Principal`] names the entity whose authorization is being decided;
//! an [`Authorization`] implementation answers batched subject queries for
//! it.

use vstd::prelude::*;

use crate::authorization::Effect;

verus! {

/// The entity whose authorization is being decided.
#[derive(PartialEq, Eq, Debug, Clone)]
pub enum Principal<Id> {
    /// A single atomic principal.
    Single(Id),
    /// A composite of several atomic principals, all of which must
    /// authorize.
    Compound(Vec<Id>),
}

/// A service that answers batched authorization queries for a principal.
pub trait Authorization {
    /// The type identifying an atomic principal.
    type PId;

    /// The type of error a query can fail with.
    type Err;

    /// The type of resource queried.
    type Resource;

    /// The type of action queried.
    type Action;

    /// Decide every (resource, action) subject of the query for the
    /// principal.
    fn authorize(
        &self,
        principal: &Principal<Self::PId>,
        query: &[(Self::Resource, Self::Action)],
    ) -> Result<Vec<((Self::Resource, Self::Action), Effect)>, Self::Err>;
}

} // verus!
