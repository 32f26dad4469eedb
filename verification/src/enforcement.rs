//! Interpreting policy evaluation results for concrete subjects.
//!
//! An [`Authorization`] records the decision for one subject; an
//! [`Authorizations`] batch records a principal's decisions for several
//! subjects, which as a whole authorizes only if every constituent does.

use vstd::prelude::*;

verus! {

/// The decision for one subject.
#[derive(Debug, PartialEq, Eq, Clone)]
pub struct Authorization<Subj>(pub Subj, pub bool);

impl<Subj> Authorization<Subj> {
    /// Whether access to the subject is authorized.
    pub fn authorized(&self) -> (r: bool)
        ensures
            r == self.1,
    {
        self.1
    }

    /// The subject the decision is about.
    pub fn subject(&self) -> (r: &Subj)
        ensures
            r == self.0,
    {
        &self.0
    }
}

/// A principal's decisions for a batch of subjects.
#[derive(Debug, PartialEq, Eq, Clone)]
pub struct Authorizations<Azn, Prin>(pub Prin, pub Vec<Azn>);

impl<Subj, Prin> Authorizations<Authorization<Subj>, Prin> {
    /// Collect a principal's decisions.
    pub fn new(principal: Prin, items: Vec<Authorization<Subj>>) -> (r: Self)
        ensures
            r == Authorizations(principal, items),
    {
        Authorizations(principal, items)
    }

    /// Whether the batch as a whole authorizes: it is non-empty and every
    /// constituent decision authorizes.
    pub fn authorized(&self) -> (r: bool)
        ensures
            r == (self.1@.len() > 0 && forall|i: int|
                0 <= i < self.1@.len() ==> (#[trigger] self.1@[i]).1),
    {
        if self.1.len() == 0 {
            return false;
        }
        let n = self.1.len();
        for i in 0..n
            invariant
                n == self.1@.len(),
                forall|j: int| 0 <= j < i ==> (#[trigger] self.1@[j]).1,
        {
            if !self.1[i].authorized() {
                return false;
            }
        }
        true
    }

    /// The principal the decisions are for.
    pub fn principal(&self) -> (r: &Prin)
        ensures
            r == self.0,
    {
        &self.0
    }

    /// The decisions, in batch order.
    pub fn as_slice(&self) -> (r: &[Authorization<Subj>])
        ensures
            r@ == self.1@,
    {
        self.1.as_slice()
    }

    /// Mutable access to the decisions, in batch order.
    pub fn as_slice_mut(&mut self) -> (r: &mut Vec<Authorization<Subj>>)
        ensures
            *r == old(self).1,
            *final(self) == (Authorizations(old(self).0, *final(r))),
    {
        &mut self.1
    }
}

/// An oracle that decides a batch of subjects for a principal.
pub trait AuthorizationOracle {
    /// The type of principal the oracle decides for.
    type Principal;

    /// The type of subject decided.
    type Subject;

    /// The type of error the oracle can fail with.
    type Err;

    /// Decide every subject of the batch for the principal.
    fn authorized(
        &self,
        principal: &Self::Principal,
        subjects: &[Self::Subject],
    ) -> Result<Authorizations<Authorization<Self::Subject>, Self::Principal>, Self::Err>;
}

} // verus!
