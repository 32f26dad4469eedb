//! Combining authorization results across principals.
//!
//! A [`Node`] is a binary and/or tree over authorization results, used to
//! express how the decisions of several authorities combine into one.

use vstd::prelude::*;

use crate::effect::ComputedEffect;

verus! {

/// A binary combination tree over authorization results.
#[derive(Debug, PartialEq, Eq)]
pub enum Node<A> {
    /// A single result.
    Leaf(A),
    /// Both branches must authorize.
    And(Box<Node<A>>, Box<Node<A>>),
    /// Either branch may authorize; an explicit denial dominates.
    Or(Box<Node<A>>, Box<Node<A>>),
}

impl<A> From<A> for Node<A> {
    fn from(a: A) -> Self {
        Node::Leaf(a)
    }
}

impl<A> vstd::std_specs::convert::FromSpecImpl<A> for Node<A> {
    open spec fn obeys_from_spec() -> bool {
        true
    }

    open spec fn from_spec(a: A) -> Self {
        Node::Leaf(a)
    }
}

impl<A> Node<A> {
    /// Conjoin this tree with another.
    pub fn and(self, r: Node<A>) -> (result: Node<A>)
        ensures
            result == Node::And(Box::new(self), Box::new(r)),
    {
        Node::And(Box::new(self), Box::new(r))
    }

    /// Disjoin this tree with another.
    pub fn or(self, r: Node<A>) -> (result: Node<A>)
        ensures
            result == Node::Or(Box::new(self), Box::new(r)),
    {
        Node::Or(Box::new(self), Box::new(r))
    }
}

impl<A> Node<A> {
    /// The leaf values of the tree, in the order a stack-driven walk
    /// visits them: for each branch node, the right subtree's leaves come
    /// before the left's.
    pub open spec fn spec_leaves(self) -> Seq<A>
        decreases self,
    {
        match self {
            Node::Leaf(a) => seq![a],
            Node::And(l, r) => (*r).spec_leaves() + (*l).spec_leaves(),
            Node::Or(l, r) => (*r).spec_leaves() + (*l).spec_leaves(),
        }
    }

    /// Whether `r` has the same shape as this tree, with each leaf value
    /// a possible result of applying `f` to the corresponding leaf.
    pub open spec fn spec_map_rel<F: Fn(A) -> A>(self, f: &F, r: Node<A>) -> bool
        decreases self,
    {
        match self {
            Node::Leaf(a) => match r {
                Node::Leaf(b) => call_ensures(*f, (a,), b),
                _ => false,
            },
            Node::And(l1, r1) => match r {
                Node::And(l2, r2) => (*l1).spec_map_rel(f, *l2) && (*r1).spec_map_rel(f, *r2),
                _ => false,
            },
            Node::Or(l1, r1) => match r {
                Node::Or(l2, r2) => (*l1).spec_map_rel(f, *l2) && (*r1).spec_map_rel(f, *r2),
                _ => false,
            },
        }
    }

    /// Apply a function to every leaf value, preserving the tree's shape.
    pub fn map<F: Fn(A) -> A>(self, f: &F) -> (r: Self)
        requires
            forall|x: A| #[trigger] f.requires((x,)),
        ensures
            self.spec_map_rel(f, r),
        decreases self,
    {
        match self {
            Node::Leaf(a) => Node::Leaf(f(a)),
            Node::And(l, r) => Node::And(Box::new((*l).map(f)), Box::new((*r).map(f))),
            Node::Or(l, r) => Node::Or(Box::new((*l).map(f)), Box::new((*r).map(f))),
        }
    }

    /// List the leaf values of the tree.
    pub fn iter(&self) -> (res: Vec<&A>)
        ensures
            res@.len() == self.spec_leaves().len(),
            forall|i: int| 0 <= i < res@.len() ==> *res@[i] == self.spec_leaves()[i],
        decreases *self,
    {
        match self {
            Node::Leaf(a) => {
                let mut res: Vec<&A> = Vec::new();
                res.push(a);
                res
            }
            Node::And(l, r) => {
                let mut res = r.iter();
                let mut rest = l.iter();
                res.append(&mut rest);
                res
            }
            Node::Or(l, r) => {
                let mut res = r.iter();
                let mut rest = l.iter();
                res.append(&mut rest);
                res
            }
        }
    }
}

impl Node<ComputedEffect> {
    /// What evaluating the tree yields.
    pub open spec fn spec_eval(self) -> ComputedEffect
        decreases self,
    {
        match self {
            Node::Leaf(a) => a,
            Node::And(l, r) => if l.spec_eval() == ComputedEffect::ALLOW && r.spec_eval()
                == ComputedEffect::ALLOW {
                ComputedEffect::ALLOW
            } else {
                ComputedEffect::DENY
            },
            Node::Or(l, r) => match (l.spec_eval(), r.spec_eval()) {
                (ComputedEffect::SILENT, rv) => rv,
                (ComputedEffect::ALLOW, ComputedEffect::SILENT) => ComputedEffect::ALLOW,
                (ComputedEffect::DENY, _) => ComputedEffect::DENY,
                (ComputedEffect::ALLOW, ComputedEffect::DENY) => ComputedEffect::DENY,
                (ComputedEffect::ALLOW, ComputedEffect::ALLOW) => ComputedEffect::ALLOW,
            },
        }
    }

    /// Evaluate the tree to a single computed effect.
    pub fn eval(&self) -> (result: ComputedEffect)
        ensures
            result == self.spec_eval(),
        decreases *self,
    {
        match self {
            Node::Leaf(a) => *a,
            Node::And(l, r) => {
                let lv = l.eval();
                let rv = r.eval();
                match (lv, rv) {
                    (ComputedEffect::ALLOW, ComputedEffect::ALLOW) => ComputedEffect::ALLOW,
                    _ => ComputedEffect::DENY,
                }
            }
            Node::Or(l, r) => {
                let lv = l.eval();
                let rv = r.eval();
                match (lv, rv) {
                    (ComputedEffect::SILENT, rv) => rv,
                    (ComputedEffect::ALLOW, ComputedEffect::SILENT) => ComputedEffect::ALLOW,
                    (ComputedEffect::DENY, _) => ComputedEffect::DENY,
                    (ComputedEffect::ALLOW, ComputedEffect::DENY) => ComputedEffect::DENY,
                    (ComputedEffect::ALLOW, ComputedEffect::ALLOW) => ComputedEffect::ALLOW,
                }
            }
        }
    }
}

} // verus!
