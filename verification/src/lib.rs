//! Decision core of an attribute-based authorization engine.
//!
//! Policy statements for a principal are matched against a concrete
//! (resource, action) subject, producing an environment-independent
//! effect expression that is then resolved against a condition-evaluating
//! environment into a definite authorization decision.

pub mod action;
pub mod api;
pub mod assertion;
pub mod authorization;
pub mod condition;
pub mod conditional_effect;
pub mod dependent_effect;
pub mod effect;
pub mod enforcement;
pub mod environment;
pub mod fallible_effect;
pub mod matcher;
pub mod path;
pub mod path2;
pub mod permission;
pub mod policy;
pub mod policy_template;
pub mod principal;
pub mod resource;
