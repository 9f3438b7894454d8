//! An ownership registry: it records which account first claimed a piece of
//! content, and lets only that account revoke the claim.
pub mod lemmas;
pub mod registry;
pub mod runtime;
