//! Protocol discrimination and dispatch for deposits.
//!
//! A caller hands over an ordered list of account handles without knowing
//! which lending protocol they belong to. The owner of the first account is
//! matched against the identity tokens of the registered protocols, in
//! priority order; the matching protocol parses the list into its own account
//! set, and the deposit is routed to that protocol's invocation primitive.

pub mod account;
pub mod pinocchio_specs;
pub mod registry;
pub mod traits;
