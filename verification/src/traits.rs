//! The capabilities of a protocol and the facade over the registered ones.

pub mod deposit;
