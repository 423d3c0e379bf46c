//! Account handles as the dispatch layer sees them.

use pinocchio::pubkey::Pubkey;
use vstd::prelude::*;

verus! {

/// A caller-owned account. The dispatch layer reads `owner` of the first
/// handle of a list and nothing else; `key` and `account` are there for the
/// protocol that parses the list.
///
/// `account` is whatever the caller uses to reach the account
/// itself. It is opaque to this library.
pub struct AccountHandle<T> {
    /// Address of the account.
    pub key: Pubkey,
    /// Identity token of the program that owns the account.
    pub owner: Pubkey,
    /// The caller's own reference to the account.
    pub account: T,
}

} // verus!
