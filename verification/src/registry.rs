//! The priority list of registered protocols and the search through it.

use pinocchio::pubkey::{pubkey_eq, Pubkey};
use vstd::prelude::*;

verus! {

/// The protocols a deposit can be routed to.
#[derive(Clone, Copy, Debug, PartialEq, Eq, Structural)]
pub enum Protocol {
    Kamino,
    Jupiter,
}

/// One entry of the priority list: a protocol and the identity token that
/// names it.
#[derive(Clone, Copy, Debug)]
pub struct Registration {
    pub protocol: Protocol,
    pub program_id: Pubkey,
}

/// The protocol of the first entry of `registry` whose identity token is
/// `owner`, byte for byte; `None` if no entry has that token.
pub open spec fn first_match(registry: Seq<Registration>, owner: Seq<u8>) -> Option<Protocol>
    decreases registry.len(),
{
    if registry.len() == 0 {
        None
    } else if registry[0].program_id@ == owner {
        Some(registry[0].protocol)
    } else {
        first_match(registry.subrange(1, registry.len() as int), owner)
    }
}

/// Skipping entries whose token differs from `owner` does not change the
/// match.
proof fn lemma_first_match_skip(registry: Seq<Registration>, owner: Seq<u8>, n: int)
    requires
        0 <= n <= registry.len(),
        forall|j: int| 0 <= j < n ==> registry[j].program_id@ != owner,
    ensures
        first_match(registry, owner) == first_match(
            registry.subrange(n, registry.len() as int),
            owner,
        ),
    decreases n,
{
    if n == 0 {
        assert(registry.subrange(0, registry.len() as int) =~= registry);
    } else {
        let rest = registry.subrange(1, registry.len() as int);
        assert forall|j: int| 0 <= j < n - 1 implies rest[j].program_id@ != owner by {
            assert(rest[j] == registry[j + 1]);
        }
        lemma_first_match_skip(rest, owner, n - 1);
        assert(rest.subrange(n - 1, rest.len() as int) =~= registry.subrange(
            n,
            registry.len() as int,
        ));
    }
}

/// Priority: the entry that carries `owner` and has no entry with that token
/// before it is the one selected.
pub proof fn lemma_first_match_selects(registry: Seq<Registration>, owner: Seq<u8>, i: int)
    requires
        0 <= i < registry.len(),
        registry[i].program_id@ == owner,
        forall|j: int| 0 <= j < i ==> registry[j].program_id@ != owner,
    ensures
        first_match(registry, owner) == Some(registry[i].protocol),
{
    lemma_first_match_skip(registry, owner, i);
    let rest = registry.subrange(i, registry.len() as int);
    assert(rest[0] == registry[i]);
}

/// No entry carries `owner` exactly when nothing is selected.
pub proof fn lemma_first_match_none(registry: Seq<Registration>, owner: Seq<u8>)
    ensures
        first_match(registry, owner) is None <==> forall|i: int|
            0 <= i < registry.len() ==> registry[i].program_id@ != owner,
    decreases registry.len(),
{
    if registry.len() > 0 {
        let rest = registry.subrange(1, registry.len() as int);
        lemma_first_match_none(rest, owner);
        if first_match(registry, owner) is None {
            assert forall|i: int| 0 <= i < registry.len() implies registry[i].program_id@
                != owner by {
                if i > 0 {
                    assert(rest[i - 1] == registry[i]);
                }
            }
        } else if registry[0].program_id@ != owner {
            let k = choose|k: int| 0 <= k < rest.len() && rest[k].program_id@ == owner;
            assert(rest[k] == registry[k + 1]);
        }
    }
}

/// What is selected is the protocol of an entry that carries `owner`, and no
/// entry before it does.
pub proof fn lemma_first_match_some(registry: Seq<Registration>, owner: Seq<u8>) -> (i: int)
    requires
        first_match(registry, owner) is Some,
    ensures
        0 <= i < registry.len(),
        registry[i].program_id@ == owner,
        first_match(registry, owner) == Some(registry[i].protocol),
        forall|j: int| 0 <= j < i ==> registry[j].program_id@ != owner,
    decreases registry.len(),
{
    if registry[0].program_id@ == owner {
        0
    } else {
        let rest = registry.subrange(1, registry.len() as int);
        let k = lemma_first_match_some(rest, owner);
        assert(rest[k] == registry[k + 1]);
        assert forall|j: int| 0 <= j < k + 1 implies registry[j].program_id@ != owner by {
            if j > 0 {
                assert(rest[j - 1] == registry[j]);
            }
        }
        k + 1
    }
}

/// Walks `registry` in order and returns the protocol of the first entry
/// whose identity token equals `owner`.
pub fn discriminate(registry: &[Registration], owner: &Pubkey) -> (selected: Option<Protocol>)
    ensures
        selected == first_match(registry@, owner@),
{
    let mut i: usize = 0;
    while i < registry.len()
        invariant
            i <= registry.len(),
            forall|j: int| 0 <= j < i ==> registry@[j].program_id@ != owner@,
        decreases registry.len() - i,
    {
        if pubkey_eq(&registry[i].program_id, owner) {
            proof {
                lemma_first_match_selects(registry@, owner@, i as int);
            }
            return Some(registry[i].protocol);
        }
        i += 1;
    }
    proof {
        lemma_first_match_none(registry@, owner@);
    }
    None
}

} // verus!
