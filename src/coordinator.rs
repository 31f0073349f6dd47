use std::collections::HashMap;
use vstd::prelude::*;

verus! {

broadcast use vstd::std_specs::hash::group_hash_axioms;

/// The committee's verification keys, by signer identity.
///
/// A key set always holds a key for identity `0`, so that a coordinator can
/// be selected from every key set.
pub struct PublicKeySet<K> {
    signers: HashMap<u32, K>,
}

impl<K> View for PublicKeySet<K> {
    type V = Map<u32, K>;

    closed spec fn view(&self) -> Map<u32, K> {
        self.signers@
    }
}

/// What every key set holds: a key for identity `0`.
pub open spec fn valid_committee<K>(keys: Map<u32, K>) -> bool {
    keys.contains_key(0u32)
}

/// The coordinator that every member derives from the same keys: the
/// lowest identity, `0`, together with its key.
///
/// This fixed choice stands in for a future verifiable random rotation;
/// what callers may rely on is only that it is a function of the keys.
pub open spec fn coordinator_of<K>(keys: Map<u32, K>) -> (u32, K) {
    (0u32, keys[0u32])
}

impl<K> PublicKeySet<K> {
    #[verifier::type_invariant]
    closed spec fn has_lowest_identity(&self) -> bool {
        valid_committee(self.signers@)
    }

    /// Builds a key set; `None` when identity `0` has no key.
    pub fn new(signers: HashMap<u32, K>) -> (r: Option<Self>)
        ensures
            r is Some <==> valid_committee(signers@),
            r matches Some(keys) ==> keys@ == signers@,
    {
        if signers.contains_key(&0u32) {
            Some(PublicKeySet { signers })
        } else {
            None
        }
    }

    /// The key of one signer, if it is a member.
    pub fn signer_key(&self, id: u32) -> (r: Option<&K>)
        ensures
            match r {
                Some(k) => self@.contains_key(id) && *k == self@[id],
                None => !self@.contains_key(id),
            },
    {
        self.signers.get(&id)
    }
}

/// Selects the coordinator of the committee and its key.
pub fn calculate_coordinator<K>(public_keys: &PublicKeySet<K>) -> (r: (u32, &K))
    ensures
        (r.0, *r.1) == coordinator_of(public_keys@),
        valid_committee(public_keys@),
        public_keys@.contains_key(r.0),
{
    proof {
        use_type_invariant(public_keys);
    }
    let key = public_keys.signers.get(&0u32).unwrap();
    (0u32, key)
}

/// Coordinator selection is deterministic: key sets that hold the same keys,
/// whether on one member or on two, select the same coordinator with the
/// same key, and that coordinator is a member of the committee.
pub proof fn lemma_coordinator_deterministic<K>(a: PublicKeySet<K>, b: PublicKeySet<K>)
    requires
        valid_committee(a@),
        a@ == b@,
    ensures
        coordinator_of(a@) == coordinator_of(b@),
        a@.contains_key(coordinator_of(a@).0),
{
}

} // verus!
