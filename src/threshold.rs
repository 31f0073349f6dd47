use vstd::prelude::*;

verus! {

/// Signing threshold for `total_keys` key shares: seven tenths, rounded down.
pub open spec fn signing_threshold_of(total_keys: nat) -> nat {
    total_keys * 7 / 10
}

/// Key-generation threshold for `total_keys` key shares: nine tenths, rounded down.
pub open spec fn dkg_threshold_of(total_keys: nat) -> nat {
    total_keys * 9 / 10
}

/// The committee's thresholds, derived from its size.
#[derive(Clone, Copy, Debug, PartialEq, Eq, Structural)]
pub struct ThresholdConfig {
    /// Key shares that must take part in a signature.
    pub threshold: u32,
    /// Key shares that must take part in key generation.
    pub dkg_threshold: u32,
    /// Members of the committee.
    pub total_signers: u32,
    /// Key shares held across the committee.
    pub total_keys: u32,
}

impl ThresholdConfig {
    /// Thresholds ordered as the protocol needs them.
    pub open spec fn wf(&self) -> bool {
        self.threshold <= self.dkg_threshold <= self.total_keys
    }

    /// Derives the thresholds for a committee of `total_signers` members
    /// holding `total_keys` key shares. The ratios are the protocol's fixed
    /// policy: seven tenths of the key shares sign, nine tenths generate keys.
    pub fn new(total_signers: usize, total_keys: usize) -> (r: Self)
        requires
            total_signers <= u32::MAX,
            total_keys <= u32::MAX,
        ensures
            r.threshold == signing_threshold_of(total_keys as nat),
            r.dkg_threshold == dkg_threshold_of(total_keys as nat),
            r.total_signers == total_signers,
            r.total_keys == total_keys,
            r.wf(),
    {
        proof {
            lemma_thresholds_ordered(total_keys as nat);
        }
        let keys = total_keys as u64;
        let threshold = (keys * 7 / 10) as u32;
        let dkg_threshold = (keys * 9 / 10) as u32;
        ThresholdConfig {
            threshold,
            dkg_threshold,
            total_signers: total_signers as u32,
            total_keys: total_keys as u32,
        }
    }
}

/// For every number of key shares, the signing threshold is at most the
/// key-generation threshold, which is at most the number of key shares.
pub proof fn lemma_thresholds_ordered(total_keys: nat)
    ensures
        signing_threshold_of(total_keys) <= dkg_threshold_of(total_keys) <= total_keys,
{
    assert(total_keys * 7 / 10 <= total_keys * 9 / 10) by (nonlinear_arith);
    assert(total_keys * 9 / 10 <= total_keys) by (nonlinear_arith);
}

/// Key-share identities numbered from `1`, renumbered from `0`; `None` when
/// one of them is `0`.
pub fn zero_based_key_ids(ids: &Vec<u32>) -> (r: Option<Vec<u32>>)
    ensures
        r is Some <==> forall|i: int| 0 <= i < ids@.len() ==> ids@[i] >= 1,
        r matches Some(v) ==> v@ == ids@.map_values(|id: u32| (id - 1) as u32),
{
    let mut out: Vec<u32> = Vec::new();
    let mut i: usize = 0;
    while i < ids.len()
        invariant
            i <= ids@.len(),
            forall|j: int| 0 <= j < i ==> ids@[j] >= 1,
            out@ == ids@.take(i as int).map_values(|id: u32| (id - 1) as u32),
        decreases ids@.len() - i,
    {
        let id = ids[i];
        if id == 0 {
            return None;
        }
        out.push(id - 1);
        proof {
            assert(ids@.take(i + 1) == ids@.take(i as int).push(id));
        }
        i = i + 1;
    }
    proof {
        assert(ids@.take(i as int) == ids@);
    }
    Some(out)
}

} // verus!
