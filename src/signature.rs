//! Authority signatures and quorum certificates, checked against a committee.
use vstd::prelude::*;
use crate::base_types::{AuthorityName, Digest};
use crate::committee::{Committee, EpochId, StakeUnit};
use crate::crypto::{
    bls_aggregate_verifies, bls_verifies, copy_bytes, enc_bytes, enc_u64, push_bytes, push_u64,
    verify_bls, verify_bls_aggregate,
};
use crate::error::SuiError;

verus! {

/// The domain of a signed payload: a transaction.
pub const TRANSACTION_SCOPE: u8 = 0;

/// The domain of a signed payload: transaction effects.
pub const EFFECTS_SCOPE: u8 = 1;

/// The domain of a signed payload: a checkpoint summary.
pub const CHECKPOINT_SCOPE: u8 = 2;

/// The bytes that an authority signs for a payload of domain `scope` with
/// digest `digest`, in epoch `epoch`.
pub open spec fn signing_message(scope: u8, digest: Seq<u8>, epoch: EpochId) -> Seq<u8> {
    seq![scope] + enc_bytes(digest) + enc_u64(epoch)
}

pub fn make_signing_message(scope: u8, digest: &Digest, epoch: EpochId) -> (r: Vec<u8>)
    ensures
        r@ == signing_message(scope, digest@, epoch),
{
    let mut out: Vec<u8> = Vec::new();
    out.push(scope);
    push_bytes(&mut out, &digest.bytes);
    push_u64(&mut out, epoch);
    assert(out@ =~= signing_message(scope, digest@, epoch));
    out
}

/// One authority's signature on a payload.
#[derive(Clone, Debug)]
pub struct AuthoritySignInfo {
    pub epoch: EpochId,
    pub authority: AuthorityName,
    pub signature: Vec<u8>,
}

impl AuthoritySignInfo {
    /// The signature declares the committee's epoch, comes from a member, and
    /// is a valid signature of `msg` under that member's key.
    pub open spec fn valid_for(&self, committee: Committee, msg: Seq<u8>) -> bool {
        &&& self.epoch == committee.epoch
        &&& committee.stake_of(self.authority@) is Some
        &&& bls_verifies(self.authority@, msg, self.signature@)
    }

    pub open spec fn failure(&self, committee: Committee, msg: Seq<u8>) -> SuiError {
        if self.epoch != committee.epoch {
            SuiError::WrongEpoch { expected_epoch: committee.epoch, actual_epoch: self.epoch }
        } else if committee.stake_of(self.authority@) is None {
            SuiError::UnknownSigner
        } else {
            SuiError::InvalidSignature
        }
    }

    pub fn verify(&self, committee: &Committee, msg: &Vec<u8>) -> (r: Result<(), SuiError>)
        requires
            committee.wf(),
        ensures
            r is Ok <==> self.valid_for(*committee, msg@),
            r matches Err(e) ==> e == self.failure(*committee, msg@),
    {
        if self.epoch != committee.epoch {
            return Err(SuiError::WrongEpoch { expected_epoch: committee.epoch, actual_epoch: self.epoch });
        }
        if committee.weight(&self.authority).is_none() {
            return Err(SuiError::UnknownSigner);
        }
        if !verify_bls(&self.authority.bytes, msg, &self.signature) {
            return Err(SuiError::InvalidSignature);
        }
        Ok(())
    }
}

/// A signature declaring epoch `e + 1` never verifies against the committee of
/// epoch `e`, whatever the message and whoever signed.
pub proof fn lemma_next_epoch_signature_rejected(sig: AuthoritySignInfo, committee: Committee, msg: Seq<u8>)
    requires
        sig.epoch == committee.epoch + 1,
    ensures
        !sig.valid_for(committee, msg),
        sig.failure(committee, msg) == (SuiError::WrongEpoch {
            expected_epoch: committee.epoch,
            actual_epoch: sig.epoch,
        }),
{
}

/// Signer indices lie in `0..n` and increase strictly, so none repeats.
pub open spec fn signers_valid(signers: Seq<u64>, n: nat) -> bool {
    &&& forall|i: int| 0 <= i < signers.len() ==> signers[i] < n
    &&& forall|i: int| 0 <= i < signers.len() - 1 ==> #[trigger] signers[i] < signers[i + 1]
}

/// The stake held by the members at the indices `signers`.
pub open spec fn signed_stake(members: Seq<(AuthorityName, StakeUnit)>, signers: Seq<u64>) -> nat
    decreases signers.len(),
{
    if signers.len() == 0 {
        0
    } else {
        signed_stake(members, signers.drop_last()) + members[signers.last() as int].1 as nat
    }
}

/// The public keys of the members at the indices `signers`.
pub open spec fn signer_keys(members: Seq<(AuthorityName, StakeUnit)>, signers: Seq<u64>) -> Seq<Seq<u8>> {
    signers.map_values(|i: u64| members[i as int].0@)
}

/// An aggregate signature of a quorum of one epoch's committee; signers are
/// given by their index among the committee's members.
#[derive(Clone, Debug)]
pub struct AuthorityQuorumSignInfo {
    pub epoch: EpochId,
    pub signers: Vec<u64>,
    pub signature: Vec<u8>,
}

impl AuthorityQuorumSignInfo {
    /// The certificate declares the committee's epoch, its signers are distinct
    /// members holding at least a quorum of stake, and the aggregate signature
    /// of `msg` verifies under their keys.
    pub open spec fn valid_for(&self, committee: Committee, msg: Seq<u8>) -> bool {
        &&& self.epoch == committee.epoch
        &&& signers_valid(self.signers@, committee.voting_rights@.len())
        &&& signed_stake(committee.voting_rights@, self.signers@) >= committee.quorum_threshold_spec()
        &&& bls_aggregate_verifies(signer_keys(committee.voting_rights@, self.signers@), msg, self.signature@)
    }

    pub open spec fn failure(&self, committee: Committee, msg: Seq<u8>) -> SuiError {
        if self.epoch != committee.epoch {
            SuiError::WrongEpoch { expected_epoch: committee.epoch, actual_epoch: self.epoch }
        } else if !signers_valid(self.signers@, committee.voting_rights@.len()) {
            SuiError::InvalidSignerList
        } else if signed_stake(committee.voting_rights@, self.signers@) < committee.quorum_threshold_spec() {
            SuiError::CertificateRequiresQuorum
        } else {
            SuiError::InvalidSignature
        }
    }

    pub fn verify(&self, committee: &Committee, msg: &Vec<u8>) -> (r: Result<(), SuiError>)
        requires
            committee.wf(),
        ensures
            r is Ok <==> self.valid_for(*committee, msg@),
            r matches Err(e) ==> e == self.failure(*committee, msg@),
    {
        if self.epoch != committee.epoch {
            return Err(SuiError::WrongEpoch { expected_epoch: committee.epoch, actual_epoch: self.epoch });
        }
        let members = &committee.voting_rights;
        let n = members.len();
        let ghost sv = self.signers@;
        let mut stake: u64 = 0;
        let mut keys: Vec<Vec<u8>> = Vec::new();
        let mut i: usize = 0;
        while i < self.signers.len()
            invariant
                n == members@.len(),
                committee.wf(),
                members == &committee.voting_rights,
                self.epoch == committee.epoch,
                sv == self.signers@,
                i <= sv.len(),
                keys@.len() == i,
                signers_valid(sv.subrange(0, i as int), n as nat),
                stake == (if signed_stake(members@, sv.subrange(0, i as int)) > u64::MAX {
                    u64::MAX as nat
                } else {
                    signed_stake(members@, sv.subrange(0, i as int))
                }),
                keys@.map_values(|k: Vec<u8>| k@) == signer_keys(members@, sv.subrange(0, i as int)),
            decreases sv.len() - i,
        {
            let idx = self.signers[i];
            if idx >= n as u64 || (i > 0 && self.signers[i - 1] >= idx) {
                proof {
                    if idx >= n as u64 {
                        assert(sv[i as int] >= n);
                    } else {
                        let k = i - 1;
                        assert(!(sv[k] < sv[k + 1]));
                    }
                    assert(!signers_valid(sv, n as nat));
                }
                return Err(SuiError::InvalidSignerList);
            }
            let ghost pre = sv.subrange(0, i as int);
            let ghost next = sv.subrange(0, i + 1);
            proof {
                assert(next.drop_last() =~= pre);
                assert(next.last() == idx);
                assert forall|k: int| 0 <= k < next.len() - 1 implies #[trigger] next[k] < next[k + 1] by {
                    if k + 1 < i {
                        assert(pre[k] < pre[k + 1]);
                    }
                }
            }
            stake = stake.saturating_add(members[idx as usize].1);
            let ghost old_keys = keys@;
            let key = copy_bytes(&members[idx as usize].0.bytes);
            keys.push(key);
            proof {
                assert(next =~= pre.push(idx));
                assert forall|j: int| 0 <= j < keys@.len() implies
                    keys@.map_values(|k: Vec<u8>| k@)[j] == signer_keys(members@, next)[j] by {
                    if j < old_keys.len() {
                        assert(keys@[j] == old_keys[j]);
                        assert(old_keys.map_values(|k: Vec<u8>| k@)[j] == signer_keys(members@, pre)[j]);
                    } else {
                        assert(keys@[j] == key);
                        assert(next[j] == idx);
                    }
                }
                assert(keys@.map_values(|k: Vec<u8>| k@) =~= signer_keys(members@, next));
            }
            i = i + 1;
        }
        assert(sv.subrange(0, i as int) =~= sv);
        if stake < committee.quorum_threshold() {
            return Err(SuiError::CertificateRequiresQuorum);
        }
        if !verify_bls_aggregate(&keys, msg, &self.signature) {
            return Err(SuiError::InvalidSignature);
        }
        Ok(())
    }
}

/// A certificate declaring epoch `e + 1` never verifies against the committee
/// of epoch `e`.
pub proof fn lemma_next_epoch_certificate_rejected(cert: AuthorityQuorumSignInfo, committee: Committee, msg: Seq<u8>)
    requires
        cert.epoch == committee.epoch + 1,
    ensures
        !cert.valid_for(committee, msg),
{
}

} // verus!
