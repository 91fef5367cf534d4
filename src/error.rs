//! Errors of the verification layer and their classification.
use vstd::prelude::*;
use crate::base_types::AuthorityName;

verus! {

/// What a suspicious response got wrong.
#[derive(Clone, Copy, Debug, PartialEq, Eq, Structural)]
pub enum SuspicionReason {
    /// The signature names another authority than the one queried.
    UnexpectedSigner,
    /// The payload concerns another transaction than the one requested.
    TransactionDigestMismatch,
    /// The effects differ from the effects that were expected.
    EffectsDigestMismatch,
    /// The object returned is not the object requested.
    ObjectIdMismatch,
    /// The checkpoint returned is not the checkpoint requested.
    CheckpointSequenceMismatch,
    /// Checkpoint contents are present or absent against the request.
    CheckpointContentsInconsistent,
}

/// Why a committee could not be formed.
#[derive(Clone, Copy, Debug, PartialEq, Eq, Structural)]
pub enum CommitteeFault {
    NoMembers,
    ZeroStake,
    DuplicateMember,
    StakeOverflow,
}

#[derive(Clone, Debug)]
pub enum SuiError {
    /// The queried authority returned a response that contradicts the request or itself.
    ByzantineAuthoritySuspicion { authority: AuthorityName, reason: SuspicionReason },
    /// No committee is known locally for this epoch.
    MissingCommitteeAtEpoch(u64),
    /// A signature declares another epoch than the committee checked against.
    WrongEpoch { expected_epoch: u64, actual_epoch: u64 },
    /// A signer is not a member of the committee.
    UnknownSigner,
    /// The signer list of a certificate is not strictly increasing or out of range.
    InvalidSignerList,
    /// The signers of a certificate hold less than a quorum of stake.
    CertificateRequiresQuorum,
    /// An authority signature or certificate does not verify.
    InvalidSignature,
    /// The sender's own signature on a transaction does not verify.
    InvalidTransactionSignature,
    /// Checkpoint contents do not hash to the digest that the summary certifies.
    CheckpointContentsDigestMismatch,
    /// A committee info response is for another epoch than requested.
    CommitteeEpochMismatch { requested: u64, returned: u64 },
    /// The committee description is not valid.
    InvalidCommittee(CommitteeFault),
    /// The authority stopped accepting work at the end of its epoch.
    ValidatorHaltedAtEpochEnd,
    /// The system state object could not be found.
    SuiSystemStateNotFound,
    /// The transport failed to obtain a response.
    RpcError(String),
}

impl SuiError {
    pub open spec fn indicates_epoch_change(&self) -> bool {
        self is ValidatorHaltedAtEpochEnd || self is MissingCommitteeAtEpoch
    }

    /// True when the error reflects a local epoch view that is behind the
    /// peer's (a benign race at an epoch boundary) rather than a faulty peer.
    pub fn individual_error_indicates_epoch_change(&self) -> (r: bool)
        ensures
            r == self.indicates_epoch_change(),
    {
        match self {
            SuiError::ValidatorHaltedAtEpochEnd => true,
            SuiError::MissingCommitteeAtEpoch(_) => true,
            _ => false,
        }
    }

    pub open spec fn is_suspicion(&self, authority: Seq<u8>, reason: SuspicionReason) -> bool {
        match self {
            SuiError::ByzantineAuthoritySuspicion { authority: a, reason: r } => a@ == authority
                && *r == reason,
            _ => false,
        }
    }
}

/// The classification that drives the severity of a logged verification error.
pub fn is_benign_epoch_race(err: &SuiError) -> (r: bool)
    ensures
        r == err.indicates_epoch_change(),
{
    err.individual_error_indicates_epoch_change()
}

} // verus!
