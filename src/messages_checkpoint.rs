//! Checkpoints: certified summaries of ledger state, with optional contents.
use vstd::prelude::*;
use crate::base_types::{CheckpointContentsDigest, Digest};
use crate::committee::{Committee, EpochId};
use crate::crypto::{enc_bytes, enc_u64, hash_sha3_256, push_bytes, push_u64, sha3_256};
use crate::error::SuiError;
use crate::signature::{make_signing_message, signing_message, AuthorityQuorumSignInfo, CHECKPOINT_SCOPE};

verus! {

pub type CheckpointSequenceNumber = u64;

#[derive(Clone, Debug)]
pub struct CheckpointSummary {
    pub epoch: EpochId,
    pub sequence_number: CheckpointSequenceNumber,
    pub content_digest: CheckpointContentsDigest,
    pub timestamp_ms: u64,
}

pub open spec fn enc_summary(s: CheckpointSummary) -> Seq<u8> {
    enc_u64(s.epoch) + enc_u64(s.sequence_number) + enc_bytes(s.content_digest@) + enc_u64(s.timestamp_ms)
}

pub open spec fn summary_digest(s: CheckpointSummary) -> Seq<u8> {
    sha3_256(enc_summary(s))
}

impl CheckpointSummary {
    pub fn encode(&self) -> (r: Vec<u8>)
        ensures
            r@ == enc_summary(*self),
    {
        let mut out: Vec<u8> = Vec::new();
        push_u64(&mut out, self.epoch);
        push_u64(&mut out, self.sequence_number);
        push_bytes(&mut out, &self.content_digest.bytes);
        push_u64(&mut out, self.timestamp_ms);
        assert(out@ =~= enc_summary(*self));
        out
    }

    pub fn digest(&self) -> (r: Digest)
        ensures
            r@ == summary_digest(*self),
    {
        Digest { bytes: hash_sha3_256(&self.encode()) }
    }
}

/// The transactions that a checkpoint covers, by digest.
#[derive(Clone, Debug)]
pub struct CheckpointContents {
    pub transactions: Vec<Digest>,
}

/// The concatenated, length-prefixed digests of `ds`.
pub open spec fn enc_digests(ds: Seq<Digest>) -> Seq<u8>
    decreases ds.len(),
{
    if ds.len() == 0 {
        Seq::empty()
    } else {
        enc_digests(ds.drop_last()) + enc_bytes(ds.last()@)
    }
}

pub open spec fn enc_contents(c: CheckpointContents) -> Seq<u8> {
    enc_u64(c.transactions@.len() as u64) + enc_digests(c.transactions@)
}

pub open spec fn contents_digest(c: CheckpointContents) -> Seq<u8> {
    sha3_256(enc_contents(c))
}

impl CheckpointContents {
    pub fn encode(&self) -> (r: Vec<u8>)
        ensures
            r@ == enc_contents(*self),
    {
        let mut out: Vec<u8> = Vec::new();
        push_u64(&mut out, self.transactions.len() as u64);
        let ghost head = out@;
        let mut i: usize = 0;
        while i < self.transactions.len()
            invariant
                i <= self.transactions@.len(),
                head == enc_u64(self.transactions@.len() as u64),
                out@ == head + enc_digests(self.transactions@.subrange(0, i as int)),
            decreases self.transactions@.len() - i,
        {
            push_bytes(&mut out, &self.transactions[i].bytes);
            proof {
                let next = self.transactions@.subrange(0, i + 1);
                assert(next.drop_last() =~= self.transactions@.subrange(0, i as int));
                assert(out@ =~= head + enc_digests(next));
            }
            i = i + 1;
        }
        assert(self.transactions@.subrange(0, i as int) =~= self.transactions@);
        out
    }

    pub fn digest(&self) -> (r: Digest)
        ensures
            r@ == contents_digest(*self),
    {
        Digest { bytes: hash_sha3_256(&self.encode()) }
    }
}

/// The bytes that a quorum signs to certify summary `s` in `epoch`.
pub open spec fn checkpoint_message(s: CheckpointSummary, epoch: EpochId) -> Seq<u8> {
    signing_message(CHECKPOINT_SCOPE, summary_digest(s), epoch)
}

#[derive(Clone, Debug)]
pub struct CertifiedCheckpointSummary {
    pub summary: CheckpointSummary,
    pub auth_sig: AuthorityQuorumSignInfo,
}

impl CertifiedCheckpointSummary {
    pub fn summary(&self) -> (r: &CheckpointSummary)
        ensures
            *r == self.summary,
    {
        &self.summary
    }

    /// The certificate verifies against `committee`, and the contents, if
    /// given, are those that the summary certifies.
    pub open spec fn valid_for(&self, committee: Committee, contents: Option<CheckpointContents>) -> bool {
        &&& self.auth_sig.valid_for(committee, checkpoint_message(self.summary, self.auth_sig.epoch))
        &&& (contents matches Some(c) ==> contents_digest(c) == self.summary.content_digest@)
    }

    /// The error with which `verify` rejects.
    pub open spec fn failure(&self, committee: Committee) -> SuiError {
        if !self.auth_sig.valid_for(committee, checkpoint_message(self.summary, self.auth_sig.epoch)) {
            self.auth_sig.failure(committee, checkpoint_message(self.summary, self.auth_sig.epoch))
        } else {
            SuiError::CheckpointContentsDigestMismatch
        }
    }

    pub fn verify(&self, committee: &Committee, contents: Option<&CheckpointContents>) -> (r: Result<(), SuiError>)
        requires
            committee.wf(),
        ensures
            r is Ok <==> self.valid_for(*committee, match contents { Some(c) => Some(*c), None => None }),
            r matches Err(e) ==> e == self.failure(*committee),
    {
        let digest = self.summary.digest();
        let msg = make_signing_message(CHECKPOINT_SCOPE, &digest, self.auth_sig.epoch);
        match self.auth_sig.verify(committee, &msg) {
            Ok(()) => {},
            Err(e) => {
                return Err(e);
            },
        }
        match contents {
            Some(c) => {
                if !c.digest().same_as(&self.summary.content_digest) {
                    return Err(SuiError::CheckpointContentsDigestMismatch);
                }
            },
            None => {},
        }
        Ok(())
    }
}

#[derive(Clone, Debug)]
pub struct CheckpointRequest {
    /// The checkpoint wanted; the latest one when `None`.
    pub sequence_number: Option<CheckpointSequenceNumber>,
    /// Whether the contents should come with the summary.
    pub request_content: bool,
}

#[derive(Clone, Debug)]
pub struct CheckpointResponse {
    pub checkpoint: Option<CertifiedCheckpointSummary>,
    pub contents: Option<CheckpointContents>,
}

} // verus!
