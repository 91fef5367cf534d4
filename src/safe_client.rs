//! The per-authority verifier: every raw response of one authority is checked
//! against the request, the authority's identity and the committee of the
//! epoch that the response declares, before anything of it is handed on.
use vstd::prelude::*;
use std::sync::Arc;
use crate::base_types::{AuthorityName, TransactionDigest, TransactionEffectsDigest};
use crate::committee::{Committee, CommitteeStore, EpochId};
use crate::error::{SuiError, SuspicionReason};
use crate::signature::AuthoritySignInfo;
use crate::messages::{
    effects_digest, transaction_digest, transaction_message, CertifiedTransaction, CommitteeInfoResponse,
    HandleCertificateResponse, ObjectInfoRequest, ObjectInfoResponse, SignedTransaction,
    SignedTransactionEffects, Transaction, TransactionInfoRequest, TransactionInfoResponse,
    TransactionStatus, VerifiedHandleCertificateResponse, VerifiedObjectInfoResponse,
    VerifiedSignedTransactionEffects, VerifiedTransaction, VerifiedTransactionInfoResponse,
};
use crate::messages_checkpoint::{
    CertifiedCheckpointSummary, CheckpointRequest, CheckpointResponse,
    CheckpointSequenceNumber,
};

verus! {

/// A client of one authority that hands on only verified answers.
#[derive(Clone)]
pub struct SafeClient<C> {
    authority_client: C,
    committee_store: Arc<CommitteeStore>,
    address: AuthorityName,
}

/// The checks on signed effects that do not involve a signature.
pub open spec fn effects_fields_ok(
    address: Seq<u8>,
    digest: Seq<u8>,
    se: SignedTransactionEffects,
    expected: Option<Seq<u8>>,
) -> bool {
    &&& se.auth_sig.authority@ == address
    &&& se.effects.transaction_digest@ == digest
    &&& (expected matches Some(d) ==> effects_digest(se.effects) == d)
}

/// The reason for which the field checks on signed effects fail.
pub open spec fn effects_fields_reason(
    address: Seq<u8>,
    digest: Seq<u8>,
    se: SignedTransactionEffects,
) -> SuspicionReason {
    if se.auth_sig.authority@ != address {
        SuspicionReason::UnexpectedSigner
    } else if se.effects.transaction_digest@ != digest {
        SuspicionReason::TransactionDigestMismatch
    } else {
        SuspicionReason::EffectsDigestMismatch
    }
}

/// Contents come back exactly when they were asked for and a checkpoint was found.
pub open spec fn contents_consistent(request_content: bool, has_checkpoint: bool, has_contents: bool) -> bool {
    has_contents == (request_content && has_checkpoint)
}

/// A checkpoint returned for a request of a given sequence number has that number.
pub open spec fn sequence_consistent(expected: Option<CheckpointSequenceNumber>, checkpoint: Option<CertifiedCheckpointSummary>) -> bool {
    match (expected, checkpoint) {
        (Some(e), Some(c)) => c.summary.sequence_number == e,
        _ => true,
    }
}

/// The transaction that a verified status answer is about.
pub open spec fn embedded_transaction(v: VerifiedTransactionInfoResponse) -> Transaction {
    match v {
        VerifiedTransactionInfoResponse::Signed(s) => s.data_spec().transaction,
        VerifiedTransactionInfoResponse::ExecutedWithCert(c, _) => c.data_spec().transaction,
        VerifiedTransactionInfoResponse::ExecutedWithoutCert(t, _) => t.data_spec(),
    }
}

impl<C> SafeClient<C> {
    /// The name of the authority this client talks to.
    pub closed spec fn address_spec(&self) -> Seq<u8> {
        self.address@
    }

    /// The committees this client checks against.
    pub closed spec fn store_spec(&self) -> CommitteeStore {
        *self.committee_store
    }

    pub open spec fn wf(&self) -> bool {
        self.store_spec().wf()
    }

    /// What `check_signed_effects` accepts: the effects are signed by the
    /// queried authority, concern transaction `digest`, have the expected
    /// digest if one is given, and verify under the committee of their epoch.
    pub open spec fn signed_effects_ok(&self, digest: Seq<u8>, se: SignedTransactionEffects, expected: Option<Seq<u8>>) -> bool {
        &&& effects_fields_ok(self.address_spec(), digest, se, expected)
        &&& self.store_spec().has_epoch(se.auth_sig.epoch)
        &&& se.valid_for(self.store_spec().committee_at(se.auth_sig.epoch))
    }

    pub open spec fn signed_effects_error(&self, digest: Seq<u8>, se: SignedTransactionEffects, expected: Option<Seq<u8>>, e: SuiError) -> bool {
        if !effects_fields_ok(self.address_spec(), digest, se, expected) {
            e.is_suspicion(self.address_spec(), effects_fields_reason(self.address_spec(), digest, se))
        } else if !self.store_spec().has_epoch(se.auth_sig.epoch) {
            e == SuiError::MissingCommitteeAtEpoch(se.auth_sig.epoch)
        } else {
            let c = self.store_spec().committee_at(se.auth_sig.epoch);
            e == se.auth_sig.failure(c, crate::messages::effects_message(se.effects, se.auth_sig.epoch))
        }
    }

    /// What `check_transaction_info` accepts.
    pub open spec fn transaction_info_ok(&self, digest: Seq<u8>, tx: Transaction, status: TransactionStatus) -> bool {
        &&& transaction_digest(tx.data) == digest
        &&& match status {
            TransactionStatus::Signed(sig) => {
                &&& sig.authority@ == self.address_spec()
                &&& self.store_spec().has_epoch(sig.epoch)
                &&& (SignedTransaction { transaction: tx, auth_sig: sig }).valid_for(
                    self.store_spec().committee_at(sig.epoch),
                )
            },
            TransactionStatus::Executed(cert, se) => {
                &&& self.signed_effects_ok(digest, se, None)
                &&& (cert matches Some(c) ==> {
                    &&& self.store_spec().has_epoch(c.epoch)
                    &&& (CertifiedTransaction { transaction: tx, auth_sig: c }).valid_for(
                        self.store_spec().committee_at(c.epoch),
                    )
                })
            },
        }
    }

    /// The error that `check_transaction_info` returns when it rejects.
    pub open spec fn transaction_info_error(&self, digest: Seq<u8>, tx: Transaction, status: TransactionStatus, e: SuiError) -> bool {
        if transaction_digest(tx.data) != digest {
            e.is_suspicion(self.address_spec(), SuspicionReason::TransactionDigestMismatch)
        } else {
            match status {
                TransactionStatus::Signed(sig) => if sig.authority@ != self.address_spec() {
                    e.is_suspicion(self.address_spec(), SuspicionReason::UnexpectedSigner)
                } else if !self.store_spec().has_epoch(sig.epoch) {
                    e == SuiError::MissingCommitteeAtEpoch(sig.epoch)
                } else {
                    e == sig.failure(self.store_spec().committee_at(sig.epoch), transaction_message(tx, sig.epoch))
                },
                TransactionStatus::Executed(cert, se) => if !self.signed_effects_ok(digest, se, None) {
                    self.signed_effects_error(digest, se, None, e)
                } else {
                    match cert {
                        Some(c) => if !self.store_spec().has_epoch(c.epoch) {
                            e == SuiError::MissingCommitteeAtEpoch(c.epoch)
                        } else {
                            e == c.failure(self.store_spec().committee_at(c.epoch), transaction_message(tx, c.epoch))
                        },
                        None => false,
                    }
                },
            }
        }
    }

    /// The verified answer carries exactly the transaction and status it was made of.
    pub open spec fn transaction_info_result(tx: Transaction, status: TransactionStatus, v: VerifiedTransactionInfoResponse) -> bool {
        match status {
            TransactionStatus::Signed(sig) => v matches VerifiedTransactionInfoResponse::Signed(s)
                && s.data_spec() == (SignedTransaction { transaction: tx, auth_sig: sig }),
            TransactionStatus::Executed(Some(c), se) => v matches VerifiedTransactionInfoResponse::ExecutedWithCert(ct, e)
                && ct.data_spec() == (CertifiedTransaction { transaction: tx, auth_sig: c })
                && e.data_spec() == se,
            TransactionStatus::Executed(None, se) => v matches VerifiedTransactionInfoResponse::ExecutedWithoutCert(t, e)
                && t.data_spec() == tx && e.data_spec() == se,
        }
    }

    pub fn new(authority_client: C, committee_store: Arc<CommitteeStore>, address: AuthorityName) -> (r: SafeClient<C>)
        ensures
            r.address_spec() == address@,
            r.store_spec() == *committee_store,
    {
        SafeClient { authority_client, committee_store, address }
    }

    pub fn authority_client(&self) -> &C {
        &self.authority_client
    }

    pub fn authority_client_mut(&mut self) -> &mut C {
        &mut self.authority_client
    }

    pub fn address(&self) -> (r: &AuthorityName)
        ensures
            r@ == self.address_spec(),
    {
        &self.address
    }

    pub fn committee_store(&self) -> (r: &CommitteeStore)
        ensures
            *r == self.store_spec(),
    {
        &self.committee_store
    }

    /// The committee of `epoch`; its absence is a gap in local knowledge, not
    /// a fault of the authority.
    fn get_committee(&self, epoch: EpochId) -> (r: Result<&Committee, SuiError>)
        requires
            self.wf(),
        ensures
            r is Ok <==> self.store_spec().has_epoch(epoch),
            r matches Ok(c) ==> *c == self.store_spec().committee_at(epoch) && c.epoch == epoch && c.wf(),
            r matches Err(e) ==> e == SuiError::MissingCommitteeAtEpoch(epoch),
    {
        self.committee_store.get_committee(epoch)
    }

    fn suspicion(&self, reason: SuspicionReason) -> (e: SuiError)
        ensures
            e.is_suspicion(self.address_spec(), reason),
    {
        SuiError::ByzantineAuthoritySuspicion { authority: self.address.duplicate(), reason }
    }

    /// Checks effects signed by the queried authority for transaction `digest`,
    /// and, when one is given, that the effects have the expected digest.
    pub fn check_signed_effects(
        &self,
        digest: &TransactionDigest,
        signed_effects: SignedTransactionEffects,
        expected_effects_digest: Option<&TransactionEffectsDigest>,
    ) -> (r: Result<VerifiedSignedTransactionEffects, SuiError>)
        requires
            self.wf(),
        ensures
            r is Ok <==> self.signed_effects_ok(digest@, signed_effects,
                match expected_effects_digest { Some(d) => Some(d@), None => None }),
            r matches Ok(v) ==> v.data_spec() == signed_effects,
            r matches Err(e) ==> self.signed_effects_error(digest@, signed_effects,
                match expected_effects_digest { Some(d) => Some(d@), None => None }, e),
    {
        if !signed_effects.auth_sig.authority.same_as(&self.address) {
            return Err(self.suspicion(SuspicionReason::UnexpectedSigner));
        }
        if !signed_effects.effects.transaction_digest.same_as(digest) {
            return Err(self.suspicion(SuspicionReason::TransactionDigestMismatch));
        }
        if let Some(effects_digest) = expected_effects_digest {
            if !signed_effects.digest().same_as(effects_digest) {
                return Err(self.suspicion(SuspicionReason::EffectsDigestMismatch));
            }
        }
        let committee = self.get_committee(signed_effects.epoch())?;
        signed_effects.verify(committee)
    }

    /// Checks an authority's status report on `transaction`, which was asked
    /// for under `digest`.
    pub fn check_transaction_info(
        &self,
        digest: &TransactionDigest,
        transaction: VerifiedTransaction,
        status: TransactionStatus,
    ) -> (r: Result<VerifiedTransactionInfoResponse, SuiError>)
        requires
            self.wf(),
        ensures
            r is Ok <==> self.transaction_info_ok(digest@, transaction.data_spec(), status),
            r matches Ok(v) ==> Self::transaction_info_result(transaction.data_spec(), status, v),
            r matches Err(e) ==> self.transaction_info_error(digest@, transaction.data_spec(), status, e),
    {
        if !digest.same_as(&transaction.data().digest()) {
            return Err(self.suspicion(SuspicionReason::TransactionDigestMismatch));
        }
        match status {
            TransactionStatus::Signed(signed) => {
                if !signed.authority.same_as(&self.address) {
                    return Err(self.suspicion(SuspicionReason::UnexpectedSigner));
                }
                let committee = self.get_committee(signed.epoch)?;
                let verified = SignedTransaction::new_from_data_and_sig(transaction.into_inner(), signed).verify(committee)?;
                Ok(VerifiedTransactionInfoResponse::Signed(verified))
            },
            TransactionStatus::Executed(cert_opt, effects) => {
                let signed_effects = self.check_signed_effects(digest, effects, None)?;
                match cert_opt {
                    Some(cert) => {
                        let committee = self.get_committee(cert.epoch)?;
                        let verified = CertifiedTransaction::new_from_data_and_sig(transaction.into_inner(), cert).verify(committee)?;
                        Ok(VerifiedTransactionInfoResponse::ExecutedWithCert(verified, signed_effects))
                    },
                    None => Ok(VerifiedTransactionInfoResponse::ExecutedWithoutCert(transaction, signed_effects)),
                }
            },
        }
    }

    /// Checks the effects that the authority returned for certificate `digest`.
    pub fn verify_certificate_response(
        &self,
        digest: &TransactionDigest,
        response: HandleCertificateResponse,
    ) -> (r: Result<VerifiedHandleCertificateResponse, SuiError>)
        requires
            self.wf(),
        ensures
            r is Ok <==> self.signed_effects_ok(digest@, response.signed_effects, None),
            r matches Ok(v) ==> v.signed_effects.data_spec() == response.signed_effects,
            r matches Err(e) ==> self.signed_effects_error(digest@, response.signed_effects, None, e),
    {
        let signed_effects = self.check_signed_effects(digest, response.signed_effects, None)?;
        Ok(VerifiedHandleCertificateResponse { signed_effects })
    }

    /// Checks that the object returned is the object requested. The object's
    /// own contents are not checked here.
    pub fn check_object_response(
        &self,
        request: &ObjectInfoRequest,
        response: ObjectInfoResponse,
    ) -> (r: Result<VerifiedObjectInfoResponse, SuiError>)
        ensures
            r is Ok <==> response.object.id@ == request.object_id@,
            r matches Ok(v) ==> v.object == response.object,
            r matches Err(e) ==> e.is_suspicion(self.address_spec(), SuspicionReason::ObjectIdMismatch),
    {
        let ObjectInfoResponse { object, layout: _, lock_for_debugging: _ } = response;
        if !request.object_id.same_as(object.id()) {
            return Err(self.suspicion(SuspicionReason::ObjectIdMismatch));
        }
        Ok(VerifiedObjectInfoResponse { object })
    }

    /// Checks the transaction that the authority returned for a request by
    /// digest: first the sender's own signature, then as `check_transaction_info`.
    pub fn verify_transaction_info_response(
        &self,
        request: &TransactionInfoRequest,
        response: TransactionInfoResponse,
    ) -> (r: Result<VerifiedTransactionInfoResponse, SuiError>)
        requires
            self.wf(),
        ensures
            r is Ok <==> response.transaction.sender_signed()
                && self.transaction_info_ok(request.transaction_digest@, response.transaction, response.status),
            r matches Ok(v) ==> Self::transaction_info_result(response.transaction, response.status, v),
            r matches Err(e) ==> if !response.transaction.sender_signed() {
                e == SuiError::InvalidTransactionSignature
            } else {
                self.transaction_info_error(request.transaction_digest@, response.transaction, response.status, e)
            },
    {
        let verified_tx = response.transaction.verify()?;
        self.check_transaction_info(&request.transaction_digest, verified_tx, response.status)
    }

    /// Checks that a committee info response is for the epoch requested, if one was.
    pub fn verify_committee_info_response(
        &self,
        requested_epoch: Option<EpochId>,
        committee_info: &CommitteeInfoResponse,
    ) -> (r: Result<(), SuiError>)
        ensures
            r is Ok <==> (requested_epoch matches Some(e) ==> committee_info.epoch == e),
            r matches Err(e) ==> e == (SuiError::CommitteeEpochMismatch {
                requested: requested_epoch->Some_0,
                returned: committee_info.epoch,
            }),
    {
        if let Some(epoch) = requested_epoch {
            if committee_info.epoch != epoch {
                return Err(SuiError::CommitteeEpochMismatch { requested: epoch, returned: committee_info.epoch });
            }
        }
        Ok(())
    }

    /// Checks that a checkpoint returned for a numbered request has that number.
    pub fn verify_checkpoint_sequence(
        &self,
        expected_seq: Option<CheckpointSequenceNumber>,
        checkpoint: &Option<CertifiedCheckpointSummary>,
    ) -> (r: Result<(), SuiError>)
        ensures
            r is Ok <==> sequence_consistent(expected_seq, *checkpoint),
            r matches Err(e) ==> e.is_suspicion(self.address_spec(), SuspicionReason::CheckpointSequenceMismatch),
    {
        match (expected_seq, checkpoint) {
            (Some(e), Some(c)) => {
                if e != c.summary().sequence_number {
                    return Err(self.suspicion(SuspicionReason::CheckpointSequenceMismatch));
                }
                Ok(())
            },
            _ => Ok(()),
        }
    }

    /// Checks that contents are present exactly when they were requested and a
    /// checkpoint was found.
    pub fn verify_contents_exist<T, O>(
        &self,
        request_content: bool,
        checkpoint: &Option<T>,
        contents: &Option<O>,
    ) -> (r: Result<(), SuiError>)
        ensures
            r is Ok <==> contents_consistent(request_content, checkpoint is Some, contents is Some),
            r matches Err(e) ==> e.is_suspicion(self.address_spec(), SuspicionReason::CheckpointContentsInconsistent),
    {
        match (request_content, checkpoint, contents) {
            (true, Some(_), None) | (false, _, Some(_)) | (_, None, Some(_)) => Err(
                self.suspicion(SuspicionReason::CheckpointContentsInconsistent),
            ),
            _ => Ok(()),
        }
    }

    /// What `verify_checkpoint_response` accepts.
    pub open spec fn checkpoint_response_ok(&self, request: CheckpointRequest, response: CheckpointResponse) -> bool {
        &&& sequence_consistent(request.sequence_number, response.checkpoint)
        &&& contents_consistent(request.request_content, response.checkpoint is Some, response.contents is Some)
        &&& (response.checkpoint matches Some(c) ==> {
            &&& self.store_spec().has_epoch(c.summary.epoch)
            &&& c.valid_for(self.store_spec().committee_at(c.summary.epoch), response.contents)
        })
    }

    /// Checks a checkpoint response against its request and, when it holds a
    /// checkpoint, the certificate against the committee of the checkpoint's epoch.
    pub fn verify_checkpoint_response(
        &self,
        request: &CheckpointRequest,
        response: &CheckpointResponse,
    ) -> (r: Result<(), SuiError>)
        requires
            self.wf(),
        ensures
            r is Ok <==> self.checkpoint_response_ok(*request, *response),
            r matches Err(e) ==> if !sequence_consistent(request.sequence_number, response.checkpoint) {
                e.is_suspicion(self.address_spec(), SuspicionReason::CheckpointSequenceMismatch)
            } else if !contents_consistent(request.request_content, response.checkpoint is Some, response.contents is Some) {
                e.is_suspicion(self.address_spec(), SuspicionReason::CheckpointContentsInconsistent)
            } else if !self.store_spec().has_epoch(response.checkpoint->Some_0.summary.epoch) {
                e == SuiError::MissingCommitteeAtEpoch(response.checkpoint->Some_0.summary.epoch)
            } else {
                e == response.checkpoint->Some_0.failure(
                    self.store_spec().committee_at(response.checkpoint->Some_0.summary.epoch),
                )
            },
    {
        let CheckpointResponse { checkpoint, contents } = response;
        self.verify_checkpoint_sequence(request.sequence_number, checkpoint)?;
        self.verify_contents_exist(request.request_content, checkpoint, contents)?;
        match checkpoint {
            Some(c) => {
                let committee = self.get_committee(c.summary().epoch)?;
                c.verify(committee, contents.as_ref())
            },
            None => Ok(()),
        }
    }
}

/// A verified status answer is about the transaction that was asked for: its
/// digest is the requested digest, and so is the digest that its effects name.
pub proof fn lemma_digest_fidelity<C>(
    client: SafeClient<C>,
    digest: Seq<u8>,
    tx: Transaction,
    status: TransactionStatus,
    v: VerifiedTransactionInfoResponse,
)
    requires
        client.transaction_info_ok(digest, tx, status),
        SafeClient::<C>::transaction_info_result(tx, status, v),
    ensures
        transaction_digest(embedded_transaction(v).data) == digest,
        v matches VerifiedTransactionInfoResponse::ExecutedWithCert(_, e) ==> e.data_spec().effects.transaction_digest@ == digest,
        v matches VerifiedTransactionInfoResponse::ExecutedWithoutCert(_, e) ==> e.data_spec().effects.transaction_digest@ == digest,
{
}

/// A vote or effects signed by any authority other than the one queried is
/// rejected as a suspicion of that authority, whatever the signature.
pub proof fn lemma_identity_fidelity<C>(
    client: SafeClient<C>,
    digest: Seq<u8>,
    tx: Transaction,
    status: TransactionStatus,
    e: SuiError,
)
    requires
        match status {
            TransactionStatus::Signed(sig) => sig.authority@ != client.address_spec(),
            TransactionStatus::Executed(_, se) => se.auth_sig.authority@ != client.address_spec(),
        },
        client.transaction_info_error(digest, tx, status, e),
    ensures
        !client.transaction_info_ok(digest, tx, status),
        e is ByzantineAuthoritySuspicion,
{
}

/// Signed effects from another authority than the one queried are rejected
/// as a suspicion of that authority.
pub proof fn lemma_effects_identity_fidelity<C>(
    client: SafeClient<C>,
    digest: Seq<u8>,
    se: SignedTransactionEffects,
    expected: Option<Seq<u8>>,
    e: SuiError,
)
    requires
        se.auth_sig.authority@ != client.address_spec(),
        client.signed_effects_error(digest, se, expected, e),
    ensures
        !client.signed_effects_ok(digest, se, expected),
        e.is_suspicion(client.address_spec(), SuspicionReason::UnexpectedSigner),
{
}

/// Contents without a checkpoint, missing contents that were requested, and
/// contents that were not requested are each rejected.
pub proof fn lemma_checkpoint_contents_consistency<C>(
    client: SafeClient<C>,
    request: CheckpointRequest,
    response: CheckpointResponse,
)
    requires
        (response.checkpoint is None && response.contents is Some)
            || (request.request_content && response.checkpoint is Some && response.contents is None)
            || (!request.request_content && response.contents is Some),
    ensures
        !client.checkpoint_response_ok(request, response),
{
}

/// An honest vote, signed by the queried authority under the committee of the
/// epoch it declares, on the transaction that was asked for, is accepted, and
/// the verified answer holds exactly that transaction and signature.
pub proof fn lemma_honest_vote_accepted<C>(
    client: SafeClient<C>,
    tx: Transaction,
    sig: AuthoritySignInfo,
)
    requires
        sig.authority@ == client.address_spec(),
        client.store_spec().has_epoch(sig.epoch),
        sig.valid_for(client.store_spec().committee_at(sig.epoch), transaction_message(tx, sig.epoch)),
    ensures
        client.transaction_info_ok(transaction_digest(tx.data), tx, TransactionStatus::Signed(sig)),
        forall|v: VerifiedTransactionInfoResponse|
            SafeClient::<C>::transaction_info_result(tx, TransactionStatus::Signed(sig), v)
                ==> (v matches VerifiedTransactionInfoResponse::Signed(s)
                && s.data_spec().transaction == tx && s.data_spec().auth_sig == sig),
{
}

/// Honest effects, signed by the queried authority under the committee of the
/// epoch they declare, for the transaction that was asked for, are accepted.
pub proof fn lemma_honest_effects_accepted<C>(
    client: SafeClient<C>,
    se: SignedTransactionEffects,
)
    requires
        se.auth_sig.authority@ == client.address_spec(),
        client.store_spec().has_epoch(se.auth_sig.epoch),
        se.valid_for(client.store_spec().committee_at(se.auth_sig.epoch)),
    ensures
        client.signed_effects_ok(se.effects.transaction_digest@, se, None),
        client.signed_effects_ok(se.effects.transaction_digest@, se, Some(effects_digest(se.effects))),
{
}

/// An honest checkpoint, certified under the committee of its epoch and sent
/// with exactly the contents it certifies when they were asked for, is accepted.
pub proof fn lemma_honest_checkpoint_accepted<C>(
    client: SafeClient<C>,
    request: CheckpointRequest,
    response: CheckpointResponse,
)
    requires
        (response.checkpoint matches Some(c) && client.store_spec().has_epoch(c.summary.epoch)
            && c.valid_for(client.store_spec().committee_at(c.summary.epoch), response.contents)
            && (request.sequence_number matches Some(n) ==> c.summary.sequence_number == n)),
        response.contents is Some == request.request_content,
    ensures
        client.checkpoint_response_ok(request, response),
{
}

} // verus!
