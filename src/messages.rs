//! Transactions, effects, certificates and the request/response values that
//! pass between a client and one authority.
use vstd::prelude::*;
use crate::base_types::{AuthorityName, Digest, ObjectID, TransactionDigest};
use crate::committee::{Committee, EpochId, StakeUnit};
use crate::crypto::{
    ed25519_verifies, enc_bool, enc_bytes, enc_u64, hash_sha3_256, push_bool, push_bytes, push_u64,
    sha3_256, verify_ed25519,
};
use crate::error::SuiError;
use crate::signature::{
    make_signing_message, signing_message, AuthorityQuorumSignInfo, AuthoritySignInfo,
    EFFECTS_SCOPE, TRANSACTION_SCOPE,
};

verus! {

/// A value that has passed verification; only this crate makes one.
#[derive(Clone, Debug)]
pub struct Verified<T> {
    inner: T,
}

impl<T> Verified<T> {
    pub closed spec fn data_spec(&self) -> T {
        self.inner
    }

    pub(crate) fn new_from_verified(inner: T) -> (r: Verified<T>)
        ensures
            r.data_spec() == inner,
    {
        Verified { inner }
    }

    pub fn data(&self) -> (r: &T)
        ensures
            *r == self.data_spec(),
    {
        &self.inner
    }

    pub fn into_inner(self) -> (r: T)
        ensures
            r == self.data_spec(),
    {
        self.inner
    }
}

/// What a sender asks the ledger to do.
#[derive(Clone, Debug)]
pub struct TransactionData {
    /// The sender's Ed25519 public key.
    pub sender: Vec<u8>,
    pub gas_budget: u64,
    pub payload: Vec<u8>,
}

pub open spec fn enc_transaction_data(d: TransactionData) -> Seq<u8> {
    enc_bytes(d.sender@) + enc_u64(d.gas_budget) + enc_bytes(d.payload@)
}

/// The digest that names a transaction.
pub open spec fn transaction_digest(d: TransactionData) -> Seq<u8> {
    sha3_256(enc_transaction_data(d))
}

impl TransactionData {
    pub fn encode(&self) -> (r: Vec<u8>)
        ensures
            r@ == enc_transaction_data(*self),
    {
        let mut out: Vec<u8> = Vec::new();
        push_bytes(&mut out, &self.sender);
        push_u64(&mut out, self.gas_budget);
        push_bytes(&mut out, &self.payload);
        assert(out@ =~= enc_transaction_data(*self));
        out
    }

    pub fn digest(&self) -> (r: TransactionDigest)
        ensures
            r@ == transaction_digest(*self),
    {
        Digest { bytes: hash_sha3_256(&self.encode()) }
    }
}

/// Transaction data with the sender's signature over its encoding.
#[derive(Clone, Debug)]
pub struct Transaction {
    pub data: TransactionData,
    pub tx_signature: Vec<u8>,
}

pub type VerifiedTransaction = Verified<Transaction>;

impl Transaction {
    pub open spec fn sender_signed(&self) -> bool {
        ed25519_verifies(self.data.sender@, enc_transaction_data(self.data), self.tx_signature@)
    }

    /// Checks the sender's own signature.
    pub fn verify(self) -> (r: Result<VerifiedTransaction, SuiError>)
        ensures
            r is Ok <==> self.sender_signed(),
            r matches Ok(v) ==> v.data_spec() == self,
            r matches Err(e) ==> e == SuiError::InvalidTransactionSignature,
    {
        let msg = self.data.encode();
        if verify_ed25519(&self.data.sender, &msg, &self.tx_signature) {
            Ok(Verified::new_from_verified(self))
        } else {
            Err(SuiError::InvalidTransactionSignature)
        }
    }

    pub fn digest(&self) -> (r: TransactionDigest)
        ensures
            r@ == transaction_digest(self.data),
    {
        self.data.digest()
    }
}

/// The bytes that an authority signs to vote for transaction `t` in `epoch`.
pub open spec fn transaction_message(t: Transaction, epoch: EpochId) -> Seq<u8> {
    signing_message(TRANSACTION_SCOPE, transaction_digest(t.data), epoch)
}

/// A transaction with one authority's vote.
#[derive(Clone, Debug)]
pub struct SignedTransaction {
    pub transaction: Transaction,
    pub auth_sig: AuthoritySignInfo,
}

pub type VerifiedSignedTransaction = Verified<SignedTransaction>;

impl SignedTransaction {
    pub fn new_from_data_and_sig(transaction: Transaction, auth_sig: AuthoritySignInfo) -> (r: SignedTransaction)
        ensures
            r == (SignedTransaction { transaction, auth_sig }),
    {
        SignedTransaction { transaction, auth_sig }
    }

    pub open spec fn valid_for(&self, committee: Committee) -> bool {
        self.auth_sig.valid_for(committee, transaction_message(self.transaction, self.auth_sig.epoch))
    }

    pub fn verify(self, committee: &Committee) -> (r: Result<VerifiedSignedTransaction, SuiError>)
        requires
            committee.wf(),
        ensures
            r is Ok <==> self.valid_for(*committee),
            r matches Ok(v) ==> v.data_spec() == self,
            r matches Err(e) ==> e == self.auth_sig.failure(*committee, transaction_message(self.transaction, self.auth_sig.epoch)),
    {
        let digest = self.transaction.digest();
        let msg = make_signing_message(TRANSACTION_SCOPE, &digest, self.auth_sig.epoch);
        match self.auth_sig.verify(committee, &msg) {
            Ok(()) => Ok(Verified::new_from_verified(self)),
            Err(e) => Err(e),
        }
    }
}

/// A transaction certified by a quorum of one epoch's committee.
#[derive(Clone, Debug)]
pub struct CertifiedTransaction {
    pub transaction: Transaction,
    pub auth_sig: AuthorityQuorumSignInfo,
}

pub type VerifiedCertificate = Verified<CertifiedTransaction>;

impl CertifiedTransaction {
    pub fn new_from_data_and_sig(transaction: Transaction, auth_sig: AuthorityQuorumSignInfo) -> (r: CertifiedTransaction)
        ensures
            r == (CertifiedTransaction { transaction, auth_sig }),
    {
        CertifiedTransaction { transaction, auth_sig }
    }

    pub open spec fn valid_for(&self, committee: Committee) -> bool {
        self.auth_sig.valid_for(committee, transaction_message(self.transaction, self.auth_sig.epoch))
    }

    pub fn digest(&self) -> (r: TransactionDigest)
        ensures
            r@ == transaction_digest(self.transaction.data),
    {
        self.transaction.digest()
    }

    pub fn verify(self, committee: &Committee) -> (r: Result<VerifiedCertificate, SuiError>)
        requires
            committee.wf(),
        ensures
            r is Ok <==> self.valid_for(*committee),
            r matches Ok(v) ==> v.data_spec() == self,
            r matches Err(e) ==> e == self.auth_sig.failure(*committee, transaction_message(self.transaction, self.auth_sig.epoch)),
    {
        let digest = self.transaction.digest();
        let msg = make_signing_message(TRANSACTION_SCOPE, &digest, self.auth_sig.epoch);
        match self.auth_sig.verify(committee, &msg) {
            Ok(()) => Ok(Verified::new_from_verified(self)),
            Err(e) => Err(e),
        }
    }
}

/// What executing a transaction did.
#[derive(Clone, Debug)]
pub struct TransactionEffects {
    pub transaction_digest: TransactionDigest,
    pub success: bool,
    pub gas_used: u64,
    pub executed_epoch: EpochId,
}

pub open spec fn enc_effects(e: TransactionEffects) -> Seq<u8> {
    enc_bytes(e.transaction_digest@) + enc_bool(e.success) + enc_u64(e.gas_used) + enc_u64(e.executed_epoch)
}

/// The digest that names a set of effects.
pub open spec fn effects_digest(e: TransactionEffects) -> Seq<u8> {
    sha3_256(enc_effects(e))
}

impl TransactionEffects {
    pub fn encode(&self) -> (r: Vec<u8>)
        ensures
            r@ == enc_effects(*self),
    {
        let mut out: Vec<u8> = Vec::new();
        push_bytes(&mut out, &self.transaction_digest.bytes);
        push_bool(&mut out, self.success);
        push_u64(&mut out, self.gas_used);
        push_u64(&mut out, self.executed_epoch);
        assert(out@ =~= enc_effects(*self));
        out
    }

    pub fn digest(&self) -> (r: Digest)
        ensures
            r@ == effects_digest(*self),
    {
        Digest { bytes: hash_sha3_256(&self.encode()) }
    }
}

/// The bytes that an authority signs to vouch for effects `e` in `epoch`.
pub open spec fn effects_message(e: TransactionEffects, epoch: EpochId) -> Seq<u8> {
    signing_message(EFFECTS_SCOPE, effects_digest(e), epoch)
}

/// Effects signed by the authority that executed the transaction.
#[derive(Clone, Debug)]
pub struct SignedTransactionEffects {
    pub effects: TransactionEffects,
    pub auth_sig: AuthoritySignInfo,
}

pub type VerifiedSignedTransactionEffects = Verified<SignedTransactionEffects>;

impl SignedTransactionEffects {
    pub open spec fn valid_for(&self, committee: Committee) -> bool {
        self.auth_sig.valid_for(committee, effects_message(self.effects, self.auth_sig.epoch))
    }

    pub fn epoch(&self) -> (r: EpochId)
        ensures
            r == self.auth_sig.epoch,
    {
        self.auth_sig.epoch
    }

    pub fn digest(&self) -> (r: Digest)
        ensures
            r@ == effects_digest(self.effects),
    {
        self.effects.digest()
    }

    pub fn verify(self, committee: &Committee) -> (r: Result<VerifiedSignedTransactionEffects, SuiError>)
        requires
            committee.wf(),
        ensures
            r is Ok <==> self.valid_for(*committee),
            r matches Ok(v) ==> v.data_spec() == self,
            r matches Err(e) ==> e == self.auth_sig.failure(*committee, effects_message(self.effects, self.auth_sig.epoch)),
    {
        let digest = self.effects.digest();
        let msg = make_signing_message(EFFECTS_SCOPE, &digest, self.auth_sig.epoch);
        match self.auth_sig.verify(committee, &msg) {
            Ok(()) => Ok(Verified::new_from_verified(self)),
            Err(e) => Err(e),
        }
    }
}

/// How far one authority has taken a transaction.
#[derive(Clone, Debug)]
pub enum TransactionStatus {
    /// The authority voted for the transaction.
    Signed(AuthoritySignInfo),
    /// The authority executed it, with the certificate's signature if it has one.
    Executed(Option<AuthorityQuorumSignInfo>, SignedTransactionEffects),
}

#[derive(Clone, Debug)]
pub struct TransactionInfoRequest {
    pub transaction_digest: TransactionDigest,
}

#[derive(Clone, Debug)]
pub struct TransactionInfoResponse {
    pub transaction: Transaction,
    pub status: TransactionStatus,
}

#[derive(Clone, Debug)]
pub struct HandleTransactionResponse {
    pub status: TransactionStatus,
}

#[derive(Clone, Debug)]
pub struct HandleCertificateResponse {
    pub signed_effects: SignedTransactionEffects,
}

/// How much evidence of finality one authority's answer is.
#[derive(Clone, Debug)]
pub enum VerifiedTransactionInfoResponse {
    Signed(VerifiedSignedTransaction),
    ExecutedWithCert(VerifiedCertificate, VerifiedSignedTransactionEffects),
    ExecutedWithoutCert(VerifiedTransaction, VerifiedSignedTransactionEffects),
}

#[derive(Clone, Debug)]
pub struct VerifiedHandleCertificateResponse {
    pub signed_effects: VerifiedSignedTransactionEffects,
}

/// An object as an authority stores it.
#[derive(Clone, Debug)]
pub struct Object {
    pub id: ObjectID,
    pub version: u64,
    pub contents: Vec<u8>,
}

impl Object {
    pub fn id(&self) -> (r: &ObjectID)
        ensures
            *r == self.id,
    {
        &self.id
    }
}

#[derive(Clone, Debug)]
pub struct ObjectInfoRequest {
    pub object_id: ObjectID,
}

#[derive(Clone, Debug)]
pub struct ObjectInfoResponse {
    pub object: Object,
    /// A description of the object's layout, when the authority sends one.
    pub layout: Option<Vec<u8>>,
    /// The transaction holding a lock on the object, for debugging.
    pub lock_for_debugging: Option<SignedTransaction>,
}

#[derive(Clone, Debug)]
pub struct VerifiedObjectInfoResponse {
    pub object: Object,
}

#[derive(Clone, Debug)]
pub struct CommitteeInfoRequest {
    pub epoch: Option<EpochId>,
}

#[derive(Clone, Debug)]
pub struct CommitteeInfoResponse {
    pub epoch: EpochId,
    pub committee_info: Vec<(AuthorityName, StakeUnit)>,
}

} // verus!
