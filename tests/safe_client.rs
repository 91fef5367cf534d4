use std::sync::Arc;

use fastcrypto::bls12381::min_sig::{BLS12381AggregateSignature, BLS12381KeyPair, BLS12381PrivateKey, BLS12381Signature};
use fastcrypto::ed25519::{Ed25519KeyPair, Ed25519PrivateKey};
use fastcrypto::traits::{AggregateAuthenticator, KeyPair, Signer, ToFromBytes};

use safe_client::base_types::{AuthorityName, Digest, ObjectID};
use safe_client::committee::{Committee, CommitteeStore};
use safe_client::error::{is_benign_epoch_race, CommitteeFault, SuiError, SuspicionReason};
use safe_client::messages::{
    CertifiedTransaction, CommitteeInfoResponse, HandleCertificateResponse, Object, ObjectInfoRequest,
    ObjectInfoResponse, SignedTransactionEffects, Transaction, TransactionData, TransactionEffects,
    TransactionInfoRequest, TransactionInfoResponse, TransactionStatus, VerifiedTransactionInfoResponse,
};
use safe_client::messages_checkpoint::{
    CertifiedCheckpointSummary, CheckpointContents, CheckpointRequest, CheckpointResponse, CheckpointSummary,
};
use safe_client::safe_client::SafeClient;
use safe_client::signature::{
    make_signing_message, AuthorityQuorumSignInfo, AuthoritySignInfo, CHECKPOINT_SCOPE, EFFECTS_SCOPE,
    TRANSACTION_SCOPE,
};

fn authority_key(k: u8) -> BLS12381KeyPair {
    let mut bytes = [0u8; 32];
    bytes[31] = k;
    BLS12381KeyPair::from(BLS12381PrivateKey::from_bytes(&bytes).unwrap())
}

fn name_of(kp: &BLS12381KeyPair) -> AuthorityName {
    AuthorityName { bytes: kp.public().as_ref().to_vec() }
}

fn keys() -> Vec<BLS12381KeyPair> {
    (1..=4).map(authority_key).collect()
}

fn committee(epoch: u64) -> Committee {
    let members = keys().iter().map(|k| (name_of(k), 1u64)).collect();
    Committee::new(epoch, 1, members).unwrap()
}

fn store() -> Arc<CommitteeStore> {
    let mut store = CommitteeStore::new();
    assert!(store.insert_new_committee(committee(0)));
    assert!(store.insert_new_committee(committee(1)));
    Arc::new(store)
}

fn client() -> SafeClient<()> {
    SafeClient::new((), store(), name_of(&keys()[0]))
}

fn sender() -> Ed25519KeyPair {
    Ed25519KeyPair::from(Ed25519PrivateKey::from_bytes(&[7u8; 32]).unwrap())
}

fn transaction(payload: u8) -> Transaction {
    let kp = sender();
    let data = TransactionData { sender: kp.public().as_ref().to_vec(), gas_budget: 1000, payload: vec![payload; 4] };
    let sig = kp.sign(&data.encode());
    Transaction { data, tx_signature: sig.as_ref().to_vec() }
}

fn sign(kp: &BLS12381KeyPair, scope: u8, digest: &Digest, epoch: u64) -> AuthoritySignInfo {
    let msg = make_signing_message(scope, digest, epoch);
    AuthoritySignInfo { epoch, authority: name_of(kp), signature: kp.sign(&msg).as_ref().to_vec() }
}

fn certify(signers: &[u64], scope: u8, digest: &Digest, epoch: u64) -> AuthorityQuorumSignInfo {
    let msg = make_signing_message(scope, digest, epoch);
    let ks = keys();
    let sigs: Vec<BLS12381Signature> = signers.iter().map(|i| ks[*i as usize].sign(&msg)).collect();
    let agg = BLS12381AggregateSignature::aggregate(&sigs).unwrap();
    AuthorityQuorumSignInfo { epoch, signers: signers.to_vec(), signature: agg.as_ref().to_vec() }
}

fn effects_for(tx: &Transaction, by: &BLS12381KeyPair, epoch: u64) -> SignedTransactionEffects {
    let effects = TransactionEffects { transaction_digest: tx.digest(), success: true, gas_used: 10, executed_epoch: epoch };
    let auth_sig = sign(by, EFFECTS_SCOPE, &effects.digest(), epoch);
    SignedTransactionEffects { effects, auth_sig }
}

fn object(id: u8) -> Object {
    Object { id: ObjectID { bytes: vec![id; 32] }, version: 1, contents: vec![1, 2, 3] }
}

fn checkpoint(seq: u64, contents: &CheckpointContents, signers: &[u64]) -> CertifiedCheckpointSummary {
    let summary = CheckpointSummary { epoch: 1, sequence_number: seq, content_digest: contents.digest(), timestamp_ms: 99 };
    let auth_sig = certify(signers, CHECKPOINT_SCOPE, &summary.digest(), 1);
    CertifiedCheckpointSummary { summary, auth_sig }
}

fn contents() -> CheckpointContents {
    CheckpointContents { transactions: vec![transaction(1).digest(), transaction(2).digest()] }
}

#[test]
fn signed_status_from_queried_authority_is_accepted() {
    let c = client();
    let tx = transaction(1);
    let digest = tx.digest();
    let sig = sign(&keys()[0], TRANSACTION_SCOPE, &digest, 1);
    let verified = tx.clone().verify().unwrap();
    let r = c.check_transaction_info(&digest, verified, TransactionStatus::Signed(sig)).unwrap();
    match r {
        VerifiedTransactionInfoResponse::Signed(s) => {
            assert_eq!(s.data().transaction.data.payload, tx.data.payload);
            assert_eq!(s.data().auth_sig.epoch, 1);
        },
        _ => panic!("expected a signed answer"),
    }
}

#[test]
fn signed_status_from_other_authority_is_suspicion() {
    let c = client();
    let tx = transaction(1);
    let digest = tx.digest();
    let sig = sign(&keys()[1], TRANSACTION_SCOPE, &digest, 1);
    let r = c.check_transaction_info(&digest, tx.verify().unwrap(), TransactionStatus::Signed(sig));
    assert!(matches!(
        r,
        Err(SuiError::ByzantineAuthoritySuspicion { reason: SuspicionReason::UnexpectedSigner, .. })
    ));
}

#[test]
fn status_for_other_transaction_is_suspicion() {
    let c = client();
    let tx = transaction(1);
    let other = transaction(2).digest();
    let sig = sign(&keys()[0], TRANSACTION_SCOPE, &tx.digest(), 1);
    let r = c.check_transaction_info(&other, tx.verify().unwrap(), TransactionStatus::Signed(sig));
    assert!(matches!(
        r,
        Err(SuiError::ByzantineAuthoritySuspicion { reason: SuspicionReason::TransactionDigestMismatch, .. })
    ));
}

#[test]
fn vote_signed_over_other_transaction_is_invalid() {
    let c = client();
    let tx = transaction(1);
    let sig = sign(&keys()[0], TRANSACTION_SCOPE, &transaction(2).digest(), 1);
    let r = c.check_transaction_info(&tx.digest(), tx.verify().unwrap(), TransactionStatus::Signed(sig));
    assert!(matches!(r, Err(SuiError::InvalidSignature)));
}

#[test]
fn next_epoch_signature_rejected_by_current_committee() {
    let tx = transaction(1);
    let digest = tx.digest();
    let sig = sign(&keys()[0], TRANSACTION_SCOPE, &digest, 1);
    let msg = make_signing_message(TRANSACTION_SCOPE, &digest, 1);
    assert!(sig.verify(&committee(1), &msg).is_ok());
    assert!(matches!(
        sig.verify(&committee(0), &msg),
        Err(SuiError::WrongEpoch { expected_epoch: 0, actual_epoch: 1 })
    ));
}

#[test]
fn unknown_epoch_is_missing_committee_and_benign() {
    let c = client();
    let tx = transaction(1);
    let digest = tx.digest();
    let sig = sign(&keys()[0], TRANSACTION_SCOPE, &digest, 5);
    let r = c.check_transaction_info(&digest, tx.verify().unwrap(), TransactionStatus::Signed(sig));
    match r {
        Err(e) => {
            assert!(matches!(e, SuiError::MissingCommitteeAtEpoch(5)));
            assert!(is_benign_epoch_race(&e));
        },
        Ok(_) => panic!("expected an error"),
    }
}

#[test]
fn suspicion_is_not_benign() {
    let e = SuiError::ByzantineAuthoritySuspicion { authority: name_of(&keys()[0]), reason: SuspicionReason::ObjectIdMismatch };
    assert!(!is_benign_epoch_race(&e));
    assert!(is_benign_epoch_race(&SuiError::ValidatorHaltedAtEpochEnd));
    assert!(!e.individual_error_indicates_epoch_change());
}

#[test]
fn executed_with_certificate_is_accepted() {
    let c = client();
    let tx = transaction(3);
    let digest = tx.digest();
    let cert = certify(&[0, 1, 2], TRANSACTION_SCOPE, &digest, 1);
    let effects = effects_for(&tx, &keys()[0], 1);
    let r = c.check_transaction_info(&digest, tx.verify().unwrap(), TransactionStatus::Executed(Some(cert), effects)).unwrap();
    match r {
        VerifiedTransactionInfoResponse::ExecutedWithCert(ct, e) => {
            assert_eq!(ct.data().auth_sig.signers, vec![0, 1, 2]);
            assert_eq!(e.data().effects.gas_used, 10);
        },
        _ => panic!("expected an executed answer with certificate"),
    }
}

#[test]
fn executed_without_certificate_is_accepted() {
    let c = client();
    let tx = transaction(3);
    let digest = tx.digest();
    let effects = effects_for(&tx, &keys()[0], 0);
    let r = c.check_transaction_info(&digest, tx.verify().unwrap(), TransactionStatus::Executed(None, effects)).unwrap();
    assert!(matches!(r, VerifiedTransactionInfoResponse::ExecutedWithoutCert(_, _)));
}

#[test]
fn certificate_without_quorum_is_rejected() {
    let c = client();
    let tx = transaction(3);
    let digest = tx.digest();
    let cert = certify(&[0, 1], TRANSACTION_SCOPE, &digest, 1);
    let effects = effects_for(&tx, &keys()[0], 1);
    let r = c.check_transaction_info(&digest, tx.verify().unwrap(), TransactionStatus::Executed(Some(cert), effects));
    assert!(matches!(r, Err(SuiError::CertificateRequiresQuorum)));
}

#[test]
fn certificate_with_repeated_signer_is_rejected() {
    let tx = transaction(3);
    let digest = tx.digest();
    let cert = certify(&[0, 0, 1], TRANSACTION_SCOPE, &digest, 1);
    let r = CertifiedTransaction::new_from_data_and_sig(tx, cert).verify(&committee(1));
    assert!(matches!(r, Err(SuiError::InvalidSignerList)));
}

#[test]
fn effects_from_other_authority_are_suspicion() {
    let c = client();
    let tx = transaction(3);
    let effects = effects_for(&tx, &keys()[2], 1);
    let r = c.verify_certificate_response(&tx.digest(), HandleCertificateResponse { signed_effects: effects });
    assert!(matches!(
        r,
        Err(SuiError::ByzantineAuthoritySuspicion { reason: SuspicionReason::UnexpectedSigner, .. })
    ));
}

#[test]
fn effects_with_unexpected_digest_are_suspicion() {
    let c = client();
    let tx = transaction(3);
    let effects = effects_for(&tx, &keys()[0], 1);
    let expected = effects.digest();
    let ok = c.check_signed_effects(&tx.digest(), effects.clone(), Some(&expected));
    assert!(ok.is_ok());
    let wrong = tx.digest();
    let r = c.check_signed_effects(&tx.digest(), effects, Some(&wrong));
    assert!(matches!(
        r,
        Err(SuiError::ByzantineAuthoritySuspicion { reason: SuspicionReason::EffectsDigestMismatch, .. })
    ));
}

#[test]
fn transaction_info_with_forged_sender_signature_is_rejected() {
    let c = client();
    let mut tx = transaction(4);
    let digest = tx.digest();
    let sig = sign(&keys()[0], TRANSACTION_SCOPE, &digest, 1);
    tx.tx_signature[0] ^= 1;
    let request = TransactionInfoRequest { transaction_digest: digest };
    let r = c.verify_transaction_info_response(&request, TransactionInfoResponse { transaction: tx, status: TransactionStatus::Signed(sig) });
    assert!(matches!(r, Err(SuiError::InvalidTransactionSignature)));
}

#[test]
fn transaction_info_round_trip() {
    let c = client();
    let tx = transaction(4);
    let digest = tx.digest();
    let sig = sign(&keys()[0], TRANSACTION_SCOPE, &digest, 0);
    let request = TransactionInfoRequest { transaction_digest: digest };
    let r = c.verify_transaction_info_response(&request, TransactionInfoResponse { transaction: tx.clone(), status: TransactionStatus::Signed(sig.clone()) });
    match r {
        Ok(VerifiedTransactionInfoResponse::Signed(s)) => {
            let inner = s.into_inner();
            assert_eq!(inner.transaction.data.payload, tx.data.payload);
            assert_eq!(inner.transaction.tx_signature, tx.tx_signature);
            assert_eq!(inner.auth_sig.signature, sig.signature);
        },
        _ => panic!("expected a signed answer"),
    }
}

#[test]
fn object_with_other_id_is_rejected() {
    let c = client();
    let request = ObjectInfoRequest { object_id: ObjectID { bytes: vec![1; 32] } };
    let response = ObjectInfoResponse { object: object(2), layout: None, lock_for_debugging: None };
    let r = c.check_object_response(&request, response);
    assert!(matches!(
        r,
        Err(SuiError::ByzantineAuthoritySuspicion { reason: SuspicionReason::ObjectIdMismatch, .. })
    ));
}

#[test]
fn object_with_requested_id_is_accepted() {
    let c = client();
    let request = ObjectInfoRequest { object_id: ObjectID { bytes: vec![1; 32] } };
    let response = ObjectInfoResponse { object: object(1), layout: Some(vec![9]), lock_for_debugging: None };
    let r = c.check_object_response(&request, response).unwrap();
    assert_eq!(r.object.contents, vec![1, 2, 3]);
}

#[test]
fn committee_info_for_other_epoch_is_rejected() {
    let c = client();
    let info = CommitteeInfoResponse { epoch: 4, committee_info: vec![] };
    assert!(matches!(
        c.verify_committee_info_response(Some(3), &info),
        Err(SuiError::CommitteeEpochMismatch { requested: 3, returned: 4 })
    ));
    assert!(c.verify_committee_info_response(Some(4), &info).is_ok());
    assert!(c.verify_committee_info_response(None, &info).is_ok());
}

#[test]
fn checkpoint_with_other_sequence_number_is_rejected() {
    let c = client();
    let request = CheckpointRequest { sequence_number: Some(5), request_content: false };
    let response = CheckpointResponse { checkpoint: Some(checkpoint(6, &contents(), &[0, 1, 2])), contents: None };
    assert!(matches!(
        c.verify_checkpoint_response(&request, &response),
        Err(SuiError::ByzantineAuthoritySuspicion { reason: SuspicionReason::CheckpointSequenceMismatch, .. })
    ));
}

#[test]
fn checkpoint_with_unrequested_contents_is_rejected() {
    let c = client();
    let request = CheckpointRequest { sequence_number: Some(5), request_content: false };
    let response = CheckpointResponse { checkpoint: Some(checkpoint(5, &contents(), &[0, 1, 2])), contents: Some(contents()) };
    assert!(matches!(
        c.verify_checkpoint_response(&request, &response),
        Err(SuiError::ByzantineAuthoritySuspicion { reason: SuspicionReason::CheckpointContentsInconsistent, .. })
    ));
}

#[test]
fn contents_without_checkpoint_are_rejected() {
    let c = client();
    let request = CheckpointRequest { sequence_number: None, request_content: true };
    let response = CheckpointResponse { checkpoint: None, contents: Some(contents()) };
    assert!(matches!(
        c.verify_checkpoint_response(&request, &response),
        Err(SuiError::ByzantineAuthoritySuspicion { reason: SuspicionReason::CheckpointContentsInconsistent, .. })
    ));
}

#[test]
fn requested_contents_missing_are_rejected() {
    let c = client();
    let request = CheckpointRequest { sequence_number: None, request_content: true };
    let response = CheckpointResponse { checkpoint: Some(checkpoint(5, &contents(), &[0, 1, 2])), contents: None };
    assert!(c.verify_checkpoint_response(&request, &response).is_err());
}

#[test]
fn honest_checkpoint_with_contents_is_accepted() {
    let c = client();
    let request = CheckpointRequest { sequence_number: Some(5), request_content: true };
    let response = CheckpointResponse { checkpoint: Some(checkpoint(5, &contents(), &[1, 2, 3])), contents: Some(contents()) };
    assert!(c.verify_checkpoint_response(&request, &response).is_ok());
    let none = CheckpointResponse { checkpoint: None, contents: None };
    assert!(c.verify_checkpoint_response(&request, &none).is_ok());
}

#[test]
fn checkpoint_with_other_contents_is_rejected() {
    let c = client();
    let request = CheckpointRequest { sequence_number: Some(5), request_content: true };
    let other = CheckpointContents { transactions: vec![transaction(9).digest()] };
    let response = CheckpointResponse { checkpoint: Some(checkpoint(5, &contents(), &[1, 2, 3])), contents: Some(other) };
    assert!(matches!(
        c.verify_checkpoint_response(&request, &response),
        Err(SuiError::CheckpointContentsDigestMismatch)
    ));
}

#[test]
fn committee_rules() {
    let c = committee(0);
    assert_eq!(c.total_votes(), 4);
    assert_eq!(c.quorum_threshold(), 3);
    assert_eq!(c.weight(&name_of(&keys()[2])), Some(1));
    assert_eq!(c.weight(&name_of(&authority_key(9))), None);
    assert!(matches!(Committee::new(0, 1, vec![]), Err(SuiError::InvalidCommittee(CommitteeFault::NoMembers))));
    let k = name_of(&keys()[0]);
    assert!(matches!(
        Committee::new(0, 1, vec![(k.clone(), 0)]),
        Err(SuiError::InvalidCommittee(CommitteeFault::ZeroStake))
    ));
    assert!(matches!(
        Committee::new(0, 1, vec![(k.clone(), 1), (k.clone(), 2)]),
        Err(SuiError::InvalidCommittee(CommitteeFault::DuplicateMember))
    ));
    assert!(matches!(
        Committee::new(0, 1, vec![(k, u64::MAX), (name_of(&keys()[1]), 1)]),
        Err(SuiError::InvalidCommittee(CommitteeFault::StakeOverflow))
    ));
}

#[test]
fn quorum_threshold_of_uneven_stakes() {
    let ks = keys();
    let c = Committee::new(2, 1, vec![(name_of(&ks[0]), 5), (name_of(&ks[1]), 3)]).unwrap();
    assert_eq!(c.total_votes(), 8);
    assert_eq!(c.quorum_threshold(), 6);
    assert_eq!(c.epoch(), 2);
}

#[test]
fn store_is_append_only() {
    let mut store = CommitteeStore::new();
    assert!(matches!(store.get_committee(0), Err(SuiError::MissingCommitteeAtEpoch(0))));
    assert!(store.insert_new_committee(committee(0)));
    assert!(!store.insert_new_committee(committee(0)));
    assert_eq!(store.get_committee(0).unwrap().epoch(), 0);
}

#[test]
fn digests_are_hashes_of_the_encoding() {
    let tx = transaction(1);
    let enc = tx.data.encode();
    let d = tx.digest();
    assert_eq!(d.bytes.len(), 32);
    assert_ne!(d.bytes, enc);
    assert_ne!(transaction(1).digest().bytes, transaction(2).digest().bytes);
    assert_eq!(transaction(1).digest().bytes, d.bytes);
}

#[test]
fn signing_message_layout() {
    let d = Digest { bytes: vec![0xaa, 0xbb] };
    let m = make_signing_message(EFFECTS_SCOPE, &d, 0x0102);
    assert_eq!(m, vec![1, 2, 0, 0, 0, 0, 0, 0, 0, 0xaa, 0xbb, 2, 1, 0, 0, 0, 0, 0, 0]);
}

#[test]
fn certificate_over_other_transaction_is_invalid() {
    let tx = transaction(3);
    let cert = certify(&[0, 1, 2], TRANSACTION_SCOPE, &transaction(4).digest(), 1);
    let r = CertifiedTransaction::new_from_data_and_sig(tx.clone(), cert).verify(&committee(1));
    assert!(matches!(r, Err(SuiError::InvalidSignature)));
    let good = certify(&[0, 1, 3], TRANSACTION_SCOPE, &tx.digest(), 1);
    assert!(CertifiedTransaction::new_from_data_and_sig(tx, good).verify(&committee(1)).is_ok());
}

#[test]
fn certificate_signer_outside_committee_is_rejected() {
    let tx = transaction(3);
    let cert = certify(&[0, 1, 2], TRANSACTION_SCOPE, &tx.digest(), 1);
    let mut bad = cert.clone();
    bad.signers = vec![0, 1, 7];
    let r = CertifiedTransaction::new_from_data_and_sig(tx, bad).verify(&committee(1));
    assert!(matches!(r, Err(SuiError::InvalidSignerList)));
}
