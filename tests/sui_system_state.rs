use fastcrypto::bls12381::min_sig::{BLS12381KeyPair, BLS12381PrivateKey};
use fastcrypto::traits::{KeyPair, ToFromBytes};

use safe_client::base_types::{AuthorityName, ObjectID};
use safe_client::error::SuiError;
use safe_client::sui_system_state::{
    get_sui_system_state, sui_system_state_object_id, Balance, StakingPool, SuiAddress, SuiSystemState,
    SuiSystemStateWrapper, Table, TableVec, Validator, ValidatorMetadata, UID,
};

fn key_bytes(k: u8) -> Vec<u8> {
    let mut bytes = [0u8; 32];
    bytes[31] = k;
    BLS12381KeyPair::from(BLS12381PrivateKey::from_bytes(&bytes).unwrap()).public().as_ref().to_vec()
}

fn validator(k: u8, power: u64) -> Validator {
    Validator {
        metadata: ValidatorMetadata {
            sui_address: SuiAddress { bytes: vec![k; 32] },
            pubkey_bytes: key_bytes(k),
            network_pubkey_bytes: vec![],
            worker_pubkey_bytes: vec![],
            proof_of_possession_bytes: vec![],
            name: format!("validator-{}", k),
            description: String::new(),
            image_url: String::new(),
            project_url: String::new(),
            net_address: vec![k, k],
            p2p_address: vec![],
            consensus_address: vec![],
            worker_address: vec![],
        },
        voting_power: power,
        stake_amount: 0,
        pending_stake: 0,
        pending_withdraw: 0,
        gas_price: 1,
        delegation_staking_pool: StakingPool {
            id: ObjectID { bytes: vec![k; 32] },
            starting_epoch: 0,
            sui_balance: 0,
            rewards_pool: Balance { value: 0 },
            pool_token_balance: 0,
            exchange_rates: Table::default(),
            pending_delegation: 0,
            pending_withdraws: TableVec::default(),
        },
        commission_rate: 0,
        next_epoch_stake: 0,
        next_epoch_delegation: 0,
        next_epoch_gas_price: 1,
        next_epoch_commission_rate: 0,
    }
}

#[test]
fn default_system_state() {
    let s = SuiSystemState::default();
    assert_eq!(s.epoch, 0);
    assert_eq!(s.protocol_version, 1);
    assert_eq!(s.parameters.max_validator_candidate_count, 100);
    assert_eq!(s.info.id.bytes, sui_system_state_object_id().bytes);
    assert_eq!(s.info.id.bytes[31], 5);
    assert!(s.info.id.bytes[..31].iter().all(|b| *b == 0));
    assert!(s.validators.active_validators.is_empty());
    assert_eq!(Table::default().id.bytes, vec![0u8; 32]);
}

#[test]
fn current_epoch_committee_from_validators() {
    let mut s = SuiSystemState::default();
    s.epoch = 7;
    s.protocol_version = 3;
    s.validators.active_validators = vec![validator(1, 10), validator(2, 20)];
    let c = s.get_current_epoch_committee();
    assert_eq!(c.committee.epoch(), 7);
    assert_eq!(c.committee.protocol_version(), 3);
    assert_eq!(c.committee.total_votes(), 30);
    let name = AuthorityName { bytes: key_bytes(2) };
    assert_eq!(c.committee.weight(&name), Some(20));
    assert_eq!(c.net_addresses.len(), 2);
    assert_eq!(c.net_addresses[1].1, vec![2, 2]);
}

#[test]
fn validator_entry() {
    let v = validator(3, 4);
    let (name, stake, addr) = v.to_current_epoch_committee_with_net_addresses();
    assert_eq!(name.bytes, key_bytes(3));
    assert_eq!(stake, 4);
    assert_eq!(addr, vec![3, 3]);
    assert!(AuthorityName::from_bytes(&vec![0u8; 5]).is_none());
}

#[test]
fn system_state_from_wrapper() {
    let wrapper = SuiSystemStateWrapper {
        info: UID { id: sui_system_state_object_id() },
        version: 1,
        system_state: SuiSystemState::default(),
    };
    assert_eq!(get_sui_system_state(Some(wrapper)).unwrap().epoch, 0);
    assert!(matches!(get_sui_system_state(None), Err(SuiError::SuiSystemStateNotFound)));
}

#[test]
fn later_validator_with_same_key_wins() {
    let mut s = SuiSystemState::default();
    s.validators.active_validators = vec![validator(1, 10), validator(2, 5), validator(1, 20)];
    let c = s.get_current_epoch_committee();
    assert_eq!(c.committee.total_votes(), 25);
    assert_eq!(c.committee.weight(&AuthorityName { bytes: key_bytes(1) }), Some(20));
    assert_eq!(c.committee.voting_rights().len(), 2);
    assert_eq!(c.net_addresses.len(), 2);
}
