//! The on-chain system state as the client reads it, and the committee of the
//! current epoch that it describes.
use vstd::prelude::*;
use crate::base_types::{AuthorityName, ObjectID};
use crate::committee::{
    insert_entry, lemma_stake_total_push, lemma_stake_total_update, lookup, names_unique, stake_total,
    Committee, StakeUnit,
};
use crate::crypto::copy_bytes;
use crate::error::SuiError;

verus! {

/// The length in bytes of an authority's public key.
pub const AUTHORITY_KEY_LENGTH: usize = 96;

/// The length in bytes of an address or object id.
pub const ADDRESS_LENGTH: usize = 32;

/// The lowest protocol version.
pub const PROTOCOL_VERSION_MIN: u64 = 1;

/// The last byte of the system state object's id; all other bytes are zero.
pub const SYSTEM_STATE_OBJECT_ID_LAST_BYTE: u8 = 5;

#[derive(Clone, Debug)]
pub struct SuiAddress {
    pub bytes: Vec<u8>,
}

#[derive(Clone, Debug)]
pub struct Balance {
    pub value: u64,
}

#[derive(Clone, Debug)]
pub struct UID {
    pub id: ObjectID,
}

#[derive(Clone, Debug)]
pub struct VecSet<K> {
    pub contents: Vec<K>,
}

#[derive(Clone, Debug)]
pub struct Entry<K, V> {
    pub key: K,
    pub value: V,
}

#[derive(Clone, Debug)]
pub struct VecMap<K, V> {
    pub contents: Vec<Entry<K, V>>,
}

#[derive(Clone, Debug)]
pub struct SystemParameters {
    pub min_validator_stake: u64,
    pub max_validator_candidate_count: u64,
}

/// An optional value, held as a vector of at most one element.
#[derive(Clone, Debug)]
pub struct MoveOption<T> {
    pub vec: Vec<T>,
}

#[derive(Clone, Debug)]
pub struct ValidatorMetadata {
    pub sui_address: SuiAddress,
    pub pubkey_bytes: Vec<u8>,
    pub network_pubkey_bytes: Vec<u8>,
    pub worker_pubkey_bytes: Vec<u8>,
    pub proof_of_possession_bytes: Vec<u8>,
    pub name: String,
    pub description: String,
    pub image_url: String,
    pub project_url: String,
    pub net_address: Vec<u8>,
    pub p2p_address: Vec<u8>,
    pub consensus_address: Vec<u8>,
    pub worker_address: Vec<u8>,
}

#[derive(Clone, Debug)]
pub struct Validator {
    pub metadata: ValidatorMetadata,
    pub voting_power: u64,
    pub stake_amount: u64,
    pub pending_stake: u64,
    pub pending_withdraw: u64,
    pub gas_price: u64,
    pub delegation_staking_pool: StakingPool,
    pub commission_rate: u64,
    pub next_epoch_stake: u64,
    pub next_epoch_delegation: u64,
    pub next_epoch_gas_price: u64,
    pub next_epoch_commission_rate: u64,
}

#[derive(Clone, Debug)]
pub struct PendingDelegationEntry {
    pub delegator: SuiAddress,
    pub sui_amount: u64,
    pub staked_sui_id: ObjectID,
}

#[derive(Clone, Debug)]
pub struct PendingWithdrawEntry {
    delegator: SuiAddress,
    principal_withdraw_amount: u64,
    withdrawn_pool_tokens: Balance,
}

#[derive(Clone, Debug)]
pub struct TableVec {
    pub contents: Table,
}

#[derive(Clone, Debug)]
pub struct Table {
    pub id: ObjectID,
    pub size: u64,
}

#[derive(Clone, Debug)]
pub struct LinkedTable<K> {
    pub id: ObjectID,
    pub size: u64,
    pub head: MoveOption<K>,
    pub tail: MoveOption<K>,
}

#[derive(Clone, Debug)]
pub struct StakingPool {
    pub id: ObjectID,
    pub starting_epoch: u64,
    pub sui_balance: u64,
    pub rewards_pool: Balance,
    pub pool_token_balance: u64,
    pub exchange_rates: Table,
    pub pending_delegation: u64,
    pub pending_withdraws: TableVec,
}

#[derive(Clone, Debug)]
pub struct ValidatorPair {
    from: SuiAddress,
    to: SuiAddress,
}

#[derive(Clone, Debug)]
pub struct ValidatorSet {
    pub validator_stake: u64,
    pub delegation_stake: u64,
    pub active_validators: Vec<Validator>,
    pub pending_validators: TableVec,
    pub pending_removals: Vec<u64>,
    pub staking_pool_mappings: Table,
}

#[derive(Clone, Debug)]
pub struct SuiSystemState {
    pub info: UID,
    pub epoch: u64,
    pub protocol_version: u64,
    pub validators: ValidatorSet,
    pub storage_fund: Balance,
    pub parameters: SystemParameters,
    pub reference_gas_price: u64,
    pub validator_report_records: VecMap<SuiAddress, VecSet<SuiAddress>>,
    pub stake_subsidy: StakeSubsidy,
    pub safe_mode: bool,
    pub epoch_start_timestamp_ms: u64,
}

#[derive(Clone, Debug)]
pub struct SuiSystemStateWrapper {
    pub info: UID,
    pub version: u64,
    pub system_state: SuiSystemState,
}

#[derive(Clone, Debug)]
pub struct StakeSubsidy {
    pub epoch_counter: u64,
    pub balance: Balance,
    pub current_epoch_amount: u64,
}

/// A committee together with each member's network address.
#[derive(Clone, Debug)]
pub struct CommitteeWithNetAddresses {
    pub committee: Committee,
    pub net_addresses: Vec<(AuthorityName, Vec<u8>)>,
}

/// `n` zero bytes.
pub open spec fn zeros(n: nat) -> Seq<u8> {
    Seq::new(n, |i: int| 0u8)
}

fn zero_bytes(n: usize) -> (r: Vec<u8>)
    ensures
        r@ == zeros(n as nat),
{
    let mut r: Vec<u8> = Vec::new();
    let mut i: usize = 0;
    while i < n
        invariant
            i <= n,
            r@ == zeros(i as nat),
        decreases n - i,
    {
        r.push(0u8);
        i = i + 1;
        assert(r@ =~= zeros(i as nat));
    }
    r
}

/// The id of the object that holds the system state.
pub open spec fn system_state_object_id() -> Seq<u8> {
    zeros((ADDRESS_LENGTH - 1) as nat).push(SYSTEM_STATE_OBJECT_ID_LAST_BYTE)
}

pub fn sui_system_state_object_id() -> (r: ObjectID)
    ensures
        r@ == system_state_object_id(),
{
    let mut bytes = zero_bytes(ADDRESS_LENGTH - 1);
    bytes.push(SYSTEM_STATE_OBJECT_ID_LAST_BYTE);
    ObjectID { bytes }
}

impl AuthorityName {
    /// Reads a name from public key bytes, which must have the key length.
    pub fn from_bytes(bytes: &Vec<u8>) -> (r: Option<AuthorityName>)
        ensures
            r is Some <==> bytes@.len() == AUTHORITY_KEY_LENGTH,
            r matches Some(n) ==> n@ == bytes@,
    {
        if bytes.len() != AUTHORITY_KEY_LENGTH {
            return None;
        }
        Some(AuthorityName { bytes: copy_bytes(bytes) })
    }
}

impl Validator {
    pub fn to_current_epoch_committee_with_net_addresses(&self) -> (r: (AuthorityName, StakeUnit, Vec<u8>))
        requires
            self.metadata.pubkey_bytes@.len() == AUTHORITY_KEY_LENGTH,
        ensures
            r.0@ == self.metadata.pubkey_bytes@,
            r.1 == self.voting_power,
            r.2@ == self.metadata.net_address@,
    {
        let name = match AuthorityName::from_bytes(&self.metadata.pubkey_bytes) {
            Some(n) => n,
            None => {
                proof {
                    assert(false);
                }
                AuthorityName { bytes: Vec::new() }
            },
        };
        (name, self.voting_power, copy_bytes(&self.metadata.net_address))
    }
}

/// The index of the last validator in `vs` whose key is `k`.
pub open spec fn last_with_key(vs: Seq<Validator>, k: Seq<u8>) -> Option<int>
    decreases vs.len(),
{
    if vs.len() == 0 {
        None
    } else if vs.last().metadata.pubkey_bytes@ == k {
        Some(vs.len() - 1)
    } else {
        last_with_key(vs.drop_last(), k)
    }
}

proof fn lemma_last_with_key_in_range(vs: Seq<Validator>, k: Seq<u8>)
    ensures
        last_with_key(vs, k) matches Some(j) ==> 0 <= j < vs.len() && vs[j].metadata.pubkey_bytes@ == k,
    decreases vs.len(),
{
    if vs.len() > 0 && vs.last().metadata.pubkey_bytes@ != k {
        lemma_last_with_key_in_range(vs.drop_last(), k);
    }
}

/// The voting power that the validators `vs` give to key `k`: that of the
/// last validator with that key.
pub open spec fn power_of(vs: Seq<Validator>, k: Seq<u8>) -> Option<StakeUnit> {
    match last_with_key(vs, k) {
        Some(i) => Some(vs[i].voting_power),
        None => None,
    }
}

/// The network address that the validators `vs` give to key `k`: that of
/// the last validator with that key.
pub open spec fn address_of(vs: Seq<Validator>, k: Seq<u8>) -> Option<Seq<u8>> {
    match last_with_key(vs, k) {
        Some(i) => Some(vs[i].metadata.net_address@),
        None => None,
    }
}

pub open spec fn opt_view(a: Option<Vec<u8>>) -> Option<Seq<u8>> {
    match a {
        Some(v) => Some(v@),
        None => None,
    }
}

/// The sum of the voting power of `vs`.
pub open spec fn voting_power_total(vs: Seq<Validator>) -> nat
    decreases vs.len(),
{
    if vs.len() == 0 {
        0
    } else {
        voting_power_total(vs.drop_last()) + vs.last().voting_power as nat
    }
}

/// What the chain guarantees of an active validator set: at least one
/// validator, each with a well-formed key and positive voting power, and a
/// total voting power that fits in 64 bits.
pub open spec fn active_validators_valid(vs: Seq<Validator>) -> bool {
    &&& vs.len() > 0
    &&& forall|i: int| 0 <= i < vs.len() ==> #[trigger] vs[i].metadata.pubkey_bytes@.len() == AUTHORITY_KEY_LENGTH
    &&& forall|i: int| 0 <= i < vs.len() ==> #[trigger] vs[i].voting_power > 0
    &&& voting_power_total(vs) <= u64::MAX
}

impl SuiSystemState {
    /// The committee of the current epoch, with each member's network
    /// address; a key that two validators share counts once, with the values
    /// of the later one.
    pub fn get_current_epoch_committee(&self) -> (r: CommitteeWithNetAddresses)
        requires
            active_validators_valid(self.validators.active_validators@),
        ensures
            r.committee.epoch == self.epoch,
            r.committee.protocol_version == self.protocol_version,
            r.committee.wf(),
            forall|k: Seq<u8>| #[trigger] r.committee.stake_of(k) == power_of(self.validators.active_validators@, k),
            names_unique(r.net_addresses@),
            forall|k: Seq<u8>| #[trigger] opt_view(lookup(r.net_addresses@, k))
                == address_of(self.validators.active_validators@, k),
    {
        let vs = &self.validators.active_validators;
        let mut voting_rights: Vec<(AuthorityName, StakeUnit)> = Vec::new();
        let mut net_addresses: Vec<(AuthorityName, Vec<u8>)> = Vec::new();
        let mut i: usize = 0;
        while i < vs.len()
            invariant
                vs == &self.validators.active_validators,
                active_validators_valid(vs@),
                i <= vs@.len(),
                names_unique(voting_rights@),
                names_unique(net_addresses@),
                i > 0 ==> voting_rights@.len() > 0,
                forall|j: int| 0 <= j < voting_rights@.len() ==> #[trigger] voting_rights@[j].1 > 0,
                forall|k: Seq<u8>| #[trigger] lookup(voting_rights@, k) == power_of(vs@.subrange(0, i as int), k),
                forall|k: Seq<u8>| #[trigger] opt_view(lookup(net_addresses@, k)) == address_of(vs@.subrange(0, i as int), k),
                stake_total(voting_rights@) <= voting_power_total(vs@.subrange(0, i as int)),
            decreases vs@.len() - i,
        {
            let (name, voting_stake, net_address) = vs[i].to_current_epoch_committee_with_net_addresses();
            let ghost old_vr = voting_rights@;
            let ghost old_na = net_addresses@;
            let ghost key = name@;
            let ghost prefix = vs@.subrange(0, i as int);
            let ghost next = vs@.subrange(0, i + 1);
            let ghost addr = net_address@;
            let other = name.duplicate();
            insert_entry(&mut voting_rights, name, voting_stake);
            insert_entry(&mut net_addresses, other, net_address);
            proof {
                assert(next.drop_last() =~= prefix);
                assert(next.last() == vs@[i as int]);
                assert forall|k: Seq<u8>| #[trigger] lookup(voting_rights@, k) == power_of(next, k) by {
                    if k != key {
                        lemma_last_with_key_in_range(prefix, k);
                        if let Some(j) = last_with_key(prefix, k) {
                            assert(next[j] == prefix[j]);
                        }
                    }
                }
                assert forall|k: Seq<u8>| #[trigger] opt_view(lookup(net_addresses@, k)) == address_of(next, k) by {
                    if k != key {
                        lemma_last_with_key_in_range(prefix, k);
                        if let Some(j) = last_with_key(prefix, k) {
                            assert(next[j] == prefix[j]);
                        }
                    }
                }
                if voting_rights@ == old_vr.push((name, voting_stake)) {
                    lemma_stake_total_push(old_vr, (name, voting_stake));
                    assert forall|j: int| 0 <= j < voting_rights@.len() implies #[trigger] voting_rights@[j].1 > 0 by {
                        if j < old_vr.len() {
                            assert(old_vr[j].1 > 0);
                        }
                    }
                } else {
                    let j = choose|j: int| 0 <= j < old_vr.len() && old_vr[j].0@ == key
                        && voting_rights@ == old_vr.update(j, (name, voting_stake));
                    lemma_stake_total_update(old_vr, j, (name, voting_stake));
                    assert(old_vr[j].1 > 0);
                    assert forall|m: int| 0 <= m < voting_rights@.len() implies #[trigger] voting_rights@[m].1 > 0 by {
                        if m != j {
                            assert(old_vr[m].1 > 0);
                        }
                    }
                }
            }
            i = i + 1;
        }
        proof {
            assert(vs@.subrange(0, i as int) =~= vs@);
        }
        let committee = match Committee::new(self.epoch, self.protocol_version, voting_rights) {
            Ok(c) => c,
            Err(_) => {
                proof {
                    assert(false);
                }
                return CommitteeWithNetAddresses { committee: Committee { epoch: 0, protocol_version: 0, voting_rights: Vec::new() }, net_addresses };
            },
        };
        CommitteeWithNetAddresses { committee, net_addresses }
    }
}

/// The zero address, as an object id.
fn zero_object_id() -> (r: ObjectID)
    ensures
        r@ == zeros(ADDRESS_LENGTH as nat),
{
    ObjectID { bytes: zero_bytes(ADDRESS_LENGTH) }
}

impl Default for Table {
    fn default() -> (r: Table)
        ensures
            r.id@ == zeros(ADDRESS_LENGTH as nat),
            r.size == 0,
    {
        Table { id: zero_object_id(), size: 0 }
    }
}

impl Default for TableVec {
    fn default() -> (r: TableVec)
        ensures
            r.contents.id@ == zeros(ADDRESS_LENGTH as nat),
            r.contents.size == 0,
    {
        TableVec { contents: Table { id: zero_object_id(), size: 0 } }
    }
}

impl<K> Default for LinkedTable<K> {
    fn default() -> (r: LinkedTable<K>)
        ensures
            r.id@ == zeros(ADDRESS_LENGTH as nat),
            r.size == 0,
            r.head.vec@.len() == 0,
            r.tail.vec@.len() == 0,
    {
        LinkedTable {
            id: zero_object_id(),
            size: 0,
            head: MoveOption { vec: Vec::new() },
            tail: MoveOption { vec: Vec::new() },
        }
    }
}

impl Default for SuiSystemState {
    /// A system state at epoch zero with no validators.
    fn default() -> (r: SuiSystemState)
        ensures
            r.info.id@ == system_state_object_id(),
            r.epoch == 0,
            r.protocol_version == PROTOCOL_VERSION_MIN,
            r.validators.validator_stake == 1,
            r.validators.delegation_stake == 1,
            r.validators.active_validators@.len() == 0,
            r.validators.pending_validators.contents.size == 0,
            r.validators.pending_removals@.len() == 0,
            r.validators.staking_pool_mappings.size == 0,
            r.storage_fund.value == 0,
            r.parameters.min_validator_stake == 1,
            r.parameters.max_validator_candidate_count == 100,
            r.reference_gas_price == 1,
            r.validator_report_records.contents@.len() == 0,
            r.stake_subsidy.epoch_counter == 0,
            r.stake_subsidy.balance.value == 0,
            r.stake_subsidy.current_epoch_amount == 0,
            !r.safe_mode,
            r.epoch_start_timestamp_ms == 0,
    {
        let validator_set = ValidatorSet {
            validator_stake: 1,
            delegation_stake: 1,
            active_validators: Vec::new(),
            pending_validators: TableVec::default(),
            pending_removals: Vec::new(),
            staking_pool_mappings: Table::default(),
        };
        SuiSystemState {
            info: UID { id: sui_system_state_object_id() },
            epoch: 0,
            protocol_version: PROTOCOL_VERSION_MIN,
            validators: validator_set,
            storage_fund: Balance { value: 0 },
            parameters: SystemParameters { min_validator_stake: 1, max_validator_candidate_count: 100 },
            reference_gas_price: 1,
            validator_report_records: VecMap { contents: Vec::new() },
            stake_subsidy: StakeSubsidy { epoch_counter: 0, balance: Balance { value: 0 }, current_epoch_amount: 0 },
            safe_mode: false,
            epoch_start_timestamp_ms: 0,
        }
    }
}

/// The system state held by the wrapper object, if the object was found.
pub fn get_sui_system_state(wrapper: Option<SuiSystemStateWrapper>) -> (r: Result<SuiSystemState, SuiError>)
    ensures
        r is Ok <==> wrapper is Some,
        r matches Ok(s) ==> s == wrapper->Some_0.system_state,
        r matches Err(e) ==> e == SuiError::SuiSystemStateNotFound,
{
    match wrapper {
        Some(w) => Ok(w.system_state),
        None => Err(SuiError::SuiSystemStateNotFound),
    }
}

} // verus!
