//! Committees (stake-weighted authority sets of one epoch) and the store that
//! resolves an epoch to its committee.
use vstd::prelude::*;
use crate::base_types::AuthorityName;
use crate::error::{CommitteeFault, SuiError};

verus! {

pub type EpochId = u64;

pub type StakeUnit = u64;

/// The members of one epoch's committee with their voting stake.
#[derive(Clone, Debug)]
pub struct Committee {
    pub epoch: EpochId,
    pub protocol_version: u64,
    pub voting_rights: Vec<(AuthorityName, StakeUnit)>,
}

/// The sum of the stakes in `v`.
pub open spec fn stake_total(v: Seq<(AuthorityName, StakeUnit)>) -> nat
    decreases v.len(),
{
    if v.len() == 0 {
        0
    } else {
        stake_total(v.drop_last()) + v.last().1 as nat
    }
}

/// No name occurs twice in `v`.
pub open spec fn names_unique<V>(v: Seq<(AuthorityName, V)>) -> bool {
    forall|i: int, j: int| 0 <= i < j < v.len() ==> v[i].0@ != v[j].0@
}

/// The value recorded for `name` in `v`; where a name occurs twice, the last
/// entry counts.
pub open spec fn lookup<V>(v: Seq<(AuthorityName, V)>, name: Seq<u8>) -> Option<V>
    decreases v.len(),
{
    if v.len() == 0 {
        None
    } else if v.last().0@ == name {
        Some(v.last().1)
    } else {
        lookup(v.drop_last(), name)
    }
}

/// Replacing the entry of a name in a list of distinct names changes only
/// what that name maps to.
proof fn lemma_lookup_update<V>(v: Seq<(AuthorityName, V)>, j: int, e: (AuthorityName, V), k: Seq<u8>)
    requires
        names_unique(v),
        0 <= j < v.len(),
        v[j].0@ == e.0@,
    ensures
        lookup(v.update(j, e), k) == if k == e.0@ { Some(e.1) } else { lookup(v, k) },
    decreases v.len(),
{
    let w = v.update(j, e);
    if j == v.len() - 1 {
        assert(w.drop_last() =~= v.drop_last());
    } else {
        assert(w.drop_last() =~= v.drop_last().update(j, e));
        assert(v[j].0@ != v[v.len() - 1].0@);
        lemma_lookup_update(v.drop_last(), j, e, k);
    }
}

/// Replacing one entry changes the total by the difference of the stakes.
pub proof fn lemma_stake_total_update(v: Seq<(AuthorityName, StakeUnit)>, j: int, e: (AuthorityName, StakeUnit))
    requires
        0 <= j < v.len(),
    ensures
        stake_total(v.update(j, e)) + v[j].1 == stake_total(v) + e.1,
    decreases v.len(),
{
    let w = v.update(j, e);
    if j == v.len() - 1 {
        assert(w.drop_last() =~= v.drop_last());
    } else {
        assert(w.drop_last() =~= v.drop_last().update(j, e));
        lemma_stake_total_update(v.drop_last(), j, e);
    }
}

/// Records `value` for `name`, replacing the entry of that name if there is one.
pub fn insert_entry<V>(v: &mut Vec<(AuthorityName, V)>, name: AuthorityName, value: V)
    requires
        names_unique(old(v)@),
    ensures
        names_unique(final(v)@),
        forall|k: Seq<u8>| #[trigger] lookup(final(v)@, k) == if k == name@ { Some(value) } else { lookup(old(v)@, k) },
        final(v)@ == old(v)@.push((name, value)) || exists|j: int| 0 <= j < old(v)@.len()
            && old(v)@[j].0@ == name@ && final(v)@ == old(v)@.update(j, (name, value)),
{
    let mut j: usize = 0;
    while j < v.len()
        invariant
            *v == *old(v),
            names_unique(v@),
            j <= v@.len(),
            forall|i: int| 0 <= i < j ==> v@[i].0@ != name@,
        decreases v@.len() - j,
    {
        if v[j].0.same_as(&name) {
            let ghost before = v@;
            let ghost n = name@;
            let ghost e = (name, value);
            v.set(j, (name, value));
            proof {
                assert(v@ == before.update(j as int, e));
                assert forall|a: int, b: int| 0 <= a < b < v@.len() implies v@[a].0@ != v@[b].0@ by {
                    assert(before[a].0@ != before[b].0@);
                }
                assert forall|k: Seq<u8>| #[trigger] lookup(v@, k) == if k == n { Some(e.1) } else { lookup(before, k) } by {
                    lemma_lookup_update(before, j as int, e, k);
                }
            }
            return;
        }
        j = j + 1;
    }
    let ghost before = v@;
    v.push((name, value));
    proof {
        assert(v@.drop_last() =~= before);
        assert forall|a: int, b: int| 0 <= a < b < v@.len() implies v@[a].0@ != v@[b].0@ by {
            if b < before.len() {
                assert(before[a].0@ != before[b].0@);
            }
        }
    }
}

/// The conditions under which a member list forms a committee.
pub open spec fn valid_members(v: Seq<(AuthorityName, StakeUnit)>) -> bool {
    &&& v.len() > 0
    &&& forall|i: int| 0 <= i < v.len() ==> v[i].1 > 0
    &&& names_unique(v)
    &&& stake_total(v) <= u64::MAX
}

/// Which of the conditions of `valid_members` fails first.
pub open spec fn members_fault(v: Seq<(AuthorityName, StakeUnit)>) -> CommitteeFault {
    if v.len() == 0 {
        CommitteeFault::NoMembers
    } else if exists|i: int| 0 <= i < v.len() && v[i].1 == 0 {
        CommitteeFault::ZeroStake
    } else if !names_unique(v) {
        CommitteeFault::DuplicateMember
    } else {
        CommitteeFault::StakeOverflow
    }
}

pub proof fn lemma_stake_total_push(v: Seq<(AuthorityName, StakeUnit)>, e: (AuthorityName, StakeUnit))
    ensures
        stake_total(v.push(e)) == stake_total(v) + e.1 as nat,
{
    assert(v.push(e).drop_last() =~= v);
}

impl Committee {
    pub open spec fn epoch_spec(&self) -> EpochId {
        self.epoch
    }

    pub open spec fn members(&self) -> Seq<(AuthorityName, StakeUnit)> {
        self.voting_rights@
    }

    pub open spec fn protocol_version_spec(&self) -> u64 {
        self.protocol_version
    }

    pub open spec fn wf(&self) -> bool {
        valid_members(self.voting_rights@)
    }

    pub open spec fn total_votes_spec(&self) -> nat {
        stake_total(self.voting_rights@)
    }

    /// More than two thirds of the total stake.
    pub open spec fn quorum_threshold_spec(&self) -> nat {
        2 * self.total_votes_spec() / 3 + 1
    }

    /// The stake of the member called `name`, if it is one.
    pub open spec fn stake_of(&self, name: Seq<u8>) -> Option<StakeUnit> {
        lookup(self.voting_rights@, name)
    }

    /// Forms the committee of `epoch`; fails unless the members are non-empty,
    /// distinct, each with positive stake, and their total stake fits in 64 bits.
    pub fn new(epoch: EpochId, protocol_version: u64, voting_rights: Vec<(AuthorityName, StakeUnit)>) -> (r: Result<Committee, SuiError>)
        ensures
            r is Ok <==> valid_members(voting_rights@),
            r matches Ok(c) ==> c.epoch == epoch && c.protocol_version == protocol_version
                && c.voting_rights@ == voting_rights@ && c.wf(),
            r matches Err(e) ==> e == SuiError::InvalidCommittee(members_fault(voting_rights@)),
    {
        let n = voting_rights.len();
        if n == 0 {
            return Err(SuiError::InvalidCommittee(CommitteeFault::NoMembers));
        }
        let mut i: usize = 0;
        while i < n
            invariant
                n == voting_rights@.len(),
                i <= n,
                forall|k: int| 0 <= k < i ==> voting_rights@[k].1 > 0,
            decreases n - i,
        {
            if voting_rights[i].1 == 0 {
                return Err(SuiError::InvalidCommittee(CommitteeFault::ZeroStake));
            }
            i = i + 1;
        }
        let mut i: usize = 0;
        while i < n
            invariant
                n == voting_rights@.len(),
                i <= n,
                forall|k: int| 0 <= k < n ==> voting_rights@[k].1 != 0,
                forall|a: int, b: int| 0 <= a < b < n && a < i ==> voting_rights@[a].0@ != voting_rights@[b].0@,
            decreases n - i,
        {
            let mut j: usize = i + 1;
            while j < n
                invariant
                    n == voting_rights@.len(),
                    i < n,
                    i < j <= n,
                    forall|k: int| 0 <= k < n ==> voting_rights@[k].1 != 0,
                    forall|a: int, b: int| 0 <= a < b < n && a < i ==> voting_rights@[a].0@ != voting_rights@[b].0@,
                    forall|b: int| i < b < j ==> voting_rights@[i as int].0@ != voting_rights@[b].0@,
                decreases n - j,
            {
                if voting_rights[i].0.same_as(&voting_rights[j].0) {
                    assert(!names_unique(voting_rights@));
                    return Err(SuiError::InvalidCommittee(CommitteeFault::DuplicateMember));
                }
                j = j + 1;
            }
            i = i + 1;
        }
        let mut total: u64 = 0;
        let mut i: usize = 0;
        while i < n
            invariant
                n == voting_rights@.len(),
                i <= n,
                total as nat == stake_total(voting_rights@.subrange(0, i as int)),
                forall|k: int| 0 <= k < n ==> voting_rights@[k].1 != 0,
                names_unique(voting_rights@),
            decreases n - i,
        {
            proof {
                lemma_stake_total_push(voting_rights@.subrange(0, i as int), voting_rights@[i as int]);
                assert(voting_rights@.subrange(0, i + 1) =~= voting_rights@.subrange(0, i as int).push(voting_rights@[i as int]));
            }
            match total.checked_add(voting_rights[i].1) {
                Some(t) => {
                    total = t;
                },
                None => {
                    proof { lemma_stake_total_prefix(voting_rights@, i as int + 1); }
                    return Err(SuiError::InvalidCommittee(CommitteeFault::StakeOverflow));
                },
            }
            i = i + 1;
        }
        assert(voting_rights@.subrange(0, n as int) =~= voting_rights@);
        Ok(Committee { epoch, protocol_version, voting_rights })
    }

    pub fn epoch(&self) -> (r: EpochId)
        ensures
            r == self.epoch,
    {
        self.epoch
    }

    pub fn protocol_version(&self) -> (r: u64)
        ensures
            r == self.protocol_version,
    {
        self.protocol_version
    }

    pub fn voting_rights(&self) -> (r: &Vec<(AuthorityName, StakeUnit)>)
        ensures
            r@ == self.voting_rights@,
    {
        &self.voting_rights
    }

    /// The stake of the member called `name`, or `None` if it is no member.
    pub fn weight(&self, name: &AuthorityName) -> (r: Option<StakeUnit>)
        ensures
            r == self.stake_of(name@),
    {
        let mut i: usize = self.voting_rights.len();
        assert(self.voting_rights@.subrange(0, i as int) =~= self.voting_rights@);
        while i > 0
            invariant
                i <= self.voting_rights@.len(),
                lookup(self.voting_rights@, name@) == lookup(self.voting_rights@.subrange(0, i as int), name@),
            decreases i,
        {
            assert(self.voting_rights@.subrange(0, i as int).drop_last() =~= self.voting_rights@.subrange(0, i - 1));
            if self.voting_rights[i - 1].0.same_as(name) {
                return Some(self.voting_rights[i - 1].1);
            }
            i = i - 1;
        }
        None
    }

    pub fn quorum_threshold(&self) -> (r: StakeUnit)
        requires
            self.wf(),
        ensures
            r == self.quorum_threshold_spec(),
    {
        let total = self.total_votes();
        total / 3 * 2 + (total % 3) * 2 / 3 + 1
    }

    pub fn total_votes(&self) -> (r: StakeUnit)
        requires
            self.wf(),
        ensures
            r == self.total_votes_spec(),
    {
        let mut total: u64 = 0;
        let mut i: usize = 0;
        while i < self.voting_rights.len()
            invariant
                self.wf(),
                i <= self.voting_rights@.len(),
                total as nat == stake_total(self.voting_rights@.subrange(0, i as int)),
            decreases self.voting_rights@.len() - i,
        {
            proof {
                lemma_stake_total_push(self.voting_rights@.subrange(0, i as int), self.voting_rights@[i as int]);
                assert(self.voting_rights@.subrange(0, i + 1) =~= self.voting_rights@.subrange(0, i as int).push(self.voting_rights@[i as int]));
                lemma_stake_total_prefix(self.voting_rights@, i as int + 1);
            }
            total = total + self.voting_rights[i].1;
            i = i + 1;
        }
        assert(self.voting_rights@.subrange(0, i as int) =~= self.voting_rights@);
        total
    }
}

/// The stake of a prefix is at most the stake of the whole.
proof fn lemma_stake_total_prefix(v: Seq<(AuthorityName, StakeUnit)>, k: int)
    requires
        0 <= k <= v.len(),
    ensures
        stake_total(v.subrange(0, k)) <= stake_total(v),
    decreases v.len() - k,
{
    if k < v.len() {
        lemma_stake_total_prefix(v, k + 1);
        lemma_stake_total_push(v.subrange(0, k), v[k]);
        assert(v.subrange(0, k + 1) =~= v.subrange(0, k).push(v[k]));
    } else {
        assert(v.subrange(0, k) =~= v);
    }
}

/// The committees known locally, at most one per epoch.
#[derive(Debug)]
pub struct CommitteeStore {
    pub(crate) committees: Vec<Committee>,
}

impl CommitteeStore {
    pub closed spec fn wf(&self) -> bool {
        &&& forall|i: int| 0 <= i < self.committees@.len() ==> self.committees@[i].wf()
        &&& forall|i: int, j: int| 0 <= i < j < self.committees@.len()
            ==> self.committees@[i].epoch != self.committees@[j].epoch
    }

    /// Whether a committee for `epoch` is stored.
    pub closed spec fn has_epoch(&self, epoch: EpochId) -> bool {
        exists|i: int| 0 <= i < self.committees@.len() && self.committees@[i].epoch == epoch
    }

    /// The committee stored for `epoch`, when `has_epoch(epoch)`.
    pub closed spec fn committee_at(&self, epoch: EpochId) -> Committee {
        let i = choose|i: int| 0 <= i < self.committees@.len() && self.committees@[i].epoch == epoch;
        self.committees@[i]
    }

    pub fn new() -> (r: CommitteeStore)
        ensures
            r.wf(),
            forall|e: EpochId| !r.has_epoch(e),
    {
        CommitteeStore { committees: Vec::new() }
    }

    /// Stores `committee`; a store is append-only, so a second committee for
    /// an epoch that is known already is not taken and `false` is returned.
    pub fn insert_new_committee(&mut self, committee: Committee) -> (r: bool)
        requires
            old(self).wf(),
            committee.wf(),
        ensures
            final(self).wf(),
            r == !old(self).has_epoch(committee.epoch),
            r ==> final(self).has_epoch(committee.epoch) && final(self).committee_at(committee.epoch) == committee,
            forall|e: EpochId| e != committee.epoch ==> (final(self).has_epoch(e) == old(self).has_epoch(e)
                && (old(self).has_epoch(e) ==> final(self).committee_at(e) == old(self).committee_at(e))),
            !r ==> *final(self) == *old(self),
    {
        let mut i: usize = 0;
        while i < self.committees.len()
            invariant
                i <= self.committees@.len(),
                self.wf(),
                committee.wf(),
                *self == *old(self),
                forall|k: int| 0 <= k < i ==> self.committees@[k].epoch != committee.epoch,
            decreases self.committees@.len() - i,
        {
            if self.committees[i].epoch == committee.epoch {
                return false;
            }
            i = i + 1;
        }
        let ghost before = self.committees@;
        self.committees.push(committee);
        proof {
            let n = before.len() as int;
            assert(self.committees@.subrange(0, n) =~= before);
            assert forall|a: int, b: int| 0 <= a < b < self.committees@.len() implies
                self.committees@[a].epoch != self.committees@[b].epoch by {
                if b == n {
                    assert(before[a].epoch != committee.epoch);
                } else {
                    assert(before[a].epoch != before[b].epoch);
                }
            }
            assert(self.committees@[n].epoch == committee.epoch);
            let c = choose|k: int| 0 <= k < self.committees@.len() && self.committees@[k].epoch == committee.epoch;
            assert(c == n);
            assert forall|e: EpochId| e != committee.epoch implies (self.has_epoch(e) == old(self).has_epoch(e)
                && (old(self).has_epoch(e) ==> self.committee_at(e) == old(self).committee_at(e))) by {
                if self.has_epoch(e) {
                    let k = choose|k: int| 0 <= k < self.committees@.len() && self.committees@[k].epoch == e;
                    assert(k < n);
                    assert(before[k].epoch == e);
                    let k2 = choose|k: int| 0 <= k < before.len() && before[k].epoch == e;
                    if k != k2 {
                        assert(before[k].epoch != before[k2].epoch);
                    }
                    assert(k == k2);
                    assert(self.committees@[k] == before[k]);
                    assert(self.committee_at(e) == self.committees@[k]);
                    assert(old(self).committee_at(e) == before[k2]);
                }
                if old(self).has_epoch(e) {
                    let k = choose|k: int| 0 <= k < before.len() && before[k].epoch == e;
                    assert(self.committees@[k] == before[k]);
                    assert(self.committees@[k].epoch == e);
                    assert(self.has_epoch(e));
                }
            }
        }
        true
    }

    /// The committee of `epoch`, or `MissingCommitteeAtEpoch` if none is stored.
    pub fn get_committee(&self, epoch: EpochId) -> (r: Result<&Committee, SuiError>)
        requires
            self.wf(),
        ensures
            r is Ok <==> self.has_epoch(epoch),
            r matches Ok(c) ==> *c == self.committee_at(epoch) && c.epoch == epoch && c.wf(),
            r matches Err(e) ==> e == SuiError::MissingCommitteeAtEpoch(epoch),
    {
        let mut i: usize = 0;
        while i < self.committees.len()
            invariant
                self.wf(),
                i <= self.committees@.len(),
                forall|k: int| 0 <= k < i ==> self.committees@[k].epoch != epoch,
            decreases self.committees@.len() - i,
        {
            if self.committees[i].epoch == epoch {
                let ghost c = choose|k: int| 0 <= k < self.committees@.len() && self.committees@[k].epoch == epoch;
                proof {
                    assert(c >= i);
                    if c > i {
                        assert(self.committees@[i as int].epoch != self.committees@[c].epoch);
                    }
                }
                return Ok(&self.committees[i]);
            }
            i = i + 1;
        }
        Err(SuiError::MissingCommitteeAtEpoch(epoch))
    }
}

} // verus!
