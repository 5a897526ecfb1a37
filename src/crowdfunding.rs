use vstd::prelude::*;

use crate::errors::CrowdfundingError;
use crate::events::{campaign_created, pool_created, pool_state_updated, Notification};
use crate::store::{CampaignBook, KeyValueStore};
use crate::types::{
    Address, CampaignDetails, PoolConfig, PoolMetrics, PoolState, StorageKey, StoredValue,
};

verus! {

/// The abstract state of the registry: the campaigns by id bytes, the keyed
/// pool records and id counter, and the notices queued for publication.
pub ghost struct ContractModel {
    pub campaigns: Map<Seq<u8>, CampaignDetails>,
    pub entries: Map<StorageKey, StoredValue>,
    pub notifications: Seq<Notification>,
}

impl ContractModel {
    /// The registry before any operation.
    pub open spec fn empty() -> ContractModel {
        ContractModel {
            campaigns: Map::empty(),
            entries: Map::empty(),
            notifications: Seq::empty(),
        }
    }

    /// The stored id counter, if any.
    pub open spec fn stored_next_pool_id(self) -> Option<u64> {
        if self.entries.contains_key(StorageKey::NextPoolId) {
            match self.entries[StorageKey::NextPoolId] {
                StoredValue::Counter(n) => Some(n),
                _ => None,
            }
        } else {
            None
        }
    }

    /// The id that the next pool receives.
    pub open spec fn next_pool_id(self) -> u64 {
        allocated_id(self.stored_next_pool_id())
    }

    /// Whether a configuration is stored for the pool.
    pub open spec fn has_pool(self, pool_id: u64) -> bool {
        self.entries.contains_key(StorageKey::Pool(pool_id))
    }

    /// The stored configuration of the pool.
    pub open spec fn pool_config(self, pool_id: u64) -> Option<PoolConfig> {
        if self.entries.contains_key(StorageKey::Pool(pool_id)) {
            match self.entries[StorageKey::Pool(pool_id)] {
                StoredValue::Config(c) => Some(c),
                _ => None,
            }
        } else {
            None
        }
    }

    /// The stored state record of the pool.
    pub open spec fn pool_state(self, pool_id: u64) -> Option<PoolState> {
        if self.entries.contains_key(StorageKey::PoolState(pool_id)) {
            match self.entries[StorageKey::PoolState(pool_id)] {
                StoredValue::State(s) => Some(s),
                _ => None,
            }
        } else {
            None
        }
    }

    /// The state that decides a transition: the stored one, else `Active`.
    pub open spec fn current_state(self, pool_id: u64) -> PoolState {
        match self.pool_state(pool_id) {
            Some(s) => s,
            None => PoolState::Active,
        }
    }

    /// The stored metrics of the pool.
    pub open spec fn pool_metrics(self, pool_id: u64) -> Option<PoolMetrics> {
        if self.entries.contains_key(StorageKey::PoolMetrics(pool_id)) {
            match self.entries[StorageKey::PoolMetrics(pool_id)] {
                StoredValue::Metrics(x) => Some(x),
                _ => None,
            }
        } else {
            None
        }
    }
}

/// The checks on a new campaign, in the order in which they are made.
pub open spec fn campaign_check(title: Seq<char>, goal: i128, deadline: u64, now: u64) -> Result<
    (),
    CrowdfundingError,
> {
    if title.len() == 0 {
        Err(CrowdfundingError::InvalidTitle)
    } else if goal <= 0 {
        Err(CrowdfundingError::InvalidGoal)
    } else if deadline <= now {
        Err(CrowdfundingError::InvalidDeadline)
    } else {
        Ok(())
    }
}

/// The checks on a new pool, in the order in which they are made.
pub open spec fn pool_check(name: Seq<char>, target_amount: i128, deadline: u64, now: u64) -> Result<
    (),
    CrowdfundingError,
> {
    if name.len() == 0 {
        Err(CrowdfundingError::InvalidPoolName)
    } else if target_amount <= 0 {
        Err(CrowdfundingError::InvalidPoolTarget)
    } else if deadline <= now {
        Err(CrowdfundingError::InvalidPoolDeadline)
    } else {
        Ok(())
    }
}

/// A pool may leave any state but a terminal one, to any state.
pub open spec fn transition_check(current: PoolState, new_state: PoolState) -> Result<
    (),
    CrowdfundingError,
> {
    if current.spec_is_terminal() {
        Err(CrowdfundingError::InvalidPoolState)
    } else {
        Ok(())
    }
}

/// The answer to a campaign creation, given whether its id is taken: the
/// field checks come first.
pub open spec fn create_campaign_decision(
    title: Seq<char>,
    goal: i128,
    deadline: u64,
    now: u64,
    id_taken: bool,
) -> Result<(), CrowdfundingError> {
    match campaign_check(title, goal, deadline, now) {
        Err(e) => Err(e),
        Ok(_) => if id_taken {
            Err(CrowdfundingError::CampaignAlreadyExists)
        } else {
            Ok(())
        },
    }
}

/// The answer to a pool creation, given whether the id to allocate is taken:
/// the field checks come first.
pub open spec fn save_pool_decision(
    name: Seq<char>,
    target_amount: i128,
    deadline: u64,
    now: u64,
    id_taken: bool,
) -> Result<(), CrowdfundingError> {
    match pool_check(name, target_amount, deadline, now) {
        Err(e) => Err(e),
        Ok(_) => if id_taken {
            Err(CrowdfundingError::PoolAlreadyExists)
        } else {
            Ok(())
        },
    }
}

/// The id that a pool receives from the stored counter: the counter, else 1.
pub open spec fn allocated_id(stored_next: Option<u64>) -> u64 {
    match stored_next {
        Some(n) => n,
        None => 1,
    }
}

/// The answer to a state change, given whether the pool has a configuration
/// and its stored state record; a missing record counts as `Active`.
pub open spec fn update_pool_state_decision(
    pool_exists: bool,
    stored_state: Option<PoolState>,
    new_state: PoolState,
) -> Result<(), CrowdfundingError> {
    if !pool_exists {
        Err(CrowdfundingError::PoolNotFound)
    } else {
        match stored_state {
            Some(s) => transition_check(s, new_state),
            None => transition_check(PoolState::Active, new_state),
        }
    }
}

/// What creating a campaign does to the registry, and what it returns.
pub open spec fn create_campaign_outcome(
    m: ContractModel,
    now: u64,
    id: [u8; 32],
    title: String,
    creator: Address,
    goal: i128,
    deadline: u64,
) -> (ContractModel, Result<(), CrowdfundingError>) {
    match create_campaign_decision(title@, goal, deadline, now, m.campaigns.contains_key(id@)) {
        Err(e) => (m, Err(e)),
        Ok(_) => {
            let c = CampaignDetails { id, title, creator, goal, deadline };
            let n = Notification::CampaignCreated { id, title, creator, goal, deadline };
            (
                ContractModel {
                    campaigns: m.campaigns.insert(id@, c),
                    entries: m.entries,
                    notifications: m.notifications.push(n),
                },
                Ok(()),
            )
        },
    }
}

/// What looking up a campaign returns.
pub open spec fn get_campaign_outcome(m: ContractModel, id: Seq<u8>) -> Result<
    CampaignDetails,
    CrowdfundingError,
> {
    if m.campaigns.contains_key(id) {
        Ok(m.campaigns[id])
    } else {
        Err(CrowdfundingError::CampaignNotFound)
    }
}

/// What creating a pool does to the registry, and what it returns: the
/// configuration, the `Active` state and empty metrics are written together
/// under the allocated id, and the counter moves one past it.
pub open spec fn save_pool_outcome(
    m: ContractModel,
    now: u64,
    name: String,
    description: String,
    creator: Address,
    target_amount: i128,
    deadline: u64,
) -> (ContractModel, Result<u64, CrowdfundingError>) {
    let id = m.next_pool_id();
    match save_pool_decision(name@, target_amount, deadline, now, m.has_pool(id)) {
        Err(e) => (m, Err(e)),
        Ok(_) => {
            let config = PoolConfig {
                id,
                name,
                description,
                creator,
                target_amount,
                deadline,
                created_at: now,
            };
            let n = Notification::PoolCreated {
                pool_id: id,
                name,
                description,
                creator,
                target_amount,
                deadline,
            };
            let entries = m.entries.insert(StorageKey::Pool(id), StoredValue::Config(config)).insert(
                StorageKey::PoolState(id),
                StoredValue::State(PoolState::Active),
            ).insert(StorageKey::PoolMetrics(id), StoredValue::Metrics(PoolMetrics::spec_empty())).insert(
                StorageKey::NextPoolId,
                StoredValue::Counter((id + 1) as u64),
            );
            (
                ContractModel {
                    campaigns: m.campaigns,
                    entries,
                    notifications: m.notifications.push(n),
                },
                Ok(id),
            )
        },
    }
}

/// What a state change of a pool does to the registry, and what it returns.
pub open spec fn update_pool_state_outcome(
    m: ContractModel,
    pool_id: u64,
    new_state: PoolState,
) -> (ContractModel, Result<(), CrowdfundingError>) {
    match update_pool_state_decision(m.has_pool(pool_id), m.pool_state(pool_id), new_state) {
        Err(e) => (m, Err(e)),
        Ok(_) => (
            ContractModel {
                campaigns: m.campaigns,
                entries: m.entries.insert(StorageKey::PoolState(pool_id), StoredValue::State(new_state)),
                notifications: m.notifications.push(
                    Notification::PoolStateUpdated { pool_id, new_state },
                ),
            },
            Ok(()),
        ),
    }
}

/// Checks the fields of a new campaign against the ledger time `now`.
pub fn validate_campaign(title: &str, goal: i128, deadline: u64, now: u64) -> (r: Result<
    (),
    CrowdfundingError,
>)
    ensures
        r == campaign_check(title@, goal, deadline, now),
{
    if title.is_empty() {
        Err(CrowdfundingError::InvalidTitle)
    } else if goal <= 0 {
        Err(CrowdfundingError::InvalidGoal)
    } else if deadline <= now {
        Err(CrowdfundingError::InvalidDeadline)
    } else {
        Ok(())
    }
}

/// Checks the fields of a new pool against the ledger time `now`.
pub fn validate_pool(name: &str, target_amount: i128, deadline: u64, now: u64) -> (r: Result<
    (),
    CrowdfundingError,
>)
    ensures
        r == pool_check(name@, target_amount, deadline, now),
{
    if name.is_empty() {
        Err(CrowdfundingError::InvalidPoolName)
    } else if target_amount <= 0 {
        Err(CrowdfundingError::InvalidPoolTarget)
    } else if deadline <= now {
        Err(CrowdfundingError::InvalidPoolDeadline)
    } else {
        Ok(())
    }
}

/// Decides whether a pool in state `current` may move to `new_state`.
pub fn check_transition(current: PoolState, new_state: PoolState) -> (r: Result<
    (),
    CrowdfundingError,
>)
    ensures
        r == transition_check(current, new_state),
        r is Ok <==> !current.spec_is_terminal(),
{
    if current.is_terminal() {
        Err(CrowdfundingError::InvalidPoolState)
    } else {
        Ok(())
    }
}

/// Decides a campaign creation from its fields, the ledger time `now` and
/// whether a campaign is already stored under its id.
pub fn decide_create_campaign(
    title: &str,
    goal: i128,
    deadline: u64,
    now: u64,
    id_taken: bool,
) -> (r: Result<(), CrowdfundingError>)
    ensures
        r == create_campaign_decision(title@, goal, deadline, now, id_taken),
{
    match validate_campaign(title, goal, deadline, now) {
        Err(e) => Err(e),
        Ok(_) => if id_taken {
            Err(CrowdfundingError::CampaignAlreadyExists)
        } else {
            Ok(())
        },
    }
}

/// Decides a pool creation from its fields, the ledger time `now` and
/// whether a pool is already stored under the id to allocate.
pub fn decide_save_pool(
    name: &str,
    target_amount: i128,
    deadline: u64,
    now: u64,
    id_taken: bool,
) -> (r: Result<(), CrowdfundingError>)
    ensures
        r == save_pool_decision(name@, target_amount, deadline, now, id_taken),
{
    match validate_pool(name, target_amount, deadline, now) {
        Err(e) => Err(e),
        Ok(_) => if id_taken {
            Err(CrowdfundingError::PoolAlreadyExists)
        } else {
            Ok(())
        },
    }
}

/// The id that the next pool receives, from the stored counter.
pub fn allocate_pool_id(stored_next: Option<u64>) -> (r: u64)
    ensures
        r == allocated_id(stored_next),
{
    match stored_next {
        Some(n) => n,
        None => 1,
    }
}

/// Decides a state change from whether the pool has a configuration and its
/// stored state record.
pub fn decide_update_pool_state(
    pool_exists: bool,
    stored_state: Option<PoolState>,
    new_state: PoolState,
) -> (r: Result<(), CrowdfundingError>)
    ensures
        r == update_pool_state_decision(pool_exists, stored_state, new_state),
{
    if !pool_exists {
        return Err(CrowdfundingError::PoolNotFound);
    }
    match stored_state {
        Some(s) => check_transition(s, new_state),
        None => check_transition(PoolState::Active, new_state),
    }
}

/// The registry: campaigns, pools with their lifecycle, and the notices
/// that its changes queue for publication.
pub struct CrowdfundingContract {
    campaigns: CampaignBook,
    storage: KeyValueStore,
    notifications: Vec<Notification>,
}

impl View for CrowdfundingContract {
    type V = ContractModel;

    closed spec fn view(&self) -> ContractModel {
        ContractModel {
            campaigns: self.campaigns@,
            entries: self.storage@,
            notifications: self.notifications@,
        }
    }
}

impl CrowdfundingContract {
    /// An empty registry.
    pub fn new() -> (r: CrowdfundingContract)
        ensures
            r@ == ContractModel::empty(),
    {
        CrowdfundingContract {
            campaigns: CampaignBook::new(),
            storage: KeyValueStore::new(),
            notifications: Vec::new(),
        }
    }

    /// Creates the campaign `id` at ledger time `now`, once the creator's
    /// authorisation has been obtained.
    pub fn create_campaign(
        &mut self,
        now: u64,
        id: [u8; 32],
        title: String,
        creator: Address,
        goal: i128,
        deadline: u64,
    ) -> (r: Result<(), CrowdfundingError>)
        ensures
            (final(self)@, r) == create_campaign_outcome(
                old(self)@,
                now,
                id,
                title,
                creator,
                goal,
                deadline,
            ),
    {
        let id_taken = self.campaigns.get(&id).is_some();
        match decide_create_campaign(title.as_str(), goal, deadline, now, id_taken) {
            Err(e) => {
                return Err(e);
            },
            Ok(_) => {},
        }
        let campaign = CampaignDetails {
            id,
            title: title.clone(),
            creator,
            goal,
            deadline,
        };
        self.campaigns.insert(campaign);
        self.notifications.push(campaign_created(id, title, creator, goal, deadline));
        Ok(())
    }

    /// The campaign stored under `id`.
    pub fn get_campaign(&self, id: [u8; 32]) -> (r: Result<CampaignDetails, CrowdfundingError>)
        ensures
            r == get_campaign_outcome(self@, id@),
    {
        match self.campaigns.get(&id) {
            Some(c) => Ok(c.clone()),
            None => Err(CrowdfundingError::CampaignNotFound),
        }
    }

    /// The id that the next pool will receive.
    pub fn next_pool_id(&self) -> (r: u64)
        ensures
            r == self@.next_pool_id(),
    {
        let stored = match self.storage.get(&StorageKey::NextPoolId) {
            Some(StoredValue::Counter(n)) => Some(*n),
            _ => None,
        };
        allocate_pool_id(stored)
    }

    /// Creates a pool at ledger time `now`, once the creator's authorisation
    /// has been obtained, and returns its id. The counter must have room for
    /// the id after this one.
    pub fn save_pool(
        &mut self,
        now: u64,
        name: String,
        description: String,
        creator: Address,
        target_amount: i128,
        deadline: u64,
    ) -> (r: Result<u64, CrowdfundingError>)
        requires
            old(self)@.next_pool_id() < u64::MAX,
        ensures
            (final(self)@, r) == save_pool_outcome(
                old(self)@,
                now,
                name,
                description,
                creator,
                target_amount,
                deadline,
            ),
    {
        let pool_id = self.next_pool_id();
        let id_taken = self.storage.has(&StorageKey::Pool(pool_id));
        match decide_save_pool(name.as_str(), target_amount, deadline, now, id_taken) {
            Err(e) => {
                return Err(e);
            },
            Ok(_) => {},
        }
        let config = PoolConfig {
            id: pool_id,
            name: name.clone(),
            description: description.clone(),
            creator,
            target_amount,
            deadline,
            created_at: now,
        };
        self.storage.set(StorageKey::Pool(pool_id), StoredValue::Config(config));
        self.storage.set(StorageKey::PoolState(pool_id), StoredValue::State(PoolState::Active));
        self.storage.set(StorageKey::PoolMetrics(pool_id), StoredValue::Metrics(PoolMetrics::empty()));
        self.storage.set(StorageKey::NextPoolId, StoredValue::Counter(pool_id + 1));
        self.notifications.push(
            pool_created(pool_id, name, description, creator, target_amount, deadline),
        );
        Ok(pool_id)
    }

    /// The configuration of the pool, or `None` where there is no such pool.
    pub fn get_pool(&self, pool_id: u64) -> (r: Option<PoolConfig>)
        ensures
            r == self@.pool_config(pool_id),
    {
        match self.storage.get(&StorageKey::Pool(pool_id)) {
            Some(StoredValue::Config(c)) => Some(c.clone()),
            _ => None,
        }
    }

    /// The stored lifecycle state of the pool.
    pub fn get_pool_state(&self, pool_id: u64) -> (r: Option<PoolState>)
        ensures
            r == self@.pool_state(pool_id),
    {
        match self.storage.get(&StorageKey::PoolState(pool_id)) {
            Some(StoredValue::State(s)) => Some(*s),
            _ => None,
        }
    }

    /// The stored metrics of the pool.
    pub fn get_pool_metrics(&self, pool_id: u64) -> (r: Option<PoolMetrics>)
        ensures
            r == self@.pool_metrics(pool_id),
    {
        match self.storage.get(&StorageKey::PoolMetrics(pool_id)) {
            Some(StoredValue::Metrics(x)) => Some(*x),
            _ => None,
        }
    }

    /// Moves the pool to `new_state`, unless it has no configuration or its
    /// current state is terminal.
    pub fn update_pool_state(&mut self, pool_id: u64, new_state: PoolState) -> (r: Result<
        (),
        CrowdfundingError,
    >)
        ensures
            (final(self)@, r) == update_pool_state_outcome(old(self)@, pool_id, new_state),
    {
        let pool_exists = self.storage.has(&StorageKey::Pool(pool_id));
        let stored_state = self.get_pool_state(pool_id);
        match decide_update_pool_state(pool_exists, stored_state, new_state) {
            Err(e) => {
                return Err(e);
            },
            Ok(_) => {},
        }
        self.storage.set(StorageKey::PoolState(pool_id), StoredValue::State(new_state));
        self.notifications.push(pool_state_updated(pool_id, new_state));
        Ok(())
    }

    /// Hands out the queued notices, oldest first, and empties the queue.
    pub fn take_notifications(&mut self) -> (r: Vec<Notification>)
        ensures
            r@ == old(self)@.notifications,
            final(self)@ == (ContractModel {
                notifications: Seq::empty(),
                ..old(self)@
            }),
    {
        let mut out: Vec<Notification> = Vec::new();
        std::mem::swap(&mut self.notifications, &mut out);
        out
    }
}

} // verus!
