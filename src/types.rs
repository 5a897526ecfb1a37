use vstd::prelude::*;

verus! {

/// An account identity, held as its 32-byte public key.
#[derive(Clone, Copy, Debug, PartialEq, Eq)]
pub struct Address {
    pub key: [u8; 32],
}

/// A campaign as it is stored: fixed once created.
#[derive(Debug, PartialEq, Eq)]
pub struct CampaignDetails {
    pub id: [u8; 32],
    pub title: String,
    pub creator: Address,
    pub goal: i128,
    pub deadline: u64,
}

impl Clone for CampaignDetails {
    fn clone(&self) -> (r: Self)
        ensures
            r == *self,
    {
        CampaignDetails {
            id: self.id,
            title: self.title.clone(),
            creator: self.creator,
            goal: self.goal,
            deadline: self.deadline,
        }
    }
}

/// The configuration of a funding pool, written once when the pool is created.
#[derive(Debug, PartialEq, Eq)]
pub struct PoolConfig {
    pub id: u64,
    pub name: String,
    pub description: String,
    pub creator: Address,
    pub target_amount: i128,
    pub deadline: u64,
    pub created_at: u64,
}

impl Clone for PoolConfig {
    fn clone(&self) -> (r: Self)
        ensures
            r == *self,
    {
        PoolConfig {
            id: self.id,
            name: self.name.clone(),
            description: self.description.clone(),
            creator: self.creator,
            target_amount: self.target_amount,
            deadline: self.deadline,
            created_at: self.created_at,
        }
    }
}

/// The lifecycle state of a pool. `Completed` and `Cancelled` are terminal.
#[derive(Clone, Copy, Debug, PartialEq, Eq, Structural)]
pub enum PoolState {
    Active,
    Paused,
    Completed,
    Cancelled,
}

impl PoolState {
    pub open spec fn spec_is_terminal(self) -> bool {
        self == PoolState::Completed || self == PoolState::Cancelled
    }

    /// Whether no transition may leave this state.
    #[verifier::when_used_as_spec(spec_is_terminal)]
    pub fn is_terminal(self) -> (r: bool)
        ensures
            r == self.spec_is_terminal(),
    {
        match self {
            PoolState::Completed | PoolState::Cancelled => true,
            _ => false,
        }
    }
}

/// Donation figures of a pool.
#[derive(Clone, Copy, Debug, PartialEq, Eq, Structural)]
pub struct PoolMetrics {
    pub total_donations: i128,
    pub donor_count: u32,
    pub last_donation_at: u64,
}

impl PoolMetrics {
    pub open spec fn spec_empty() -> PoolMetrics {
        PoolMetrics { total_donations: 0, donor_count: 0, last_donation_at: 0 }
    }

    /// The figures of a pool that has received nothing yet.
    pub fn empty() -> (r: PoolMetrics)
        ensures
            r == PoolMetrics::spec_empty(),
    {
        PoolMetrics { total_donations: 0, donor_count: 0, last_donation_at: 0 }
    }
}

/// The key of a pool record or of the id counter. Distinct keys never share
/// a slot, so each pool's configuration, state and metrics are addressed
/// independently.
#[derive(Clone, Copy, Debug, PartialEq, Eq, Structural)]
pub enum StorageKey {
    Pool(u64),
    PoolState(u64),
    PoolMetrics(u64),
    NextPoolId,
}

/// A value stored under a `StorageKey`.
#[derive(Debug, PartialEq, Eq)]
pub enum StoredValue {
    Config(PoolConfig),
    State(PoolState),
    Metrics(PoolMetrics),
    Counter(u64),
}

} // verus!
