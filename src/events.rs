use vstd::prelude::*;

use crate::types::{Address, PoolState};

verus! {

/// A change notice for outside observers, queued by each successful
/// operation that changes the registry.
#[derive(Debug, PartialEq, Eq)]
pub enum Notification {
    CampaignCreated {
        id: [u8; 32],
        title: String,
        creator: Address,
        goal: i128,
        deadline: u64,
    },
    PoolCreated {
        pool_id: u64,
        name: String,
        description: String,
        creator: Address,
        target_amount: i128,
        deadline: u64,
    },
    PoolStateUpdated { pool_id: u64, new_state: PoolState },
}

/// The notice that a campaign was created.
pub fn campaign_created(
    id: [u8; 32],
    title: String,
    creator: Address,
    goal: i128,
    deadline: u64,
) -> (r: Notification)
    ensures
        r == (Notification::CampaignCreated { id, title, creator, goal, deadline }),
{
    Notification::CampaignCreated { id, title, creator, goal, deadline }
}

/// The notice that a pool was created.
pub fn pool_created(
    pool_id: u64,
    name: String,
    description: String,
    creator: Address,
    target_amount: i128,
    deadline: u64,
) -> (r: Notification)
    ensures
        r == (Notification::PoolCreated {
            pool_id,
            name,
            description,
            creator,
            target_amount,
            deadline,
        }),
{
    Notification::PoolCreated { pool_id, name, description, creator, target_amount, deadline }
}

/// The notice that a pool moved to `new_state`.
pub fn pool_state_updated(pool_id: u64, new_state: PoolState) -> (r: Notification)
    ensures
        r == (Notification::PoolStateUpdated { pool_id, new_state }),
{
    Notification::PoolStateUpdated { pool_id, new_state }
}

} // verus!
