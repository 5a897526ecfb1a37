use vstd::prelude::*;

use crate::crowdfunding::{
    campaign_check, create_campaign_outcome, get_campaign_outcome, pool_check, save_pool_outcome,
    update_pool_state_outcome, ContractModel,
};
use crate::errors::CrowdfundingError;
use crate::types::{Address, CampaignDetails, PoolMetrics, PoolState};

verus! {

/// A campaign created with valid fields under a fresh id is stored, and
/// reading it back returns exactly the fields it was created with.
pub proof fn lemma_created_campaign_reads_back(
    m: ContractModel,
    now: u64,
    id: [u8; 32],
    title: String,
    creator: Address,
    goal: i128,
    deadline: u64,
)
    requires
        title@.len() > 0,
        goal > 0,
        deadline > now,
        !m.campaigns.contains_key(id@),
    ensures
        ({
            let (after, r) = create_campaign_outcome(m, now, id, title, creator, goal, deadline);
            &&& r == Ok::<(), CrowdfundingError>(())
            &&& get_campaign_outcome(after, id@) == Ok::<CampaignDetails, CrowdfundingError>(
                CampaignDetails { id, title, creator, goal, deadline },
            )
        }),
{
}

/// Once a campaign exists under an id, creating one under that id again fails
/// with `CampaignAlreadyExists` and changes nothing, whatever the other
/// fields are, provided that they pass the field checks (which come first).
pub proof fn lemma_campaign_id_taken_once(
    m: ContractModel,
    now: u64,
    id: [u8; 32],
    title: String,
    creator: Address,
    goal: i128,
    deadline: u64,
    now2: u64,
    title2: String,
    creator2: Address,
    goal2: i128,
    deadline2: u64,
)
    requires
        create_campaign_outcome(m, now, id, title, creator, goal, deadline).1 is Ok,
        campaign_check(title2@, goal2, deadline2, now2) is Ok,
    ensures
        ({
            let after = create_campaign_outcome(m, now, id, title, creator, goal, deadline).0;
            create_campaign_outcome(after, now2, id, title2, creator2, goal2, deadline2) == (
                after,
                Err::<(), CrowdfundingError>(CrowdfundingError::CampaignAlreadyExists),
            )
        }),
{
}

/// Looking up an id under which no campaign was created fails with
/// `CampaignNotFound`.
pub proof fn lemma_unknown_campaign_not_found(m: ContractModel, id: [u8; 32])
    requires
        !m.campaigns.contains_key(id@),
    ensures
        get_campaign_outcome(m, id@) == Err::<CampaignDetails, CrowdfundingError>(
            CrowdfundingError::CampaignNotFound,
        ),
{
}

/// The first pool of an empty registry receives id 1.
pub proof fn lemma_first_pool_id(
    now: u64,
    name: String,
    description: String,
    creator: Address,
    target_amount: i128,
    deadline: u64,
)
    requires
        pool_check(name@, target_amount, deadline, now) is Ok,
    ensures
        save_pool_outcome(
            ContractModel::empty(),
            now,
            name,
            description,
            creator,
            target_amount,
            deadline,
        ).1 == Ok::<u64, CrowdfundingError>(1),
{
}

/// Of two pools created one after the other, by any creators, the second
/// receives the id after the first. (Creation requires room in the counter
/// for the id after the allocated one.)
pub proof fn lemma_pool_ids_consecutive(
    m: ContractModel,
    now: u64,
    name: String,
    description: String,
    creator: Address,
    target_amount: i128,
    deadline: u64,
    now2: u64,
    name2: String,
    description2: String,
    creator2: Address,
    target_amount2: i128,
    deadline2: u64,
)
    requires
        m.next_pool_id() < u64::MAX,
        save_pool_outcome(m, now, name, description, creator, target_amount, deadline).1 is Ok,
        save_pool_outcome(
            save_pool_outcome(m, now, name, description, creator, target_amount, deadline).0,
            now2,
            name2,
            description2,
            creator2,
            target_amount2,
            deadline2,
        ).1 is Ok,
    ensures
        ({
            let (after, r) = save_pool_outcome(
                m,
                now,
                name,
                description,
                creator,
                target_amount,
                deadline,
            );
            let r2 = save_pool_outcome(
                after,
                now2,
                name2,
                description2,
                creator2,
                target_amount2,
                deadline2,
            ).1;
            &&& r->Ok_0 == m.next_pool_id()
            &&& r2->Ok_0 == r->Ok_0 + 1
        }),
{
}

/// A freshly created pool is `Active` and its metrics are all zero.
pub proof fn lemma_new_pool_active_and_empty(
    m: ContractModel,
    now: u64,
    name: String,
    description: String,
    creator: Address,
    target_amount: i128,
    deadline: u64,
)
    requires
        save_pool_outcome(m, now, name, description, creator, target_amount, deadline).1 is Ok,
    ensures
        ({
            let (after, r) = save_pool_outcome(
                m,
                now,
                name,
                description,
                creator,
                target_amount,
                deadline,
            );
            &&& after.pool_state(r->Ok_0) == Some(PoolState::Active)
            &&& after.current_state(r->Ok_0) == PoolState::Active
            &&& after.pool_metrics(r->Ok_0) == Some(
                PoolMetrics { total_donations: 0, donor_count: 0, last_donation_at: 0 },
            )
        }),
{
}

/// A pool in a terminal state stays there: every state change fails with
/// `InvalidPoolState`, the same state included, and changes nothing.
pub proof fn lemma_terminal_state_final(m: ContractModel, pool_id: u64, new_state: PoolState)
    requires
        m.has_pool(pool_id),
        m.current_state(pool_id) == PoolState::Completed || m.current_state(pool_id)
            == PoolState::Cancelled,
    ensures
        update_pool_state_outcome(m, pool_id, new_state) == (
            m,
            Err::<(), CrowdfundingError>(CrowdfundingError::InvalidPoolState),
        ),
{
}

/// A pool that is `Active` or `Paused` may move to any state, and its state
/// then reads as the new one.
pub proof fn lemma_open_state_moves(m: ContractModel, pool_id: u64, new_state: PoolState)
    requires
        m.has_pool(pool_id),
        m.current_state(pool_id) == PoolState::Active || m.current_state(pool_id)
            == PoolState::Paused,
    ensures
        ({
            let (after, r) = update_pool_state_outcome(m, pool_id, new_state);
            &&& r == Ok::<(), CrowdfundingError>(())
            &&& after.pool_state(pool_id) == Some(new_state)
            &&& after.current_state(pool_id) == new_state
        }),
{
}

/// Changing the state of a pool that has no configuration fails with
/// `PoolNotFound` and changes nothing.
pub proof fn lemma_state_of_unknown_pool(m: ContractModel, pool_id: u64, new_state: PoolState)
    requires
        !m.has_pool(pool_id),
    ensures
        update_pool_state_outcome(m, pool_id, new_state) == (
            m,
            Err::<(), CrowdfundingError>(CrowdfundingError::PoolNotFound),
        ),
{
}

} // verus!
