//! A crowdfunding registry: campaigns keyed by a caller-chosen identifier,
//! funding pools with sequentially allocated ids, and a pool lifecycle state
//! machine whose terminal states admit no further transition.
//!
//! The ledger's clock and the caller's authorisation are supplied from
//! outside: every operation that needs the current time takes it as `now`,
//! and the change notices that operations queue are handed out by
//! `CrowdfundingContract::take_notifications` for publication.

mod crowdfunding;
mod errors;
mod events;
mod laws;
mod store;
mod types;

pub use crowdfunding::{
    allocate_pool_id, allocated_id, campaign_check, check_transition, create_campaign_decision,
    create_campaign_outcome, decide_create_campaign, decide_save_pool, decide_update_pool_state,
    get_campaign_outcome, pool_check, save_pool_decision, save_pool_outcome, transition_check,
    update_pool_state_decision, update_pool_state_outcome, validate_campaign, validate_pool,
    ContractModel, CrowdfundingContract,
};
pub use errors::{error_code, CrowdfundingError};
pub use events::{campaign_created, pool_created, pool_state_updated, Notification};
pub use laws::{
    lemma_campaign_id_taken_once, lemma_created_campaign_reads_back, lemma_first_pool_id,
    lemma_new_pool_active_and_empty, lemma_open_state_moves, lemma_pool_ids_consecutive,
    lemma_state_of_unknown_pool, lemma_terminal_state_final, lemma_unknown_campaign_not_found,
};
pub use store::{campaigns_map, entries_map, CampaignBook, KeyValueStore};
pub use types::{
    Address, CampaignDetails, PoolConfig, PoolMetrics, PoolState, StorageKey, StoredValue,
};
