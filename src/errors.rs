use vstd::prelude::*;

verus! {

/// Every failure that an operation of the registry can report.
#[derive(Clone, Copy, Debug, PartialEq, Eq, Structural)]
pub enum CrowdfundingError {
    CampaignNotFound,
    InvalidTitle,
    InvalidGoal,
    InvalidDeadline,
    CampaignAlreadyExists,
    PoolNotFound,
    InvalidPoolName,
    InvalidPoolTarget,
    InvalidPoolDeadline,
    PoolAlreadyExists,
    InvalidPoolState,
}

/// The stable numeric code of each error, from 1 to 11 in declaration order.
pub open spec fn error_code(e: CrowdfundingError) -> u32 {
    match e {
        CrowdfundingError::CampaignNotFound => 1,
        CrowdfundingError::InvalidTitle => 2,
        CrowdfundingError::InvalidGoal => 3,
        CrowdfundingError::InvalidDeadline => 4,
        CrowdfundingError::CampaignAlreadyExists => 5,
        CrowdfundingError::PoolNotFound => 6,
        CrowdfundingError::InvalidPoolName => 7,
        CrowdfundingError::InvalidPoolTarget => 8,
        CrowdfundingError::InvalidPoolDeadline => 9,
        CrowdfundingError::PoolAlreadyExists => 10,
        CrowdfundingError::InvalidPoolState => 11,
    }
}

impl CrowdfundingError {
    /// The numeric code under which the error is reported to callers.
    pub fn code(&self) -> (r: u32)
        ensures
            r == error_code(*self),
            1 <= r <= 11,
    {
        match self {
            CrowdfundingError::CampaignNotFound => 1,
            CrowdfundingError::InvalidTitle => 2,
            CrowdfundingError::InvalidGoal => 3,
            CrowdfundingError::InvalidDeadline => 4,
            CrowdfundingError::CampaignAlreadyExists => 5,
            CrowdfundingError::PoolNotFound => 6,
            CrowdfundingError::InvalidPoolName => 7,
            CrowdfundingError::InvalidPoolTarget => 8,
            CrowdfundingError::InvalidPoolDeadline => 9,
            CrowdfundingError::PoolAlreadyExists => 10,
            CrowdfundingError::InvalidPoolState => 11,
        }
    }
}

} // verus!
