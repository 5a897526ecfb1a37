use crowdfunding::{
    allocate_pool_id, decide_create_campaign, decide_save_pool, decide_update_pool_state,
    campaign_created, check_transition, pool_created, pool_state_updated, validate_campaign,
    validate_pool, Address, CrowdfundingContract, CrowdfundingError, Notification, PoolMetrics,
    PoolState,
};

fn addr(seed: u8) -> Address {
    Address { key: [seed; 32] }
}

fn cid(seed: u8) -> [u8; 32] {
    let mut bytes = [0u8; 32];
    bytes[0] = seed;
    bytes
}

fn new_pool(c: &mut CrowdfundingContract, now: u64, name: &str, creator: Address) -> u64 {
    c.save_pool(now, String::from(name), String::from("d"), creator, 100, now + 10).unwrap()
}

#[test]
fn campaign_reads_back_every_field() {
    let mut c = CrowdfundingContract::new();
    let id = cid(42);
    assert_eq!(c.create_campaign(7, id, String::from("Title"), addr(3), 1, 8), Ok(()));
    let got = c.get_campaign(id).unwrap();
    assert_eq!(got.id, id);
    assert_eq!(got.title, "Title");
    assert_eq!(got.creator, addr(3));
    assert_eq!(got.goal, 1);
    assert_eq!(got.deadline, 8);
}

#[test]
fn campaign_recreated_with_other_fields_is_refused() {
    let mut c = CrowdfundingContract::new();
    let id = cid(1);
    c.create_campaign(0, id, String::from("First"), addr(1), 10, 100).unwrap();
    let again = c.create_campaign(50, id, String::from("Second"), addr(2), 99, 500);
    assert_eq!(again, Err(CrowdfundingError::CampaignAlreadyExists));
    let kept = c.get_campaign(id).unwrap();
    assert_eq!(kept.title, "First");
    assert_eq!(kept.goal, 10);
}

#[test]
fn campaign_field_checks_come_before_the_id_check() {
    let mut c = CrowdfundingContract::new();
    let id = cid(1);
    c.create_campaign(0, id, String::from("First"), addr(1), 10, 100).unwrap();
    let again = c.create_campaign(0, id, String::new(), addr(1), 10, 100);
    assert_eq!(again, Err(CrowdfundingError::InvalidTitle));
}

#[test]
fn campaign_ids_differing_in_last_byte_are_distinct() {
    let mut c = CrowdfundingContract::new();
    let a = [9u8; 32];
    let mut b = [9u8; 32];
    b[31] = 10;
    c.create_campaign(0, a, String::from("A"), addr(1), 1, 1).unwrap();
    assert_eq!(c.get_campaign(b), Err(CrowdfundingError::CampaignNotFound));
    assert_eq!(c.create_campaign(0, b, String::from("B"), addr(1), 2, 1), Ok(()));
    assert_eq!(c.get_campaign(a).unwrap().title, "A");
    assert_eq!(c.get_campaign(b).unwrap().title, "B");
}

#[test]
fn campaign_deadline_at_now_is_refused() {
    let mut c = CrowdfundingContract::new();
    let r = c.create_campaign(500, cid(1), String::from("T"), addr(1), 1, 500);
    assert_eq!(r, Err(CrowdfundingError::InvalidDeadline));
    let r = c.create_campaign(500, cid(1), String::from("T"), addr(1), i128::MIN, 501);
    assert_eq!(r, Err(CrowdfundingError::InvalidGoal));
    assert_eq!(c.get_campaign(cid(1)), Err(CrowdfundingError::CampaignNotFound));
}

#[test]
fn pool_ids_increase_from_one_across_creators() {
    let mut c = CrowdfundingContract::new();
    assert_eq!(c.next_pool_id(), 1);
    assert_eq!(new_pool(&mut c, 0, "a", addr(1)), 1);
    assert_eq!(new_pool(&mut c, 0, "b", addr(2)), 2);
    assert_eq!(new_pool(&mut c, 3, "c", addr(3)), 3);
    assert_eq!(c.next_pool_id(), 4);
}

#[test]
fn refused_pool_allocates_no_id() {
    let mut c = CrowdfundingContract::new();
    let r = c.save_pool(0, String::new(), String::new(), addr(1), 5, 5);
    assert_eq!(r, Err(CrowdfundingError::InvalidPoolName));
    assert_eq!(c.next_pool_id(), 1);
    assert!(c.get_pool(1).is_none());
    assert_eq!(new_pool(&mut c, 0, "a", addr(1)), 1);
}

#[test]
fn new_pool_is_active_with_zero_metrics() {
    let mut c = CrowdfundingContract::new();
    let id = new_pool(&mut c, 0, "a", addr(1));
    assert_eq!(c.get_pool_state(id), Some(PoolState::Active));
    assert_eq!(
        c.get_pool_metrics(id),
        Some(PoolMetrics { total_donations: 0, donor_count: 0, last_donation_at: 0 })
    );
    assert_eq!(c.get_pool_state(id + 1), None);
    assert_eq!(c.get_pool_metrics(id + 1), None);
}

#[test]
fn terminal_states_admit_no_change() {
    for terminal in [PoolState::Completed, PoolState::Cancelled] {
        for target in [PoolState::Active, PoolState::Paused, PoolState::Completed, PoolState::Cancelled] {
            let mut c = CrowdfundingContract::new();
            let id = new_pool(&mut c, 0, "a", addr(1));
            c.update_pool_state(id, terminal).unwrap();
            assert_eq!(c.update_pool_state(id, target), Err(CrowdfundingError::InvalidPoolState));
            assert_eq!(c.get_pool_state(id), Some(terminal));
        }
    }
}

#[test]
fn open_states_move_anywhere() {
    for start in [PoolState::Active, PoolState::Paused] {
        for target in [PoolState::Active, PoolState::Paused, PoolState::Completed, PoolState::Cancelled] {
            let mut c = CrowdfundingContract::new();
            let id = new_pool(&mut c, 0, "a", addr(1));
            c.update_pool_state(id, start).unwrap();
            assert_eq!(c.update_pool_state(id, target), Ok(()));
            assert_eq!(c.get_pool_state(id), Some(target));
        }
    }
}

#[test]
fn state_change_of_unknown_pool_is_refused() {
    let mut c = CrowdfundingContract::new();
    let id = new_pool(&mut c, 0, "a", addr(1));
    assert_eq!(c.update_pool_state(id + 1, PoolState::Active), Err(CrowdfundingError::PoolNotFound));
    assert_eq!(c.get_pool_state(id + 1), None);
}

#[test]
fn education_fund_scenario() {
    let mut c = CrowdfundingContract::new();
    let now = 1_000u64;
    let creator = addr(7);
    let id = c
        .save_pool(
            now,
            String::from("Education Fund"),
            String::from("Fund for educational supplies"),
            creator,
            10_000,
            now + 86400,
        )
        .unwrap();
    assert_eq!(id, 1);
    let pool = c.get_pool(1).unwrap();
    assert_eq!(pool.id, 1);
    assert_eq!(pool.name, "Education Fund");
    assert_eq!(pool.description, "Fund for educational supplies");
    assert_eq!(pool.creator, creator);
    assert_eq!(pool.target_amount, 10_000);
    assert_eq!(pool.deadline, now + 86400);
    assert_eq!(pool.created_at, now);
    assert!(pool.created_at <= now);
}

#[test]
fn pool_field_checks_at_the_edges() {
    let mut c = CrowdfundingContract::new();
    let now = 5_000u64;
    let r = c.save_pool(now, String::new(), String::from("x"), addr(1), 10, now + 1);
    assert_eq!(r, Err(CrowdfundingError::InvalidPoolName));
    let r = c.save_pool(now, String::from("n"), String::from("x"), addr(1), 0, now + 1);
    assert_eq!(r, Err(CrowdfundingError::InvalidPoolTarget));
    let r = c.save_pool(now, String::from("n"), String::from("x"), addr(1), 10, now);
    assert_eq!(r, Err(CrowdfundingError::InvalidPoolDeadline));
    let r = c.save_pool(now, String::from("n"), String::new(), addr(1), 1, now + 1);
    assert_eq!(r, Ok(1));
}

#[test]
fn two_pools_keep_their_own_fields() {
    let mut c = CrowdfundingContract::new();
    let a = c.save_pool(0, String::from("One"), String::from("first"), addr(1), 10, 20).unwrap();
    let b = c.save_pool(0, String::from("Two"), String::from("second"), addr(2), 30, 40).unwrap();
    assert_eq!((a, b), (1, 2));
    let p1 = c.get_pool(a).unwrap();
    let p2 = c.get_pool(b).unwrap();
    assert_eq!((p1.name.as_str(), p1.description.as_str(), p1.creator, p1.target_amount, p1.deadline), ("One", "first", addr(1), 10, 20));
    assert_eq!((p2.name.as_str(), p2.description.as_str(), p2.creator, p2.target_amount, p2.deadline), ("Two", "second", addr(2), 30, 40));
}

#[test]
fn successful_operations_queue_one_notice_each() {
    let mut c = CrowdfundingContract::new();
    c.create_campaign(0, cid(1), String::from("T"), addr(1), 5, 9).unwrap();
    let _ = c.create_campaign(0, cid(1), String::from("T"), addr(1), 5, 9);
    let id = new_pool(&mut c, 0, "P", addr(2));
    let _ = c.save_pool(0, String::new(), String::new(), addr(2), 1, 1);
    c.update_pool_state(id, PoolState::Paused).unwrap();
    let _ = c.update_pool_state(id + 1, PoolState::Paused);
    let notices = c.take_notifications();
    assert_eq!(
        notices,
        vec![
            campaign_created(cid(1), String::from("T"), addr(1), 5, 9),
            pool_created(1, String::from("P"), String::from("d"), addr(2), 100, 10),
            pool_state_updated(1, PoolState::Paused),
        ]
    );
    assert!(c.take_notifications().is_empty());
}

#[test]
fn notice_constructors_fill_their_fields() {
    assert_eq!(
        pool_state_updated(4, PoolState::Cancelled),
        Notification::PoolStateUpdated { pool_id: 4, new_state: PoolState::Cancelled }
    );
    match campaign_created(cid(2), String::from("x"), addr(3), 4, 5) {
        Notification::CampaignCreated { id, title, creator, goal, deadline } => {
            assert_eq!((id, title.as_str(), creator, goal, deadline), (cid(2), "x", addr(3), 4, 5));
        }
        _ => panic!("wrong notice"),
    }
}

#[test]
fn validation_functions_report_the_first_failure() {
    assert_eq!(validate_campaign("", 0, 0, 1), Err(CrowdfundingError::InvalidTitle));
    assert_eq!(validate_campaign("t", 0, 0, 1), Err(CrowdfundingError::InvalidGoal));
    assert_eq!(validate_campaign("t", 1, 1, 1), Err(CrowdfundingError::InvalidDeadline));
    assert_eq!(validate_campaign("t", 1, 2, 1), Ok(()));
    assert_eq!(validate_pool("", -1, 0, 1), Err(CrowdfundingError::InvalidPoolName));
    assert_eq!(validate_pool("p", -1, 0, 1), Err(CrowdfundingError::InvalidPoolTarget));
    assert_eq!(validate_pool("p", 1, 0, 1), Err(CrowdfundingError::InvalidPoolDeadline));
    assert_eq!(validate_pool("p", 1, u64::MAX, 1), Ok(()));
}

#[test]
fn transition_rule() {
    assert_eq!(check_transition(PoolState::Active, PoolState::Active), Ok(()));
    assert_eq!(check_transition(PoolState::Paused, PoolState::Cancelled), Ok(()));
    assert_eq!(check_transition(PoolState::Completed, PoolState::Completed), Err(CrowdfundingError::InvalidPoolState));
    assert_eq!(check_transition(PoolState::Cancelled, PoolState::Active), Err(CrowdfundingError::InvalidPoolState));
    assert!(PoolState::Completed.is_terminal());
    assert!(!PoolState::Paused.is_terminal());
}

#[test]
fn error_codes_run_from_one_to_eleven() {
    let all = [
        CrowdfundingError::CampaignNotFound,
        CrowdfundingError::InvalidTitle,
        CrowdfundingError::InvalidGoal,
        CrowdfundingError::InvalidDeadline,
        CrowdfundingError::CampaignAlreadyExists,
        CrowdfundingError::PoolNotFound,
        CrowdfundingError::InvalidPoolName,
        CrowdfundingError::InvalidPoolTarget,
        CrowdfundingError::InvalidPoolDeadline,
        CrowdfundingError::PoolAlreadyExists,
        CrowdfundingError::InvalidPoolState,
    ];
    for (i, e) in all.iter().enumerate() {
        assert_eq!(e.code(), i as u32 + 1);
    }
}

#[test]
fn empty_metrics_are_zero() {
    assert_eq!(PoolMetrics::empty(), PoolMetrics { total_donations: 0, donor_count: 0, last_donation_at: 0 });
}

#[test]
fn decisions_check_fields_before_ids() {
    assert_eq!(decide_create_campaign("", 1, 2, 1, true), Err(CrowdfundingError::InvalidTitle));
    assert_eq!(decide_create_campaign("t", 1, 2, 1, true), Err(CrowdfundingError::CampaignAlreadyExists));
    assert_eq!(decide_create_campaign("t", 1, 2, 1, false), Ok(()));
    assert_eq!(decide_save_pool("p", 0, 2, 1, true), Err(CrowdfundingError::InvalidPoolTarget));
    assert_eq!(decide_save_pool("p", 1, 2, 1, true), Err(CrowdfundingError::PoolAlreadyExists));
    assert_eq!(decide_save_pool("p", 1, 2, 1, false), Ok(()));
    assert_eq!(allocate_pool_id(None), 1);
    assert_eq!(allocate_pool_id(Some(17)), 17);
    assert_eq!(decide_update_pool_state(false, Some(PoolState::Active), PoolState::Paused), Err(CrowdfundingError::PoolNotFound));
    assert_eq!(decide_update_pool_state(true, None, PoolState::Completed), Ok(()));
    assert_eq!(decide_update_pool_state(true, Some(PoolState::Cancelled), PoolState::Cancelled), Err(CrowdfundingError::InvalidPoolState));
    assert_eq!(decide_update_pool_state(true, Some(PoolState::Paused), PoolState::Paused), Ok(()));
}
