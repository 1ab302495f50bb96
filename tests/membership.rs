use csa_membership::cancel::cancel_membership;
use csa_membership::enroll::enroll_membership;
use csa_membership::identity::{derive_owner_key, keys_equal};
use csa_membership::manage::update_pickup_location;
use csa_membership::metadata::get_membership_metadata;
use csa_membership::validate::validate_season;
use csa_membership::{CSAMembershipContract, Error, Ledger, Operation, ShareSize};

const DAY: u64 = 86400;

fn identity(tag: u8) -> Vec<u8> {
    let mut v = vec![0u8, 0, 0, 18, 0, 0, 0, 0];
    for i in 0..32u8 {
        v.push(tag.wrapping_add(i));
    }
    v
}

fn farm() -> [u8; 32] {
    [0; 32]
}

fn ledger() -> Ledger {
    let mut env = Ledger::new(1_000);
    env.register_farm(farm());
    env
}

fn enroll_default(env: &mut Ledger, member: Vec<u8>) -> Result<(), Error> {
    let start_date = env.timestamp() + DAY;
    let end_date = start_date + DAY * 90;
    CSAMembershipContract::enroll_membership(
        env,
        farm(),
        String::from("Summer 2023"),
        ShareSize::Medium,
        String::from("Farm Market"),
        start_date,
        end_date,
        member,
        [0; 32],
    )
}

#[test]
fn test_enroll_membership() {
    let mut env = ledger();
    let member = identity(1);
    assert_eq!(enroll_default(&mut env, member.clone()), Ok(()));

    let events = env.events();
    assert_eq!(events.len(), 1);
    let event = &events[0];
    assert_eq!(
        vec![event.operation.topic(), event.operation.outcome()],
        vec!["enroll_membership", "success"]
    );
    assert_eq!(event.member, member);
    assert_eq!(event.token_id, [0; 32]);
}

#[test]
fn test_update_pickup_location() {
    let mut env = ledger();
    let member = identity(1);
    enroll_default(&mut env, member.clone()).unwrap();

    let token_id = [0u8; 32];
    let new_location = String::from("City Market");
    assert_eq!(
        CSAMembershipContract::update_pickup_location(&mut env, token_id, new_location.clone(), member),
        Ok(())
    );

    let membership = CSAMembershipContract::get_membership_metadata(&env, token_id).expect("Membership not found");
    assert_eq!(membership.pickup_location, new_location);

    let events = env.events();
    assert_eq!(events.len(), 2);
    let event = &events[1];
    assert_eq!(
        vec![event.operation.topic(), event.operation.outcome()],
        vec!["update_pickup_location", "success"]
    );
}

#[test]
fn test_cancel_membership() {
    let mut env = ledger();
    let member = identity(1);
    enroll_default(&mut env, member.clone()).unwrap();

    let token_id = [0u8; 32];
    assert_eq!(CSAMembershipContract::cancel_membership(&mut env, token_id, member), Ok(()));

    let membership = CSAMembershipContract::get_membership_metadata(&env, token_id);
    assert!(membership.is_none());

    let events = env.events();
    assert_eq!(events.len(), 2);
    let event = &events[1];
    assert_eq!(
        vec![event.operation.topic(), event.operation.outcome()],
        vec!["cancel_membership", "success"]
    );
}

#[test]
fn enrolled_record_holds_submitted_fields() {
    let mut env = ledger();
    let alice = identity(1);
    enroll_default(&mut env, alice.clone()).unwrap();
    let m = get_membership_metadata(&env, [0; 32]).unwrap();
    assert_eq!(m.farm_id, farm());
    assert_eq!(m.season, "Summer 2023");
    assert_eq!(m.share_size, ShareSize::Medium);
    assert_eq!(m.pickup_location, "Farm Market");
    assert_eq!(m.start_date, 1_000 + 86400);
    assert_eq!(m.end_date, 1_000 + 86400 + 7776000);
    assert_eq!(m.member, derive_owner_key(&alice));
}

#[test]
fn update_by_other_member_is_unauthorized() {
    let mut env = ledger();
    let alice = identity(1);
    let bob = identity(2);
    enroll_default(&mut env, alice).unwrap();
    let r = update_pickup_location(&mut env, [0; 32], String::from("City Market"), bob);
    assert_eq!(r, Err(Error::Unauthorized));
    let m = get_membership_metadata(&env, [0; 32]).unwrap();
    assert_eq!(m.pickup_location, "Farm Market");
    assert_eq!(env.events().len(), 1);
}

#[test]
fn cancel_by_other_member_is_unauthorized() {
    let mut env = ledger();
    let alice = identity(1);
    enroll_default(&mut env, alice).unwrap();
    let before = get_membership_metadata(&env, [0; 32]).unwrap();
    assert_eq!(cancel_membership(&mut env, [0; 32], identity(2)), Err(Error::Unauthorized));
    assert_eq!(get_membership_metadata(&env, [0; 32]), Some(before));
    assert_eq!(env.events().len(), 1);
}

#[test]
fn equal_dates_are_invalid() {
    let mut env = ledger();
    let start_date = env.timestamp() + DAY;
    let r = enroll_membership(
        &mut env,
        farm(),
        String::from("Summer 2023"),
        ShareSize::Medium,
        String::from("Farm Market"),
        start_date,
        start_date,
        identity(1),
        [0; 32],
    );
    assert_eq!(r, Err(Error::InvalidDates));
    assert!(get_membership_metadata(&env, [0; 32]).is_none());
    assert!(env.events().is_empty());
}

#[test]
fn backdated_start_is_invalid() {
    let env = ledger();
    let season = String::from("Summer 2023");
    assert_eq!(validate_season(&env, &farm(), &season, 999, 5_000), Err(Error::InvalidDates));
    assert_eq!(validate_season(&env, &farm(), &season, 1_000, 5_000), Ok(()));
    assert_eq!(validate_season(&env, &farm(), &season, 5_000, 4_000), Err(Error::InvalidDates));
}

#[test]
fn unknown_farm_is_invalid_and_checked_first() {
    let env = ledger();
    let other = [7u8; 32];
    assert_eq!(validate_season(&env, &other, &String::new(), 5, 1), Err(Error::InvalidFarm));
}

#[test]
fn season_length_bounds() {
    let env = ledger();
    let f = farm();
    assert_eq!(validate_season(&env, &f, &String::new(), 2_000, 3_000), Err(Error::InvalidSeason));
    assert_eq!(validate_season(&env, &f, &"a".repeat(32), 2_000, 3_000), Ok(()));
    assert_eq!(validate_season(&env, &f, &"a".repeat(33), 2_000, 3_000), Err(Error::InvalidSeason));
    // Thirty-two characters of two bytes each: counted as characters.
    assert_eq!(validate_season(&env, &f, &"é".repeat(32), 2_000, 3_000), Ok(()));
    // Dates are checked before the season.
    assert_eq!(validate_season(&env, &f, &String::new(), 3_000, 3_000), Err(Error::InvalidDates));
}

#[test]
fn enroll_on_taken_token_already_exists() {
    let mut env = ledger();
    enroll_default(&mut env, identity(1)).unwrap();
    assert_eq!(enroll_default(&mut env, identity(2)), Err(Error::AlreadyExists));
    let m = get_membership_metadata(&env, [0; 32]).unwrap();
    assert_eq!(m.member, derive_owner_key(&identity(1)));
    assert_eq!(env.events().len(), 1);
}

#[test]
fn cancelled_token_is_not_found() {
    let mut env = ledger();
    let alice = identity(1);
    enroll_default(&mut env, alice.clone()).unwrap();
    cancel_membership(&mut env, [0; 32], alice.clone()).unwrap();
    assert!(get_membership_metadata(&env, [0; 32]).is_none());
    assert_eq!(
        update_pickup_location(&mut env, [0; 32], String::from("City Market"), alice.clone()),
        Err(Error::NotFound)
    );
    assert_eq!(cancel_membership(&mut env, [0; 32], alice), Err(Error::NotFound));
    assert_eq!(env.events().len(), 2);
    // The token id can be enrolled again once it is free.
    assert_eq!(enroll_default(&mut env, identity(3)), Ok(()));
}

#[test]
fn update_changes_only_pickup_location() {
    let mut env = ledger();
    let alice = identity(1);
    enroll_default(&mut env, alice.clone()).unwrap();
    let other_token = [9u8; 32];
    CSAMembershipContract::enroll_membership(
        &mut env,
        farm(),
        String::from("Fall"),
        ShareSize::Custom(String::from("Family")),
        String::from("Depot"),
        5_000,
        6_000,
        identity(2),
        other_token,
    )
    .unwrap();
    let before = get_membership_metadata(&env, [0; 32]).unwrap();
    let other_before = get_membership_metadata(&env, other_token).unwrap();
    update_pickup_location(&mut env, [0; 32], String::from("City Market"), alice).unwrap();
    let after = get_membership_metadata(&env, [0; 32]).unwrap();
    assert_eq!(after.pickup_location, "City Market");
    assert_eq!(after.farm_id, before.farm_id);
    assert_eq!(after.season, before.season);
    assert_eq!(after.share_size, before.share_size);
    assert_eq!(after.start_date, before.start_date);
    assert_eq!(after.end_date, before.end_date);
    assert_eq!(after.member, before.member);
    assert_eq!(get_membership_metadata(&env, other_token), Some(other_before));
}

#[test]
fn reads_are_repeatable() {
    let mut env = ledger();
    enroll_default(&mut env, identity(1)).unwrap();
    let first = get_membership_metadata(&env, [0; 32]);
    let second = get_membership_metadata(&env, [0; 32]);
    assert_eq!(first, second);
    assert_eq!(env.events().len(), 1);
    assert!(get_membership_metadata(&env, [5; 32]).is_none());
}

#[test]
fn update_of_missing_record_is_not_found() {
    let mut env = ledger();
    let r = update_pickup_location(&mut env, [3; 32], String::from("X"), identity(1));
    assert_eq!(r, Err(Error::NotFound));
    assert!(env.events().is_empty());
}

#[test]
fn owner_key_is_last_32_bytes() {
    let id = identity(10);
    let key = derive_owner_key(&id);
    let expected: Vec<u8> = (10u8..42).collect();
    assert_eq!(key.to_vec(), expected);
}

#[test]
fn owner_key_of_short_identity_is_zero_padded() {
    let key = derive_owner_key(&vec![1, 2, 3]);
    let mut expected = [0u8; 32];
    expected[29] = 1;
    expected[30] = 2;
    expected[31] = 3;
    assert_eq!(key, expected);
    assert_eq!(derive_owner_key(&Vec::new()), [0u8; 32]);
}

#[test]
fn keys_compare_bytewise() {
    let a = [1u8; 32];
    let mut b = [1u8; 32];
    assert!(keys_equal(&a, &b));
    b[31] = 2;
    assert!(!keys_equal(&a, &b));
}

#[test]
fn notification_topics() {
    assert_eq!(Operation::Enroll.topic(), "enroll_membership");
    assert_eq!(Operation::Update.topic(), "update_pickup_location");
    assert_eq!(Operation::Cancel.topic(), "cancel_membership");
    assert_eq!(Operation::Cancel.outcome(), "success");
}

#[test]
fn ledger_clock_and_registry() {
    let mut env = Ledger::new(0);
    assert!(!env.is_farm_registered(&farm()));
    env.register_farm(farm());
    assert!(env.is_farm_registered(&farm()));
    env.set_timestamp(50);
    assert_eq!(env.timestamp(), 50);
}
