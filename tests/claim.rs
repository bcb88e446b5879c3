use moon::bank::{BankSend, Coin, MessageInfo};
use moon::claim::contract;
use moon::claim::error::ContractError;
use moon::claim::msg::{InstantiateMsg, UserInfoItem};
use moon::claim::state::{ClaimInfo, State, UserInfo};
use moon::timestamp::Timestamp;

const REWARD_DENOM: &str = "reward_denom";

fn now() -> Timestamp {
    Timestamp::from_seconds(1618308000)
}

fn sender(address: &str) -> MessageInfo {
    MessageInfo { sender: address.to_string(), funds: vec![] }
}

fn default_msg() -> InstantiateMsg {
    InstantiateMsg {
        claim_info: ClaimInfo {
            reward_denom: REWARD_DENOM.to_string(),
            initial_unlock: 1000,
            vesting_start: now(),
            vesting_cliff: 1,
            vesting_time: 1,
            vesting_interval: 1,
        },
    }
}

fn schedule() -> ClaimInfo {
    ClaimInfo {
        reward_denom: REWARD_DENOM.to_string(),
        initial_unlock: 2000,
        vesting_start: Timestamp::from_seconds(0),
        vesting_cliff: 30,
        vesting_time: 40,
        vesting_interval: 1,
    }
}

/// The amount of `denom` that a transfer carries.
fn sent(transfer: &BankSend, denom: &str) -> u128 {
    transfer.amount.iter().filter(|c| c.denom == denom).map(|c| c.amount).sum()
}

/// Stores items the way the host does: keyed and ordered by address.
fn store(table: &mut Vec<(String, UserInfo)>, items: Vec<UserInfoItem>) {
    for item in items {
        table.retain(|(address, _)| *address != item.address);
        table.push((item.address, item.user_info));
    }
    table.sort_by(|a, b| a.0.cmp(&b.0));
}

fn lookup(table: &[(String, UserInfo)], address: &str) -> Option<UserInfo> {
    table.iter().find(|(a, _)| a == address).map(|(_, u)| *u)
}

#[test]
fn claim_unlocked_amount() {
    let claim_info = schedule();
    assert_eq!(claim_info.unlocked_amount(100, Timestamp::from_seconds(0)).unwrap(), 20);
    assert_eq!(claim_info.unlocked_amount(100, Timestamp::from_seconds(70)).unwrap(), 100);
    assert_eq!(claim_info.unlocked_amount(100, Timestamp::from_seconds(31)).unwrap(), 22);
    assert_eq!(claim_info.unlocked_amount(1000, Timestamp::from_seconds(40)).unwrap(), 400);
}

#[test]
fn proper_initialization() {
    let (state, claim_info) = contract::instantiate(&sender("creator"), default_msg());
    assert_eq!(claim_info, default_msg().claim_info);
    let table: Vec<(String, UserInfo)> = vec![];
    assert_eq!(contract::get_users(&table).len(), 0);
    assert!(!state.paused);
    assert_eq!(state.owner, "creator".to_string());
}

#[test]
fn get_set_claim_info() {
    let (state, _) = contract::instantiate(&sender("creator"), default_msg());
    let claim_info = ClaimInfo {
        reward_denom: REWARD_DENOM.to_string(),
        initial_unlock: 2000,
        vesting_start: now().plus_seconds(2),
        vesting_cliff: 2,
        vesting_time: 2,
        vesting_interval: 2,
    };
    let res = contract::update_claim_info(&state, &sender("user"), claim_info.clone());
    assert!(res.is_err());
    let stored = contract::update_claim_info(&state, &sender("creator"), claim_info.clone()).unwrap();
    assert_eq!(stored, claim_info);
}

#[test]
fn get_set_users() {
    let (state, _) = contract::instantiate(&sender("creator"), default_msg());
    let mut table: Vec<(String, UserInfo)> = vec![];
    assert_eq!(contract::get_users(&table).len(), 0);

    let users = vec![
        UserInfoItem { address: "addr1".to_string(), user_info: UserInfo { reward: 100, withdrawn: 10 } },
        UserInfoItem { address: "addr2".to_string(), user_info: UserInfo { reward: 200, withdrawn: 20 } },
    ];
    let res = contract::set_users(&state, &sender("user"), users.clone());
    assert!(res.is_err());

    let records = contract::set_users(&state, &sender("creator"), users.clone()).unwrap();
    store(&mut table, records);
    let user_res = contract::get_users(&table);
    assert_eq!(user_res.len(), 2);
    assert_eq!(user_res[0].address, "addr1".to_string());
    assert_eq!(user_res[1].address, "addr2".to_string());
    assert_eq!(user_res[0].user_info, users[0].user_info);
    assert_eq!(user_res[1].user_info, users[1].user_info);

    let user = lookup(&table, "addr1").unwrap();
    assert_eq!(user.reward, 100);
    assert_eq!(user.withdrawn, 10);
}

#[test]
fn claim() {
    let (state, claim_info) = contract::instantiate(&sender("owner"), InstantiateMsg { claim_info: schedule() });
    let mut table: Vec<(String, UserInfo)> = vec![];
    let mut balance: u128 = 0;

    // at 40 s
    let users = vec![UserInfoItem { address: "user".to_string(), user_info: UserInfo { reward: 1000, withdrawn: 0 } }];
    store(&mut table, contract::set_users(&state, &sender("owner"), users).unwrap());
    let record = lookup(&table, "user").unwrap();
    let (updated, transfer) =
        contract::claim(&state, &claim_info, &record, &sender("user"), Timestamp::from_seconds(40)).unwrap();
    assert_eq!(transfer.to_address, "user");
    balance += sent(&transfer, REWARD_DENOM);
    store(&mut table, vec![UserInfoItem { address: "user".to_string(), user_info: updated }]);
    assert_eq!(balance, 400);

    // at 70 s, with the record overwritten
    let users = vec![UserInfoItem { address: "user".to_string(), user_info: UserInfo { reward: 100, withdrawn: 0 } }];
    store(&mut table, contract::set_users(&state, &sender("owner"), users).unwrap());
    let record = lookup(&table, "user").unwrap();
    let (_, transfer) =
        contract::claim(&state, &claim_info, &record, &sender("user"), Timestamp::from_seconds(70)).unwrap();
    balance += sent(&transfer, REWARD_DENOM);
    assert_eq!(balance, 500);
}

#[test]
fn withdraw() {
    let (state, _) = contract::instantiate(&sender("owner"), InstantiateMsg { claim_info: schedule() });
    let contract_balance: u128 = 1000000;

    let transfer =
        contract::withdraw(&state, &sender("owner"), "owner".to_string(), REWARD_DENOM.to_string(), 900000).unwrap();
    assert_eq!(transfer.to_address, "owner");
    assert_eq!(sent(&transfer, REWARD_DENOM), 900000);
    assert_eq!(contract_balance - sent(&transfer, REWARD_DENOM), 100000);

    let res = contract::withdraw(&state, &sender("user"), "user".to_string(), REWARD_DENOM.to_string(), 100000);
    assert!(res.is_err());
}

#[test]
fn nothing_unlocks_before_start() {
    let claim_info = ClaimInfo { vesting_start: Timestamp::from_seconds(100), ..schedule() };
    assert_eq!(claim_info.unlocked_amount(1000, Timestamp::from_seconds(99)), Some(0));
    assert_eq!(claim_info.unlocked_amount(u128::MAX, Timestamp::from_nanos(99_999_999_999)), Some(0));
    assert!(!claim_info.is_started(Timestamp::from_seconds(99)));
    assert!(claim_info.is_started(Timestamp::from_seconds(100)));
}

#[test]
fn unlock_curve_is_monotone_and_bounded() {
    let claim_info = schedule();
    let mut last = 0;
    for t in 0..100u64 {
        let amount = claim_info.unlocked_amount(1000, Timestamp::from_seconds(t)).unwrap();
        assert!(amount >= last);
        assert!(amount <= 1000);
        last = amount;
    }
    assert_eq!(claim_info.unlocked_amount(1000, Timestamp::from_seconds(71)), Some(1000));
    assert_eq!(claim_info.unlocked_amount(1000, Timestamp::from_seconds(70)), Some(1000));
    assert_eq!(claim_info.unlocked_amount(1000, Timestamp::from_seconds(69)), Some(980));
}

#[test]
fn unlock_is_flat_within_a_step() {
    let claim_info = ClaimInfo { vesting_interval: 10, ..schedule() };
    // initial 200, then 800 over 4 steps of 10 s
    assert_eq!(claim_info.unlocked_amount(1000, Timestamp::from_seconds(31)), Some(200));
    assert_eq!(claim_info.unlocked_amount(1000, Timestamp::from_seconds(39)), Some(200));
    assert_eq!(claim_info.unlocked_amount(1000, Timestamp::from_seconds(40)), Some(400));
    assert_eq!(claim_info.unlocked_amount(1000, Timestamp::from_seconds(49)), Some(400));
    assert_eq!(claim_info.unlocked_amount(1000, Timestamp::from_seconds(50)), Some(600));
}

#[test]
fn unlock_truncates_and_checks_overflow() {
    let claim_info = ClaimInfo { vesting_time: 3, vesting_interval: 1, ..schedule() };
    // initial 20; 80 * 1 / 3 = 26
    assert_eq!(claim_info.unlocked_amount(100, Timestamp::from_seconds(31)), Some(46));
    assert_eq!(claim_info.unlocked_amount(u128::MAX, Timestamp::from_seconds(0)), None);
    assert_eq!(claim_info.unlocked_amount(u128::MAX, Timestamp::from_seconds(100)), Some(u128::MAX));
    let no_steps = ClaimInfo { vesting_interval: 0, ..schedule() };
    assert_eq!(no_steps.unlocked_amount(100, Timestamp::from_seconds(31)), None);
    assert_eq!(no_steps.unlocked_amount(100, Timestamp::from_seconds(30)), Some(20));
}

#[test]
fn repeated_claims_never_lower_withdrawn() {
    let state = State { owner: "owner".to_string(), paused: false };
    let claim_info = schedule();
    let user = UserInfo { reward: 1000, withdrawn: 0 };
    let (first, t1) = contract::claim(&state, &claim_info, &user, &sender("user"), Timestamp::from_seconds(40)).unwrap();
    assert_eq!(first, UserInfo { reward: 1000, withdrawn: 400 });
    assert_eq!(t1.amount, vec![Coin { denom: REWARD_DENOM.to_string(), amount: 400 }]);
    let (again, t2) = contract::claim(&state, &claim_info, &first, &sender("user"), Timestamp::from_seconds(40)).unwrap();
    assert_eq!(again, first);
    assert_eq!(sent(&t2, REWARD_DENOM), 0);
    let (later, t3) = contract::claim(&state, &claim_info, &again, &sender("user"), Timestamp::from_seconds(50)).unwrap();
    assert_eq!(later.withdrawn, 600);
    assert_eq!(sent(&t3, REWARD_DENOM), 200);
}

#[test]
fn claim_errors() {
    let claim_info = schedule();
    let user = UserInfo { reward: 1000, withdrawn: 0 };
    let paused = State { owner: "owner".to_string(), paused: true };
    assert_eq!(
        contract::claim(&paused, &claim_info, &user, &sender("user"), Timestamp::from_seconds(40)),
        Err(ContractError::NotActive {})
    );
    let state = State { owner: "owner".to_string(), paused: false };
    let late = ClaimInfo { vesting_start: Timestamp::from_seconds(10), ..schedule() };
    assert_eq!(
        contract::claim(&state, &late, &user, &sender("user"), Timestamp::from_seconds(9)),
        Err(ContractError::NotActive {})
    );
    let over = UserInfo { reward: 1000, withdrawn: 500 };
    assert_eq!(
        contract::claim(&state, &claim_info, &over, &sender("user"), Timestamp::from_seconds(40)),
        Err(ContractError::Overflow {})
    );
    assert_eq!(contract::get_withdrawable_amount(&claim_info, &over, Timestamp::from_seconds(40)), None);
    assert_eq!(contract::get_withdrawable_amount(&claim_info, &over, Timestamp::from_seconds(70)), Some(500));
}

#[test]
fn owner_actions() {
    let state = State { owner: "owner".to_string(), paused: false };
    let paused = contract::toggle_pause(&state, &sender("owner")).unwrap();
    assert!(paused.paused);
    assert_eq!(contract::toggle_pause(&paused, &sender("owner")).unwrap(), state);
    assert_eq!(contract::toggle_pause(&state, &sender("any")), Err(ContractError::Unauthorized {}));
    let moved = contract::transfer_ownership(&state, &sender("owner"), "any".to_string()).unwrap();
    assert_eq!(moved.owner, "any");
    assert_eq!(
        contract::transfer_ownership(&moved, &sender("owner"), "owner".to_string()),
        Err(ContractError::Unauthorized {})
    );
    assert!(state.check_owner(&"owner".to_string()).is_ok());
    assert_eq!(state.check_paused(), Ok(()));
    assert_eq!(paused.check_paused(), Err(ContractError::NotActive {}));
}

#[test]
fn available_after_sums_start_cliff_and_time() {
    assert_eq!(contract::total_available_after(&schedule()), Some(70));
    assert_eq!(contract::total_available_after(&default_msg().claim_info), Some(1618308002));
    let huge = ClaimInfo { vesting_time: u128::MAX, ..schedule() };
    assert_eq!(contract::total_available_after(&huge), None);
}

#[test]
fn timestamps_count_nanoseconds() {
    let t = Timestamp::from_seconds(40).plus_seconds(2);
    assert_eq!(t.nanos(), 42_000_000_000);
    assert_eq!(t.seconds(), 42);
    assert_eq!(Timestamp::from_nanos(41_999_999_999).seconds(), 41);
}
