use pusd_manager_cw::bridge::{deposited_amount, migrate, Bridge, PreviousState};
use pusd_manager_cw::error::ContractError;
use pusd_manager_cw::msg::{Effect, InstantiateMsg, MigrateMsg, PalomaMsg};
use pusd_manager_cw::state::{BurnInfo, ChainSetting, Coin, State};

const SECOND: u64 = 1_000_000_000;
const RECIPIENT: &str = "0x00000000000000000000000000000000000abcde";

fn s(x: &str) -> String {
    x.to_string()
}

fn coin(denom: &str, amount: u128) -> Coin {
    Coin { denom: s(denom), amount }
}

fn fresh() -> Bridge {
    Bridge::instantiate(
        &s("owner"),
        &vec![coin("upusd", 1)],
        InstantiateMsg { retry_delay: 3600, minter: s("minter"), denom: s("upusd") },
    )
    .unwrap()
}

fn with_eth() -> Bridge {
    let mut b = fresh();
    let r = b.register_chain(
        &s("owner"),
        s("eth"),
        ChainSetting { job_id: s("job-1"), minimum_amount: 100 },
    );
    assert_eq!(r, Ok(vec![]));
    b
}

fn canonical(tag: u8) -> Vec<u8> {
    vec![tag; 20]
}

fn withdraw(b: &mut Bridge, who: &str, amount: u128, now: u64) -> Result<Vec<Effect>, ContractError> {
    b.withdraw(
        &s(who),
        &canonical(7),
        &vec![coin("upusd", amount)],
        now,
        &s("eth"),
        &s(RECIPIENT),
    )
}

fn job_of(effects: &[Effect]) -> (String, Vec<u8>) {
    assert_eq!(effects.len(), 1);
    match &effects[0] {
        Effect::Custom(PalomaMsg::SchedulerMsg { execute_job }) => {
            (execute_job.job_id.clone(), execute_job.payload.clone())
        }
        other => panic!("not a job dispatch: {:?}", other),
    }
}

#[test]
fn end_to_end_withdraw_retry_settle() {
    let mut b = with_eth();
    let t0 = 1_000 * SECOND;
    let out = withdraw(&mut b, "alice", 150, t0).unwrap();
    let (job, payload) = job_of(&out);
    assert_eq!(job, "job-1");
    assert_eq!(payload.len(), 4 + 4 * 32);
    assert_eq!(b.get_state().last_nonce, 1);
    let info = b.get_burn_info(1).unwrap();
    assert_eq!(info.chain_id, "eth");
    assert_eq!(info.amount, 150);
    assert_eq!(info.burner, "alice");
    assert_eq!(info.timestamp, t0);

    assert_eq!(b.re_withdraw(1, t0, &canonical(7)), Err(ContractError::RetryTooEarly));
    let later = t0 + 3600 * SECOND;
    let again = b.re_withdraw(1, later, &canonical(7)).unwrap();
    assert_eq!(job_of(&again), (s("job-1"), payload));
    assert_eq!(b.get_burn_info(1).unwrap().timestamp, later);

    assert_eq!(b.burn_pusd(&s("owner"), 1), Ok(vec![]));
    assert_eq!(b.get_burn_info(1), Err(ContractError::NotFound));
    assert!(!b.re_withdrawable());
}

#[test]
fn nonces_run_from_one_without_gaps() {
    let mut b = with_eth();
    for expected in 1..=4u64 {
        withdraw(&mut b, "alice", 101, 0).unwrap();
        assert_eq!(b.get_state().last_nonce, expected);
    }
    assert_eq!(b.burn_pusd(&s("owner"), 2), Ok(vec![]));
    withdraw(&mut b, "bob", 200, 0).unwrap();
    let nonces: Vec<u64> = b.get_withdraw_list().iter().map(|e| e.0).collect();
    assert_eq!(nonces, vec![1, 3, 4, 5]);
    assert_eq!(b.get_burn_info(5).unwrap().burner, "bob");
}

#[test]
fn withdraw_needs_a_registered_chain() {
    let mut b = fresh();
    let before = b.get_state();
    let r = b.withdraw(
        &s("alice"),
        &canonical(7),
        &vec![coin("upusd", 500)],
        0,
        &s("eth"),
        &s(RECIPIENT),
    );
    assert_eq!(r, Err(ContractError::NoChainSetting));
    assert_eq!(b.get_state(), before);
}

#[test]
fn withdraw_must_exceed_the_minimum() {
    let mut b = with_eth();
    assert_eq!(withdraw(&mut b, "alice", 100, 0), Err(ContractError::BelowMinimum));
    assert_eq!(withdraw(&mut b, "alice", 0, 0), Err(ContractError::BelowMinimum));
    assert_eq!(b.get_state().last_nonce, 0);
    assert!(withdraw(&mut b, "alice", 101, 0).is_ok());
}

#[test]
fn withdraw_counts_only_the_configured_denom() {
    let mut b = with_eth();
    let r = b.withdraw(
        &s("alice"),
        &canonical(7),
        &vec![coin("uatom", 1000), coin("upusd", 50)],
        0,
        &s("eth"),
        &s(RECIPIENT),
    );
    assert_eq!(r, Err(ContractError::BelowMinimum));
    let r = b.withdraw(
        &s("alice"),
        &canonical(7),
        &vec![coin("uatom", 5), coin("upusd", 150)],
        0,
        &s("eth"),
        &s(RECIPIENT),
    );
    assert!(r.is_ok());
    assert_eq!(b.get_burn_info(1).unwrap().amount, 150);
}

#[test]
fn last_matching_coin_wins() {
    let funds = vec![coin("upusd", 500), coin("uatom", 7), coin("upusd", 20)];
    assert_eq!(deposited_amount(&funds, &s("upusd")), 20);
    assert_eq!(deposited_amount(&funds, &s("uatom")), 7);
    assert_eq!(deposited_amount(&funds, &s("uosmo")), 0);
    assert_eq!(deposited_amount(&vec![], &s("upusd")), 0);
}

#[test]
fn withdraw_rejects_a_bad_recipient() {
    let mut b = with_eth();
    let r = b.withdraw(
        &s("alice"),
        &canonical(7),
        &vec![coin("upusd", 150)],
        0,
        &s("eth"),
        &s("0xabc"),
    );
    assert_eq!(r, Err(ContractError::InvalidAddress));
    assert_eq!(b.get_state().last_nonce, 0);
    assert!(!b.re_withdrawable());
}

#[test]
fn withdraw_rejects_a_long_sender() {
    let mut b = with_eth();
    let r = b.withdraw(
        &s("alice"),
        &vec![1u8; 33],
        &vec![coin("upusd", 150)],
        0,
        &s("eth"),
        &s(RECIPIENT),
    );
    assert_eq!(r, Err(ContractError::EncodingMismatch));
    let r = b.withdraw(
        &s("alice"),
        &vec![1u8; 32],
        &vec![coin("upusd", 150)],
        0,
        &s("eth"),
        &s(RECIPIENT),
    );
    assert!(r.is_ok());
}

#[test]
fn nonce_counter_cannot_wrap() {
    let state = State {
        retry_delay: 10,
        owner: s("owner"),
        minter: s("minter"),
        denom: s("upusd"),
        last_nonce: u64::MAX,
    };
    let chains = vec![(s("eth"), ChainSetting { job_id: s("j"), minimum_amount: 0 })];
    let mut b = Bridge::restore(state, chains, vec![]).unwrap();
    assert_eq!(withdraw(&mut b, "alice", 1, 0), Err(ContractError::NonceExhausted));
}

#[test]
fn retry_waits_for_the_full_delay() {
    let mut b = with_eth();
    withdraw(&mut b, "alice", 150, 10 * SECOND).unwrap();
    let edge = 10 * SECOND + 3600 * SECOND;
    assert_eq!(b.re_withdraw(1, edge - 1, &canonical(7)), Err(ContractError::RetryTooEarly));
    assert!(b.re_withdraw(1, edge, &canonical(7)).is_ok());
    assert_eq!(b.re_withdraw(1, edge, &canonical(7)), Err(ContractError::RetryTooEarly));
    assert_eq!(b.re_withdraw(9, edge, &canonical(7)), Err(ContractError::NotFound));
}

#[test]
fn retries_send_the_same_payload() {
    let mut b = with_eth();
    let first = withdraw(&mut b, "alice", 150, 0).unwrap();
    let r1 = b.re_withdraw(1, 3600 * SECOND, &canonical(7)).unwrap();
    let r2 = b.re_withdraw(1, 7200 * SECOND, &canonical(7)).unwrap();
    assert_eq!(job_of(&first), job_of(&r1));
    assert_eq!(job_of(&r1), job_of(&r2));
}

#[test]
fn only_the_burner_may_cancel() {
    let mut b = with_eth();
    withdraw(&mut b, "alice", 150, 0).unwrap();
    let late = 3600 * SECOND;
    assert_eq!(b.cancel_withdraw(&s("mallory"), 1, late), Err(ContractError::Unauthorized));
    assert_eq!(b.cancel_withdraw(&s("owner"), 1, late), Err(ContractError::Unauthorized));
    assert!(b.get_burn_info(1).is_ok());
}

#[test]
fn cancel_waits_for_the_delay_and_refunds_exactly() {
    let mut b = with_eth();
    withdraw(&mut b, "alice", 150, 0).unwrap();
    assert_eq!(
        b.cancel_withdraw(&s("alice"), 1, 3600 * SECOND - 1),
        Err(ContractError::WithdrawPending)
    );
    let r = b.cancel_withdraw(&s("alice"), 1, 3600 * SECOND).unwrap();
    assert_eq!(
        r,
        vec![Effect::BankSend { to_address: s("alice"), denom: s("upusd"), amount: 150 }]
    );
    assert_eq!(b.get_burn_info(1), Err(ContractError::NotFound));
}

#[test]
fn settled_withdrawal_cannot_be_retried_or_cancelled() {
    let mut b = with_eth();
    withdraw(&mut b, "alice", 150, 0).unwrap();
    assert_eq!(b.burn_pusd(&s("owner"), 1), Ok(vec![]));
    let late = 10_000 * SECOND;
    assert_eq!(b.re_withdraw(1, late, &canonical(7)), Err(ContractError::NotFound));
    assert_eq!(b.cancel_withdraw(&s("alice"), 1, late), Err(ContractError::NotFound));
    assert_eq!(b.burn_pusd(&s("owner"), 1), Ok(vec![]));
}

#[test]
fn administrative_commands_are_owner_only() {
    let mut b = with_eth();
    withdraw(&mut b, "alice", 150, 0).unwrap();
    let state = b.get_state();
    let chains = b.get_chain_settings();
    let list = b.get_withdraw_list();
    let x = s("mallory");
    let u = Err(ContractError::Unauthorized);
    assert_eq!(
        b.register_chain(&x, s("bsc"), ChainSetting { job_id: s("j"), minimum_amount: 1 }),
        u
    );
    assert_eq!(b.set_bridge(&x, s("eth"), s(RECIPIENT)), u);
    assert_eq!(b.mint_pusd(&x, &x, 5), u);
    assert_eq!(b.update_config(&x, Some(1), Some(s("mallory"))), u);
    assert_eq!(b.set_paloma(&x, &s("eth")), u);
    assert_eq!(b.update_compass(&x, &s("eth"), &s(RECIPIENT)), u);
    assert_eq!(b.update_refund_wallet(&x, &s("eth"), &s(RECIPIENT)), u);
    assert_eq!(b.update_redemption_fee(&x, &s("eth"), 5), u);
    assert_eq!(b.burn_pusd(&x, 1), u);
    assert_eq!(b.get_state(), state);
    assert_eq!(b.get_chain_settings(), chains);
    assert_eq!(b.get_withdraw_list(), list);
}

#[test]
fn register_chain_rejects_empty_ids() {
    let mut b = fresh();
    let o = s("owner");
    assert_eq!(
        b.register_chain(&o, s(""), ChainSetting { job_id: s("j"), minimum_amount: 1 }),
        Err(ContractError::EmptyId)
    );
    assert_eq!(
        b.register_chain(&o, s("eth"), ChainSetting { job_id: s(""), minimum_amount: 1 }),
        Err(ContractError::EmptyId)
    );
    assert!(b.get_chain_settings().is_empty());
}

#[test]
fn chains_are_listed_by_id_and_replaced_in_place() {
    let mut b = fresh();
    let o = s("owner");
    for (id, job) in [("osmo", "j-osmo"), ("eth", "j-eth"), ("bnb", "j-bnb"), ("ethereum", "j-e2")] {
        b.register_chain(&o, s(id), ChainSetting { job_id: s(job), minimum_amount: 3 }).unwrap();
    }
    b.register_chain(&o, s("eth"), ChainSetting { job_id: s("j-eth2"), minimum_amount: 9 })
        .unwrap();
    let ids: Vec<String> = b.get_chain_settings().iter().map(|c| c.chain_id.clone()).collect();
    assert_eq!(ids, vec![s("bnb"), s("eth"), s("ethereum"), s("osmo")]);
    assert_eq!(
        b.get_job_id(&s("eth")),
        Ok(ChainSetting { job_id: s("j-eth2"), minimum_amount: 9 })
    );
    assert_eq!(b.get_job_id(&s("sol")), Err(ContractError::NoChainSetting));
}

#[test]
fn mint_and_unmint() {
    let b = fresh();
    assert_eq!(b.mint_pusd(&s("owner"), &s("carol"), 0), Err(ContractError::ZeroAmount));
    assert_eq!(
        b.mint_pusd(&s("owner"), &s("carol"), 42),
        Ok(vec![Effect::BankSend { to_address: s("carol"), denom: s("upusd"), amount: 42 }])
    );
    assert_eq!(b.unmint_pusd(&s("owner"), 5), Err(ContractError::Unauthorized));
    assert_eq!(b.unmint_pusd(&s("minter"), 0), Err(ContractError::ZeroAmount));
    assert_eq!(
        b.unmint_pusd(&s("minter"), 5),
        Ok(vec![Effect::BankSend { to_address: s("minter"), denom: s("upusd"), amount: 5 }])
    );
}

#[test]
fn update_config_changes_delay_and_owner() {
    let mut b = fresh();
    assert_eq!(
        b.update_config(&s("owner"), Some(0), None),
        Err(ContractError::InvalidRetryDelay)
    );
    assert_eq!(b.get_state().retry_delay, 3600);
    assert_eq!(b.update_config(&s("owner"), Some(60), Some(s("dave"))), Ok(vec![]));
    let st = b.get_state();
    assert_eq!((st.retry_delay, st.owner.as_str()), (60, "dave"));
    assert_eq!(b.update_config(&s("owner"), None, None), Err(ContractError::Unauthorized));
    assert_eq!(b.update_config(&s("dave"), None, None), Ok(vec![]));
    assert_eq!(b.get_state().retry_delay, 60);
}

#[test]
fn set_bridge_binds_the_denom() {
    let b = fresh();
    let r = b.set_bridge(&s("owner"), s("eth-main"), s("0xToken")).unwrap();
    match &r[..] {
        [Effect::Custom(PalomaMsg::SkywayMsg { set_erc20_to_denom: m })] => {
            assert_eq!(m.erc20_address, "0xToken");
            assert_eq!(m.token_denom, "upusd");
            assert_eq!(m.chain_reference_id, "eth-main");
        }
        other => panic!("unexpected effects: {:?}", other),
    }
}

#[test]
fn remote_admin_calls_need_a_chain_and_an_address() {
    let b = with_eth();
    let o = s("owner");
    assert_eq!(b.set_paloma(&o, &s("sol")), Err(ContractError::NoChainSetting));
    assert_eq!(b.update_redemption_fee(&o, &s("sol"), 1), Err(ContractError::NoChainSetting));
    assert_eq!(
        b.update_compass(&o, &s("eth"), &s("not an address")),
        Err(ContractError::InvalidAddress)
    );
    assert_eq!(
        b.update_refund_wallet(&o, &s("eth"), &s("0x12")),
        Err(ContractError::InvalidAddress)
    );
    assert_eq!(job_of(&b.set_paloma(&o, &s("eth")).unwrap()).1.len(), 4);
    assert_eq!(job_of(&b.update_compass(&o, &s("eth"), &s(RECIPIENT)).unwrap()).1.len(), 36);
}

#[test]
fn instantiate_checks_funds_and_delay() {
    let msg = InstantiateMsg { retry_delay: 3600, minter: s("m"), denom: s("upusd") };
    assert!(matches!(
        Bridge::instantiate(&s("o"), &vec![], msg.clone()),
        Err(ContractError::InsufficientFunds)
    ));
    let zero = InstantiateMsg { retry_delay: 0, ..msg.clone() };
    assert!(matches!(
        Bridge::instantiate(&s("o"), &vec![coin("upusd", 1)], zero),
        Err(ContractError::InvalidRetryDelay)
    ));
    let b = Bridge::instantiate(&s("o"), &vec![coin("upusd", 1)], msg).unwrap();
    let st = b.get_state();
    assert_eq!(st.owner, "o");
    assert_eq!(st.minter, "m");
    assert_eq!(st.last_nonce, 0);
    assert!(!b.re_withdrawable());
}

#[test]
fn migration_adds_the_minter() {
    let msg = MigrateMsg { minter: s("new-minter") };
    assert_eq!(migrate(None, msg.clone()), Err(ContractError::MigrationFailed));
    let prev = PreviousState { retry_delay: 30, owner: s("o"), denom: s("upusd"), last_nonce: 17 };
    let (st, effects) = migrate(Some(prev), msg).unwrap();
    assert_eq!(
        st,
        State {
            retry_delay: 30,
            owner: s("o"),
            minter: s("new-minter"),
            denom: s("upusd"),
            last_nonce: 17
        }
    );
    match &effects[..] {
        [Effect::Custom(PalomaMsg::TokenFactoryMsg { change_admin })] => {
            assert_eq!(change_admin.denom, "upusd");
            assert_eq!(change_admin.new_admin_address, "new-minter");
        }
        other => panic!("unexpected effects: {:?}", other),
    }
}

#[test]
fn restore_checks_the_stored_ledger() {
    let state = State {
        retry_delay: 10,
        owner: s("o"),
        minter: s("m"),
        denom: s("upusd"),
        last_nonce: 5,
    };
    let rec = |n: u64| {
        (
            n,
            BurnInfo {
                chain_id: s("eth"),
                burner: s("a"),
                recipient: s(RECIPIENT),
                amount: 1,
                timestamp: 0,
            },
        )
    };
    assert!(Bridge::restore(state.clone(), vec![], vec![rec(3), rec(2)]).is_none());
    assert!(Bridge::restore(state.clone(), vec![], vec![rec(6)]).is_none());
    assert!(Bridge::restore(state.clone(), vec![], vec![rec(0)]).is_none());
    let zero = State { retry_delay: 0, ..state.clone() };
    assert!(Bridge::restore(zero, vec![], vec![]).is_none());
    let b = Bridge::restore(state, vec![], vec![rec(2), rec(5)]).unwrap();
    let nonces: Vec<u64> = b.get_withdraw_list().iter().map(|e| e.0).collect();
    assert_eq!(nonces, vec![2, 5]);
}
