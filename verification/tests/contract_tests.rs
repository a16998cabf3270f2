use counting_contract::contract;
use counting_contract::decimal::u64_to_string;
use counting_contract::msg::{ExecMsg, InstantiateMsg, MessageInfo, QueryMsg, ValueResp};
use counting_contract::response::{BankMsg, Response};
use counting_contract::state::{Coin, Store};
use counting_contract::{execute, instantiate, query, ContractError, StdError};

// A minimal host harness: one contract record, and a ledger of balances that
// the harness keeps the way the host would — attached funds are credited to
// the contract before a handler runs, requested transfers are applied after a
// successful one, and everything is rolled back on an error.

const CONTRACT_ADDR: &str = "contract0";

fn coin(amount: u128, denom: &str) -> Coin {
    Coin { denom: denom.to_string(), amount }
}

fn coins(amount: u128, denom: &str) -> Vec<Coin> {
    vec![coin(amount, denom)]
}

struct App {
    store: Store,
    balances: Vec<(String, Vec<Coin>)>,
}

fn new_app() -> App {
    App { store: Store::new(), balances: Vec::new() }
}

fn init_balance(app: &mut App, who: &str, funds: Vec<Coin>) {
    app.balances.push((who.to_string(), funds));
}

fn balance_of(app: &App, who: &str) -> Vec<Coin> {
    for (name, funds) in &app.balances {
        if name == who {
            return funds.iter().filter(|c| c.amount > 0).cloned().collect();
        }
    }
    Vec::new()
}

fn credit(balances: &mut Vec<(String, Vec<Coin>)>, who: &str, c: &Coin) {
    if c.amount == 0 {
        return;
    }
    for (name, funds) in balances.iter_mut() {
        if name == who {
            for f in funds.iter_mut() {
                if f.denom == c.denom {
                    f.amount += c.amount;
                    return;
                }
            }
            funds.push(c.clone());
            return;
        }
    }
    balances.push((who.to_string(), vec![c.clone()]));
}

fn debit(balances: &mut Vec<(String, Vec<Coin>)>, who: &str, c: &Coin) {
    if c.amount == 0 {
        return;
    }
    for (name, funds) in balances.iter_mut() {
        if name == who {
            for f in funds.iter_mut() {
                if f.denom == c.denom {
                    assert!(f.amount >= c.amount, "insufficient funds");
                    f.amount -= c.amount;
                    return;
                }
            }
        }
    }
    panic!("insufficient funds");
}

fn instantiate_contract(app: &mut App, sender: &str, msg: InstantiateMsg) {
    let info = MessageInfo { sender: sender.to_string(), funds: Vec::new() };
    instantiate(&mut app.store, &info, msg).unwrap();
}

fn execute_contract(
    app: &mut App,
    sender: &str,
    msg: &ExecMsg,
    funds: &[Coin],
) -> Result<Response, ContractError> {
    let store_snapshot = app.store.clone();
    let balances_snapshot = app.balances.clone();
    for c in funds {
        debit(&mut app.balances, sender, c);
        credit(&mut app.balances, CONTRACT_ADDR, c);
    }
    let info = MessageInfo { sender: sender.to_string(), funds: funds.to_vec() };
    let contract_balance = balance_of(app, CONTRACT_ADDR);
    match execute(&mut app.store, &info, contract_balance, msg) {
        Ok(resp) => {
            for m in &resp.messages {
                let BankMsg::Send { to_address, amount } = m;
                for c in amount {
                    debit(&mut app.balances, CONTRACT_ADDR, c);
                    credit(&mut app.balances, to_address, c);
                }
            }
            Ok(resp)
        }
        Err(e) => {
            app.store = store_snapshot;
            app.balances = balances_snapshot;
            Err(e)
        }
    }
}

fn read_value(app: &App) -> ValueResp {
    query(&app.store, &QueryMsg::Value {}).unwrap()
}

#[test]
fn query_value() {
    let mut app = new_app();
    instantiate_contract(
        &mut app,
        "sender",
        InstantiateMsg { counter: 7, minimal_donation: coin(10, "atom") },
    );

    let resp = query(&app.store, &QueryMsg::Value {}).unwrap();

    assert_eq!(resp, ValueResp { value: 7 });
}

#[test]
fn query_incremented() {
    let mut app = new_app();
    instantiate_contract(
        &mut app,
        "sender",
        InstantiateMsg { counter: 10, minimal_donation: coin(10, "atom") },
    );

    let resp = query(&app.store, &QueryMsg::Incremented { value: 1 }).unwrap();

    assert_eq!(resp, ValueResp { value: 2 });
}

#[test]
fn donate() {
    let mut app = new_app();
    instantiate_contract(
        &mut app,
        "sender",
        InstantiateMsg { counter: 0, minimal_donation: coin(10, "atom") },
    );

    execute_contract(&mut app, "sender", &ExecMsg::Donate {}, &[]).unwrap();

    assert_eq!(read_value(&app), ValueResp { value: 0 });
}

#[test]
fn donate_with_funds() {
    let mut app = new_app();
    init_balance(&mut app, "sender", coins(10, "atom"));
    instantiate_contract(
        &mut app,
        "sender",
        InstantiateMsg { counter: 0, minimal_donation: coin(10, "atom") },
    );

    execute_contract(&mut app, "sender", &ExecMsg::Donate {}, &coins(10, "atom")).unwrap();

    assert_eq!(read_value(&app), ValueResp { value: 1 });
}

#[test]
fn withdraw() {
    let mut app = new_app();
    init_balance(&mut app, "sender", coins(10, "atom"));
    instantiate_contract(
        &mut app,
        "owner",
        InstantiateMsg { counter: 0, minimal_donation: coin(10, "atom") },
    );

    execute_contract(&mut app, "sender", &ExecMsg::Donate {}, &coins(10, "atom")).unwrap();
    execute_contract(&mut app, "owner", &ExecMsg::Withdraw {}, &[]).unwrap();

    assert_eq!(balance_of(&app, "owner"), coins(10, "atom"));
    assert_eq!(balance_of(&app, "sender"), vec![]);
    assert_eq!(balance_of(&app, CONTRACT_ADDR), vec![]);
}

#[test]
fn unauthorized_withdraw() {
    let mut app = new_app();
    instantiate_contract(
        &mut app,
        "owner",
        InstantiateMsg { counter: 0, minimal_donation: coin(10, "atom") },
    );

    let err = execute_contract(&mut app, "member", &ExecMsg::Withdraw {}, &[]).unwrap_err();

    assert_eq!(ContractError::Unauthorized { owner: "owner".to_string() }, err);
}

#[test]
fn incremented_is_successor() {
    assert_eq!(contract::incremented(0), ValueResp { value: 1 });
    assert_eq!(contract::incremented(41), ValueResp { value: 42 });
}

#[test]
fn incremented_wraps_at_top() {
    assert_eq!(contract::incremented(u64::MAX), ValueResp { value: 0 });
}

#[test]
fn donate_wraps_at_top() {
    let mut app = new_app();
    init_balance(&mut app, "sender", coins(10, "atom"));
    instantiate_contract(
        &mut app,
        "sender",
        InstantiateMsg { counter: u64::MAX, minimal_donation: coin(10, "atom") },
    );

    execute_contract(&mut app, "sender", &ExecMsg::Donate {}, &coins(10, "atom")).unwrap();

    assert_eq!(read_value(&app), ValueResp { value: 0 });
}

#[test]
fn donate_below_threshold_amount() {
    let mut app = new_app();
    init_balance(&mut app, "sender", coins(5, "atom"));
    instantiate_contract(
        &mut app,
        "sender",
        InstantiateMsg { counter: 0, minimal_donation: coin(10, "atom") },
    );

    execute_contract(&mut app, "sender", &ExecMsg::Donate {}, &coins(5, "atom")).unwrap();

    assert_eq!(read_value(&app), ValueResp { value: 0 });
}

#[test]
fn donate_wrong_denom() {
    let mut app = new_app();
    init_balance(&mut app, "sender", coins(10, "btc"));
    instantiate_contract(
        &mut app,
        "sender",
        InstantiateMsg { counter: 0, minimal_donation: coin(10, "atom") },
    );

    execute_contract(&mut app, "sender", &ExecMsg::Donate {}, &coins(10, "btc")).unwrap();

    assert_eq!(read_value(&app), ValueResp { value: 0 });
}

#[test]
fn donate_counts_once_however_many_entries() {
    let mut app = new_app();
    init_balance(&mut app, "sender", vec![coin(40, "atom"), coin(5, "btc")]);
    instantiate_contract(
        &mut app,
        "sender",
        InstantiateMsg { counter: 0, minimal_donation: coin(10, "atom") },
    );

    let funds = vec![coin(10, "atom"), coin(30, "atom"), coin(5, "btc")];
    execute_contract(&mut app, "sender", &ExecMsg::Donate {}, &funds).unwrap();

    assert_eq!(read_value(&app), ValueResp { value: 1 });
}

#[test]
fn donate_audit_record() {
    let mut app = new_app();
    init_balance(&mut app, "sender", coins(10, "atom"));
    instantiate_contract(
        &mut app,
        "sender",
        InstantiateMsg { counter: 0, minimal_donation: coin(10, "atom") },
    );

    let resp = execute_contract(&mut app, "sender", &ExecMsg::Donate {}, &coins(10, "atom"))
        .unwrap();

    assert!(resp.messages.is_empty());
    assert_eq!(resp.attributes.len(), 3);
    assert_eq!(resp.attributes[0].key, "action");
    assert_eq!(resp.attributes[0].value, "donate");
    assert_eq!(resp.attributes[1].key, "sender");
    assert_eq!(resp.attributes[1].value, "sender");
    assert_eq!(resp.attributes[2].key, "counter");
    assert_eq!(resp.attributes[2].value, "1");
}

#[test]
fn reset_needs_no_authorization() {
    let mut app = new_app();
    instantiate_contract(
        &mut app,
        "owner",
        InstantiateMsg { counter: 3, minimal_donation: coin(10, "atom") },
    );

    let resp = execute_contract(&mut app, "member", &ExecMsg::Reset { counter: 5 }, &[]).unwrap();

    assert_eq!(read_value(&app), ValueResp { value: 5 });
    assert_eq!(resp.attributes[0].value, "reset");
    assert_eq!(resp.attributes[1].value, "member");
    assert_eq!(resp.attributes[2].value, "5");
}

#[test]
fn query_value_before_instantiation() {
    let store = Store::new();

    let err = query(&store, &QueryMsg::Value {}).unwrap_err();

    assert_eq!(err, StdError::NotFound { kind: "counter".to_string() });
}

#[test]
fn donate_before_instantiation() {
    let mut app = new_app();

    let err = execute_contract(&mut app, "sender", &ExecMsg::Donate {}, &[]).unwrap_err();

    assert_eq!(
        err,
        ContractError::Std(StdError::NotFound { kind: "counter".to_string() })
    );
}

#[test]
fn withdraw_before_instantiation() {
    let mut app = new_app();

    let err = execute_contract(&mut app, "owner", &ExecMsg::Withdraw {}, &[]).unwrap_err();

    assert_eq!(
        err,
        ContractError::Std(StdError::NotFound { kind: "owner".to_string() })
    );
}

#[test]
fn unauthorized_withdraw_moves_nothing() {
    let mut app = new_app();
    init_balance(&mut app, "sender", coins(10, "atom"));
    instantiate_contract(
        &mut app,
        "owner",
        InstantiateMsg { counter: 0, minimal_donation: coin(10, "atom") },
    );
    execute_contract(&mut app, "sender", &ExecMsg::Donate {}, &coins(10, "atom")).unwrap();

    let err = execute_contract(&mut app, "member", &ExecMsg::Withdraw {}, &[]).unwrap_err();

    assert_eq!(ContractError::Unauthorized { owner: "owner".to_string() }, err);
    assert_eq!(balance_of(&app, CONTRACT_ADDR), coins(10, "atom"));
    assert_eq!(read_value(&app), ValueResp { value: 1 });
}

#[test]
fn two_donations_scenario() {
    let mut app = new_app();
    init_balance(&mut app, "sender", coins(10, "atom"));
    instantiate_contract(
        &mut app,
        "sender",
        InstantiateMsg { counter: 0, minimal_donation: coin(10, "atom") },
    );

    execute_contract(&mut app, "sender", &ExecMsg::Donate {}, &[]).unwrap();
    assert_eq!(read_value(&app), ValueResp { value: 0 });

    execute_contract(&mut app, "sender", &ExecMsg::Donate {}, &coins(10, "atom")).unwrap();
    assert_eq!(read_value(&app), ValueResp { value: 1 });
}

#[test]
fn decimal_rendering() {
    assert_eq!(u64_to_string(0), "0");
    assert_eq!(u64_to_string(7), "7");
    assert_eq!(u64_to_string(10), "10");
    assert_eq!(u64_to_string(1234567890), "1234567890");
    assert_eq!(u64_to_string(u64::MAX), "18446744073709551615");
}
