use token_sale::contract::{execute, instantiate, quote_purchase, try_buy, try_recieve, try_set_price, try_withdraw_all};
use token_sale::error::ContractError;
use token_sale::msg::{ExecuteMsg, InstantiateMsg, TokenReceipt};
use token_sale::response::{Message, Response};
use token_sale::state::{Coin, State};

fn coin(amount: u128, denom: &str) -> Coin {
    Coin { denom: denom.to_string(), amount }
}

fn sale_with(denom: &str, price: u128, balance: u128) -> State {
    let mut state = instantiate(
        "owner".to_string(),
        InstantiateMsg { cw20_address: "token".to_string(), denom: denom.to_string(), price },
    );
    state.balance = balance;
    state
}

fn receipt(amount: u128) -> TokenReceipt {
    TokenReceipt { sender: "holder".to_string(), amount, msg: vec![] }
}

fn reported_amount(res: &Response) -> String {
    assert_eq!(res.attributes.len(), 1);
    assert_eq!(res.attributes[0].key, "amount");
    res.attributes[0].value.clone()
}

fn transfer_of(m: &Message) -> (String, String, u128) {
    match m {
        Message::WasmExecute { contract_addr, msg } => {
            match cosmwasm_std::from_json::<cw20::Cw20ExecuteMsg>(msg).unwrap() {
                cw20::Cw20ExecuteMsg::Transfer { recipient, amount } => {
                    (contract_addr.clone(), recipient, amount.u128())
                }
                other => panic!("not a transfer: {:?}", other),
            }
        }
        other => panic!("not a contract call: {:?}", other),
    }
}

#[test]
fn conservation_over_a_run() {
    let mut state = sale_with("u", 7, 0);
    try_recieve(&mut state, &"holder".to_string(), receipt(10)).unwrap();
    try_recieve(&mut state, &"holder".to_string(), receipt(5)).unwrap();
    let bought = try_buy(&mut state, &"buyer".to_string(), vec![coin(20, "u")]).unwrap();
    assert_eq!(reported_amount(&bought), "2");
    assert_eq!(state.balance, 15 - 2);
    // a failed command moves nothing
    assert!(try_buy(&mut state, &"buyer".to_string(), vec![coin(700, "u")]).is_err());
    assert_eq!(state.balance, 13);
    let withdrawn = try_withdraw_all(&mut state, &"owner".to_string()).unwrap();
    assert_eq!(reported_amount(&withdrawn), "13");
    assert_eq!(state.balance, 10 + 5 - 2 - 13);
}

#[test]
fn only_owner_sets_price_or_withdraws() {
    let mut state = sale_with("u", 7, 10);
    let before = state.clone();
    let r = try_set_price(&mut state, &"owner2".to_string(), coin(1, "v"));
    assert!(matches!(r, Err(ContractError::Unauthorized {})));
    let r = try_withdraw_all(&mut state, &"".to_string());
    assert!(matches!(r, Err(ContractError::Unauthorized {})));
    let r = execute(&mut state, "token".to_string(), vec![], ExecuteMsg::WithdrawAll {});
    assert!(matches!(r, Err(ContractError::Unauthorized {})));
    assert_eq!(state, before);
}

#[test]
fn owner_may_set_any_price() {
    let mut state = sale_with("u", 7, 10);
    let r = try_set_price(&mut state, &"owner".to_string(), coin(0, "other")).unwrap();
    assert!(r.messages.is_empty() && r.attributes.is_empty());
    assert_eq!(state.price, coin(0, "other"));
    assert_eq!(state.balance, 10);
}

#[test]
fn zero_price_divides_by_zero() {
    let mut state = sale_with("u", 0, 10);
    let before = state.clone();
    for funds in [vec![coin(5, "u")], vec![coin(1, "u"), coin(3, "x")], vec![coin(u128::MAX, "u")]] {
        let r = try_buy(&mut state, &"buyer".to_string(), funds);
        assert!(matches!(r, Err(ContractError::DivideByZero {})));
    }
    assert_eq!(state, before);
}

#[test]
fn nothing_in_price_denomination_is_incorrect_funds() {
    let mut state = sale_with("u", 7, 10);
    for funds in [vec![], vec![coin(100, "x")], vec![coin(0, "u")]] {
        let r = try_buy(&mut state, &"buyer".to_string(), funds);
        assert!(matches!(r, Err(ContractError::IncorrectFunds {})));
    }
    let mut free = sale_with("u", 0, 10);
    let r = try_buy(&mut free, &"buyer".to_string(), vec![coin(3, "x")]);
    assert!(matches!(r, Err(ContractError::IncorrectFunds {})));
}

#[test]
fn floor_division_without_refund() {
    let mut state = sale_with("u", 7, 10);
    let res = try_buy(&mut state, &"buyer".to_string(), vec![coin(20, "u")]).unwrap();
    assert_eq!(reported_amount(&res), "2");
    assert_eq!(res.messages.len(), 2);
    assert_eq!(transfer_of(&res.messages[0]), ("token".to_string(), "buyer".to_string(), 2));
    match &res.messages[1] {
        Message::BankSend { to_address, amount } => {
            assert_eq!(to_address, "owner");
            assert_eq!(amount, &vec![coin(20, "u")]);
        }
        other => panic!("not a payment: {:?}", other),
    }
    assert_eq!(state.balance, 8);
}

#[test]
fn other_denominations_are_forwarded_not_counted() {
    let mut state = sale_with("u", 7, 10);
    let funds = vec![coin(7, "u"), coin(7, "u"), coin(7, "fake")];
    assert!(matches!(quote_purchase(&state, &funds), Ok(2)));
    let res = try_buy(&mut state, &"buyer".to_string(), funds.clone()).unwrap();
    assert_eq!(reported_amount(&res), "2");
    match &res.messages[1] {
        Message::BankSend { to_address, amount } => {
            assert_eq!(to_address, "owner");
            assert_eq!(amount, &funds);
        }
        other => panic!("not a payment: {:?}", other),
    }
    assert_eq!(state.balance, 8);
}

#[test]
fn withdraw_reports_balance_before_reset() {
    let mut state = sale_with("u", 7, 10);
    let res = try_withdraw_all(&mut state, &"owner".to_string()).unwrap();
    assert_eq!(reported_amount(&res), "10");
    assert_eq!(res.messages.len(), 1);
    assert_eq!(transfer_of(&res.messages[0]), ("token".to_string(), "owner".to_string(), 10));
    assert_eq!(state.balance, 0);
}

#[test]
fn withdraw_of_empty_escrow_reports_zero() {
    let mut state = sale_with("u", 7, 0);
    let res = try_withdraw_all(&mut state, &"owner".to_string()).unwrap();
    assert_eq!(reported_amount(&res), "0");
    assert_eq!(transfer_of(&res.messages[0]).2, 0);
}

#[test]
fn large_amounts_are_reported_in_full() {
    let mut state = sale_with("u", 7, u128::MAX);
    let res = try_withdraw_all(&mut state, &"owner".to_string()).unwrap();
    assert_eq!(reported_amount(&res), "340282366920938463463374607431768211455");
    assert_eq!(transfer_of(&res.messages[0]).2, u128::MAX);
}

#[test]
fn insufficient_balance_changes_nothing() {
    let mut state = sale_with("u", 1, 1);
    let before = state.clone();
    let r = try_buy(&mut state, &"buyer".to_string(), vec![coin(5, "u")]);
    assert!(matches!(r, Err(ContractError::InsufficientBalance {})));
    assert_eq!(state, before);
}

#[test]
fn buy_of_the_whole_escrow() {
    let mut state = sale_with("u", 3, 4);
    let res = try_buy(&mut state, &"buyer".to_string(), vec![coin(14, "u")]).unwrap();
    assert_eq!(reported_amount(&res), "4");
    assert_eq!(state.balance, 0);
}

#[test]
fn payment_overflow_is_refused() {
    let mut state = sale_with("u", 1, 10);
    let before = state.clone();
    let r = try_buy(&mut state, &"buyer".to_string(), vec![coin(u128::MAX, "u"), coin(1, "u")]);
    assert!(matches!(r, Err(ContractError::Overflow {})));
    assert_eq!(state, before);
}

#[test]
fn receive_overflow_is_refused() {
    let mut state = sale_with("u", 1, u128::MAX);
    let r = try_recieve(&mut state, &"token".to_string(), receipt(1));
    assert!(matches!(r, Err(ContractError::Overflow {})));
    assert_eq!(state.balance, u128::MAX);
    let r = try_recieve(&mut state, &"token".to_string(), receipt(0)).unwrap();
    assert!(r.messages.is_empty());
}

#[test]
fn receive_credits_whatever_the_caller() {
    let mut state = sale_with("u", 1, 0);
    execute(&mut state, "anyone".to_string(), vec![], ExecuteMsg::Receive(receipt(3))).unwrap();
    assert_eq!(state.balance, 3);
}

#[test]
fn purchase_below_price_buys_nothing_and_forwards_all() {
    let mut state = sale_with("u", 7, 4);
    let res = try_buy(&mut state, &"buyer".to_string(), vec![coin(6, "u")]).unwrap();
    assert_eq!(reported_amount(&res), "0");
    assert_eq!(transfer_of(&res.messages[0]), ("token".to_string(), "buyer".to_string(), 0));
    match &res.messages[1] {
        Message::BankSend { to_address, amount } => {
            assert_eq!(to_address, "owner");
            assert_eq!(amount, &vec![coin(6, "u")]);
        }
        other => panic!("not a payment: {:?}", other),
    }
    assert_eq!(state.balance, 4);
}

#[test]
fn adding_other_denominations_changes_nothing_bought() {
    let mut a = sale_with("u", 7, 4);
    let mut b = a.clone();
    let ra = try_buy(&mut a, &"buyer".to_string(), vec![coin(20, "u")]).unwrap();
    let rb = try_buy(&mut b, &"buyer".to_string(), vec![coin(3, "x"), coin(20, "u"), coin(9, "y")]).unwrap();
    assert_eq!(reported_amount(&ra), reported_amount(&rb));
    assert_eq!(a, b);
}

#[test]
fn second_withdrawal_moves_nothing() {
    let mut state = sale_with("u", 7, 10);
    try_withdraw_all(&mut state, &"owner".to_string()).unwrap();
    let res = try_withdraw_all(&mut state, &"owner".to_string()).unwrap();
    assert_eq!(reported_amount(&res), "0");
    assert_eq!(state.balance, 0);
}
