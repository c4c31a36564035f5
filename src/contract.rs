//! The sale's commands and queries.
use vstd::prelude::*;
use crate::encode::{decimal_text, encode_transfer};
use crate::error::ContractError;
use crate::ledger::{
    apply_op, lemma_conservation, op_applies, run_applies, run_balance, total_bought,
    total_received, total_withdrawn, LedgerOp,
};
use crate::msg::{
    BalanceResponse, ExecuteMsg, InstantiateMsg, PriceResponse, QueryMsg, QueryResponse,
    TokenReceipt,
};
use crate::response::{
    is_amount_attribute, is_empty_response, is_payment, is_token_transfer, Attribute, Message,
    Response,
};
use crate::state::{Coin, State};

verus! {

/// The sum of the amounts in `funds` whose denomination is `denom`.
pub open spec fn paid_in(funds: Seq<Coin>, denom: Seq<char>) -> nat
    decreases funds.len(),
{
    if funds.len() == 0 {
        0
    } else {
        paid_in(funds.drop_last(), denom) + if funds.last().denom@ == denom {
            funds.last().amount as nat
        } else {
            0
        }
    }
}

/// What a purchase with `funds` against `state` yields: the token units
/// bought, `floor(paid / price)`, or the error that refuses it. The checks
/// come in this order: the payment must fit in `u128`, be non-zero, meet a
/// non-zero price, and buy no more than the escrow holds.
pub open spec fn buy_quote(state: State, funds: Seq<Coin>) -> Result<u128, ContractError> {
    let paid = paid_in(funds, state.price.denom@);
    if paid > u128::MAX {
        Err(ContractError::Overflow {  })
    } else if paid == 0 {
        Err(ContractError::IncorrectFunds {  })
    } else if state.price.amount == 0 {
        Err(ContractError::DivideByZero {  })
    } else if paid / (state.price.amount as nat) > state.balance {
        Err(ContractError::InsufficientBalance {  })
    } else {
        Ok((paid / (state.price.amount as nat)) as u128)
    }
}

/// The outcome of [`try_buy`] by `buyer` with `funds`, from `pre` to `post`:
/// it succeeds exactly when the quote does.
pub open spec fn buy_post(
    pre: State,
    post: State,
    buyer: Seq<char>,
    funds: Seq<Coin>,
    r: Result<Response, ContractError>,
) -> bool {
    match buy_quote(pre, funds) {
        Err(e) => r == Err::<Response, ContractError>(e) && post == pre,
        Ok(tokens) => r matches Ok(resp) && {
            &&& op_applies(pre.balance as nat, LedgerOp::Buy { tokens: tokens as nat })
            &&& post.balance == apply_op(pre.balance as nat, LedgerOp::Buy { tokens: tokens as nat })
            &&& post == (State { balance: post.balance, ..pre })
            &&& resp.messages@.len() == 2
            &&& is_token_transfer(resp.messages@[0], pre.cw20_address@, buyer, tokens)
            &&& match UNCONSUMED_PAYMENT {
                UnconsumedPayment::ForwardToOwner => is_payment(resp.messages@[1], pre.owner@, funds),
            }
            &&& resp.attributes@.len() == 1
            &&& is_amount_attribute(resp.attributes@[0], tokens)
        },
    }
}

proof fn lemma_paid_prefix(funds: Seq<Coin>, denom: Seq<char>, k: int)
    requires
        0 <= k <= funds.len(),
    ensures
        paid_in(funds.subrange(0, k), denom) <= paid_in(funds, denom),
    decreases funds.len(),
{
    if k < funds.len() {
        assert(funds.drop_last().subrange(0, k) =~= funds.subrange(0, k));
        lemma_paid_prefix(funds.drop_last(), denom, k);
    } else {
        assert(funds.subrange(0, k) =~= funds);
    }
}

/// The coins of `funds` in `denom`, in order.
pub open spec fn coins_in(funds: Seq<Coin>, denom: Seq<char>) -> Seq<Coin> {
    funds.filter(|c: Coin| c.denom@ == denom)
}

proof fn lemma_paid_in_matching(funds: Seq<Coin>, denom: Seq<char>)
    ensures
        paid_in(funds, denom) == paid_in(coins_in(funds, denom), denom),
    decreases funds.len(),
{
    reveal(Seq::filter);
    if funds.len() > 0 {
        lemma_paid_in_matching(funds.drop_last(), denom);
        let sub = coins_in(funds.drop_last(), denom);
        if funds.last().denom@ == denom {
            assert(sub.push(funds.last()).drop_last() =~= sub);
        }
    }
}

/// Funds in other denominations count for nothing: two payments whose coins in
/// the price's denomination are the same, in the same order, get the same
/// quote, so they buy the same units or fail alike.
pub proof fn lemma_other_denominations_ignored(state: State, a: Seq<Coin>, b: Seq<Coin>)
    requires
        coins_in(a, state.price.denom@) == coins_in(b, state.price.denom@),
    ensures
        buy_quote(state, a) == buy_quote(state, b),
{
    lemma_paid_in_matching(a, state.price.denom@);
    lemma_paid_in_matching(b, state.price.denom@);
}

/// The total of `funds` in `denom`, or `None` where it exceeds `u128`.
pub fn paid_total(funds: &Vec<Coin>, denom: &String) -> (r: Option<u128>)
    ensures
        r == (if paid_in(funds@, denom@) <= u128::MAX {
            Some(paid_in(funds@, denom@) as u128)
        } else {
            None::<u128>
        }),
{
    let mut total: u128 = 0;
    let mut i: usize = 0;
    while i < funds.len()
        invariant
            i <= funds.len(),
            total == paid_in(funds@.subrange(0, i as int), denom@),
        decreases funds.len() - i,
    {
        let coin = &funds[i];
        assert(funds@.subrange(0, i + 1).drop_last() =~= funds@.subrange(0, i as int));
        if coin.denom == *denom {
            match total.checked_add(coin.amount) {
                Some(t) => {
                    total = t;
                },
                None => {
                    proof {
                        lemma_paid_prefix(funds@, denom@, i + 1);
                    }
                    return None;
                },
            }
        }
        i = i + 1;
    }
    assert(funds@.subrange(0, i as int) =~= funds@);
    Some(total)
}

/// The token units that `funds` buy from `state`, or the error that refuses
/// the purchase.
pub fn quote_purchase(state: &State, funds: &Vec<Coin>) -> (r: Result<u128, ContractError>)
    ensures
        r == buy_quote(*state, funds@),
{
    let paid = match paid_total(funds, &state.price.denom) {
        Some(p) => p,
        None => return Err(ContractError::Overflow {  }),
    };
    if paid == 0 {
        return Err(ContractError::IncorrectFunds {  });
    }
    let tokens = match paid.checked_div(state.price.amount) {
        Some(t) => t,
        None => return Err(ContractError::DivideByZero {  }),
    };
    if tokens > state.balance {
        return Err(ContractError::InsufficientBalance {  });
    }
    Ok(tokens)
}

/// The message that asks the token contract `token` to transfer `amount`
/// units to `recipient`.
pub fn token_transfer(token: &String, recipient: &String, amount: u128) -> (m: Message)
    ensures
        is_token_transfer(m, token@, recipient@, amount),
{
    match encode_transfer(recipient, amount) {
        Ok(bytes) => Message::WasmExecute { contract_addr: token.clone(), msg: bytes },
        Err(_) => unreached(),
    }
}

/// The attribute that reports `amount` under the key `amount`.
pub fn amount_attribute(amount: u128) -> (a: Attribute)
    ensures
        is_amount_attribute(a, amount),
{
    Attribute { key: String::from_str("amount"), value: decimal_text(amount) }
}

/// What becomes of the part of a payment that buys nothing: the remainder of
/// the division, and any funds in other denominations.
pub enum UnconsumedPayment {
    /// The whole payment goes to the owner; nothing is refunded to the buyer.
    ForwardToOwner,
}

/// The sale's policy for unconsumed payment.
pub const UNCONSUMED_PAYMENT: UnconsumedPayment = UnconsumedPayment::ForwardToOwner;

/// Sells to `buyer` the token units that `funds` pay for at the current price.
///
/// Only funds in the price's denomination count, and the quotient is rounded
/// down. What the payment does not consume is disposed of by
/// [`UNCONSUMED_PAYMENT`]: all of `funds`, other denominations and the
/// remainder included, is forwarded to the owner. Anyone may buy.
pub fn try_buy(state: &mut State, buyer: &String, funds: Vec<Coin>) -> (r: Result<
    Response,
    ContractError,
>)
    ensures
        buy_post(*old(state), *final(state), buyer@, funds@, r),
{
    let tokens = match quote_purchase(state, &funds) {
        Ok(t) => t,
        Err(e) => return Err(e),
    };
    let transfer = token_transfer(&state.cw20_address, buyer, tokens);
    let payment = match UNCONSUMED_PAYMENT {
        UnconsumedPayment::ForwardToOwner => Message::BankSend {
            to_address: state.owner.clone(),
            amount: funds,
        },
    };
    state.balance = state.balance - tokens;
    let mut messages: Vec<Message> = Vec::new();
    messages.push(transfer);
    messages.push(payment);
    let mut attributes: Vec<Attribute> = Vec::new();
    attributes.push(amount_attribute(tokens));
    Ok(Response { messages, attributes })
}

/// Whether [`try_recieve`] credits only notices whose caller is the sale's
/// token contract. Off, the sale trusts the host to deliver only genuine
/// notices and credits any caller's claim.
pub const RECEIVE_FROM_TOKEN_ONLY: bool = false;

/// The sale that `sender` creates with `msg`: `sender` owns it and nothing is
/// in escrow.
pub fn instantiate(sender: String, msg: InstantiateMsg) -> (s: State)
    ensures
        s == (State {
            owner: sender,
            cw20_address: msg.cw20_address,
            price: Coin { denom: msg.denom, amount: msg.price },
            balance: 0,
        }),
{
    State {
        owner: sender,
        cw20_address: msg.cw20_address,
        price: Coin { denom: msg.denom, amount: msg.price },
        balance: 0,
    }
}

/// The outcome of [`try_set_price`] by `sender` with `price`, from `pre` to
/// `post`.
pub open spec fn set_price_post(
    pre: State,
    post: State,
    sender: Seq<char>,
    price: Coin,
    r: Result<Response, ContractError>,
) -> bool {
    if sender != pre.owner@ {
        r == Err::<Response, ContractError>(ContractError::Unauthorized {  }) && post == pre
    } else {
        r matches Ok(resp) && is_empty_response(resp) && post == (State { price, ..pre })
    }
}

/// The outcome of [`try_recieve`] called by `caller` for `amount` units, from
/// `pre` to `post`.
pub open spec fn receive_post(
    pre: State,
    post: State,
    caller: Seq<char>,
    amount: u128,
    r: Result<Response, ContractError>,
) -> bool {
    if RECEIVE_FROM_TOKEN_ONLY && caller != pre.cw20_address@ {
        r == Err::<Response, ContractError>(ContractError::Unauthorized {  }) && post == pre
    } else if pre.balance + amount > u128::MAX {
        r == Err::<Response, ContractError>(ContractError::Overflow {  }) && post == pre
    } else {
        &&& r matches Ok(resp) && is_empty_response(resp)
        &&& op_applies(pre.balance as nat, LedgerOp::Receive { amount: amount as nat })
        &&& post.balance == apply_op(pre.balance as nat, LedgerOp::Receive { amount: amount as nat })
        &&& post == (State { balance: post.balance, ..pre })
    }
}

/// The outcome of [`try_withdraw_all`] by `sender`, from `pre` to `post`:
/// it succeeds exactly when the owner asks.
pub open spec fn withdraw_post(
    pre: State,
    post: State,
    sender: Seq<char>,
    r: Result<Response, ContractError>,
) -> bool {
    if sender != pre.owner@ {
        r == Err::<Response, ContractError>(ContractError::Unauthorized {  }) && post == pre
    } else {
        r matches Ok(resp) && {
            &&& op_applies(pre.balance as nat, LedgerOp::WithdrawAll { amount: pre.balance as nat })
            &&& post.balance == apply_op(pre.balance as nat, LedgerOp::WithdrawAll { amount: pre.balance as nat })
            &&& post == (State { balance: 0, ..pre })
            &&& resp.messages@.len() == 1
            &&& is_token_transfer(resp.messages@[0], pre.cw20_address@, pre.owner@, pre.balance)
            &&& resp.attributes@.len() == 1
            &&& is_amount_attribute(resp.attributes@[0], pre.balance)
        }
    }
}

/// Replaces the price wholesale. Only the owner may; any denomination and any
/// amount, zero included, is accepted.
pub fn try_set_price(state: &mut State, sender: &String, price: Coin) -> (r: Result<
    Response,
    ContractError,
>)
    ensures
        set_price_post(*old(state), *final(state), sender@, price, r),
{
    if *sender != state.owner {
        return Err(ContractError::Unauthorized {  });
    }
    state.price = price;
    Ok(Response::new())
}

/// Credits the escrow with the units that the token contract reports as
/// received. Whether `caller` must be that contract is
/// [`RECEIVE_FROM_TOKEN_ONLY`].
pub fn try_recieve(state: &mut State, caller: &String, receipt: TokenReceipt) -> (r: Result<
    Response,
    ContractError,
>)
    ensures
        receive_post(*old(state), *final(state), caller@, receipt.amount, r),
{
    if RECEIVE_FROM_TOKEN_ONLY && *caller != state.cw20_address {
        return Err(ContractError::Unauthorized {  });
    }
    match state.balance.checked_add(receipt.amount) {
        Some(b) => {
            state.balance = b;
            Ok(Response::new())
        },
        None => Err(ContractError::Overflow {  }),
    }
}

/// Moves the whole escrow to the owner and reports the amount moved, which is
/// the balance before it was reset. Only the owner may.
pub fn try_withdraw_all(state: &mut State, sender: &String) -> (r: Result<
    Response,
    ContractError,
>)
    ensures
        withdraw_post(*old(state), *final(state), sender@, r),
{
    if *sender != state.owner {
        return Err(ContractError::Unauthorized {  });
    }
    let amount = state.balance;
    let transfer = token_transfer(&state.cw20_address, &state.owner, amount);
    state.balance = 0;
    let mut messages: Vec<Message> = Vec::new();
    messages.push(transfer);
    let mut attributes: Vec<Attribute> = Vec::new();
    attributes.push(amount_attribute(amount));
    Ok(Response { messages, attributes })
}

/// The outcome of [`execute`] of `msg` by `sender` with `funds` attached.
pub open spec fn execute_post(
    pre: State,
    post: State,
    sender: Seq<char>,
    funds: Seq<Coin>,
    msg: ExecuteMsg,
    r: Result<Response, ContractError>,
) -> bool {
    match msg {
        ExecuteMsg::SetPrice { denom, price } => set_price_post(
            pre,
            post,
            sender,
            Coin { denom, amount: price },
            r,
        ),
        ExecuteMsg::Buy {  } => buy_post(pre, post, sender, funds, r),
        ExecuteMsg::WithdrawAll {  } => withdraw_post(pre, post, sender, r),
        ExecuteMsg::Receive(receipt) => receive_post(pre, post, sender, receipt.amount, r),
    }
}

/// Runs the command `msg` of `sender`, who attached `funds`, against the sale.
pub fn execute(state: &mut State, sender: String, funds: Vec<Coin>, msg: ExecuteMsg) -> (r:
    Result<Response, ContractError>)
    ensures
        execute_post(*old(state), *final(state), sender@, funds@, msg, r),
{
    match msg {
        ExecuteMsg::SetPrice { denom, price } => try_set_price(
            state,
            &sender,
            Coin { denom, amount: price },
        ),
        ExecuteMsg::Buy {  } => try_buy(state, &sender, funds),
        ExecuteMsg::WithdrawAll {  } => try_withdraw_all(state, &sender),
        ExecuteMsg::Receive(receipt) => try_recieve(state, &sender, receipt),
    }
}

/// The current price.
pub fn query_price(state: &State) -> (r: PriceResponse)
    ensures
        r.price.denom@ == state.price.denom@,
        r.price.amount == state.price.amount,
{
    PriceResponse { price: Coin { denom: state.price.denom.clone(), amount: state.price.amount } }
}

/// The token units in escrow.
pub fn query_balance(state: &State) -> (r: BalanceResponse)
    ensures
        r.balance == state.balance,
{
    BalanceResponse { balance: state.balance }
}

/// Answers `msg` from the sale, changing nothing.
pub fn query(state: &State, msg: QueryMsg) -> (r: QueryResponse)
    ensures
        match msg {
            QueryMsg::GetPrice {  } => r matches QueryResponse::Price(p) && p.price.denom@
                == state.price.denom@ && p.price.amount == state.price.amount,
            QueryMsg::GetBalance {  } => r == QueryResponse::Balance(
                BalanceResponse { balance: state.balance },
            ),
        },
{
    match msg {
        QueryMsg::GetPrice {  } => QueryResponse::Price(query_price(state)),
        QueryMsg::GetBalance {  } => QueryResponse::Balance(query_balance(state)),
    }
}

/// The movement of escrowed units that `msg` by `sender` with `funds` makes
/// when it succeeds against `pre`; `None` for a price change, which moves none.
pub open spec fn movement(pre: State, funds: Seq<Coin>, msg: ExecuteMsg) -> Option<LedgerOp> {
    match msg {
        ExecuteMsg::SetPrice { .. } => None,
        ExecuteMsg::Buy {  } => match buy_quote(pre, funds) {
            Ok(tokens) => Some(LedgerOp::Buy { tokens: tokens as nat }),
            Err(_) => None,
        },
        ExecuteMsg::WithdrawAll {  } => Some(LedgerOp::WithdrawAll { amount: pre.balance as nat }),
        ExecuteMsg::Receive(receipt) => Some(LedgerOp::Receive { amount: receipt.amount as nat }),
    }
}

/// Every successful command moves the escrow by exactly its [`movement`], which
/// applies to the balance it started from: a run of successful commands is a
/// run of the ledger that `lemma_conservation` accounts for. A failed command
/// moves nothing.
pub proof fn lemma_execute_moves(
    pre: State,
    post: State,
    sender: Seq<char>,
    funds: Seq<Coin>,
    msg: ExecuteMsg,
    r: Result<Response, ContractError>,
)
    requires
        execute_post(pre, post, sender, funds, msg, r),
    ensures
        r is Err ==> post == pre,
        r is Ok ==> match movement(pre, funds, msg) {
            Some(op) => op_applies(pre.balance as nat, op) && post.balance == apply_op(
                pre.balance as nat,
                op,
            ),
            None => post.balance == pre.balance,
        },
{
}

/// One command of a sale's history: the sale before it, who called it with
/// which funds attached, and what it returned.
pub struct Step {
    pub pre: State,
    pub sender: Seq<char>,
    pub funds: Seq<Coin>,
    pub msg: ExecuteMsg,
    pub result: Result<Response, ContractError>,
}

/// The sale after step `i` of `steps`, where `last` follows the final step.
pub open spec fn state_after(steps: Seq<Step>, last: State, i: int) -> State {
    if i + 1 < steps.len() {
        steps[i + 1].pre
    } else {
        last
    }
}

/// The sale before the first of `steps`, or `last` where there is none.
pub open spec fn run_start(steps: Seq<Step>, last: State) -> State {
    if steps.len() == 0 {
        last
    } else {
        steps[0].pre
    }
}

/// `steps` are successful commands, each run on the sale that the one before
/// left, ending in `last`.
pub open spec fn successful_run(steps: Seq<Step>, last: State) -> bool {
    forall|i: int|
        0 <= i < steps.len() ==> {
            &&& #[trigger] execute_post(
                steps[i].pre,
                state_after(steps, last, i),
                steps[i].sender,
                steps[i].funds,
                steps[i].msg,
                steps[i].result,
            )
            &&& steps[i].result is Ok
        }
}

/// The escrow movements that `steps` make, in order.
pub open spec fn moves_of(steps: Seq<Step>) -> Seq<LedgerOp>
    decreases steps.len(),
{
    if steps.len() == 0 {
        seq![]
    } else {
        let earlier = moves_of(steps.drop_last());
        match movement(steps.last().pre, steps.last().funds, steps.last().msg) {
            Some(op) => earlier.push(op),
            None => earlier,
        }
    }
}

/// Conservation: after any run of successful commands, the escrow holds what
/// it held before, plus every unit received, less every unit sold and every
/// unit withdrawn; it never went below zero on the way.
pub proof fn lemma_run_conserves(steps: Seq<Step>, last: State)
    requires
        successful_run(steps, last),
    ensures
        run_applies(run_start(steps, last).balance as nat, moves_of(steps)),
        last.balance == run_balance(run_start(steps, last).balance as nat, moves_of(steps)),
        last.balance == run_start(steps, last).balance + total_received(moves_of(steps))
            - total_bought(moves_of(steps)) - total_withdrawn(moves_of(steps)),
    decreases steps.len(),
{
    let start = run_start(steps, last).balance as nat;
    if steps.len() > 0 {
        let n = steps.len() - 1;
        let init = steps.drop_last();
        let mid = steps[n].pre;
        assert forall|i: int| 0 <= i < init.len() implies {
            &&& #[trigger] execute_post(
                init[i].pre,
                state_after(init, mid, i),
                init[i].sender,
                init[i].funds,
                init[i].msg,
                init[i].result,
            )
            &&& init[i].result is Ok
        } by {
            assert(state_after(init, mid, i) == state_after(steps, last, i));
            assert(execute_post(
                steps[i].pre,
                state_after(steps, last, i),
                steps[i].sender,
                steps[i].funds,
                steps[i].msg,
                steps[i].result,
            ));
        }
        lemma_run_conserves(init, mid);
        assert(run_start(init, mid) == run_start(steps, last));
        assert(execute_post(
            steps[n].pre,
            state_after(steps, last, n),
            steps[n].sender,
            steps[n].funds,
            steps[n].msg,
            steps[n].result,
        ));
        lemma_execute_moves(mid, last, steps[n].sender, steps[n].funds, steps[n].msg, steps[n].result);
        match movement(mid, steps[n].funds, steps[n].msg) {
            Some(op) => {
                assert(moves_of(steps).drop_last() =~= moves_of(init));
            },
            None => {},
        }
    }
    lemma_conservation(start, moves_of(steps));
}

/// Authorization: the owner and the token fixed at instantiation never change,
/// and a price change or a withdrawal asked by anyone but the owner fails with
/// `Unauthorized` and changes nothing, whatever its other inputs.
pub proof fn lemma_owner_only(
    pre: State,
    post: State,
    sender: Seq<char>,
    funds: Seq<Coin>,
    msg: ExecuteMsg,
    r: Result<Response, ContractError>,
)
    requires
        execute_post(pre, post, sender, funds, msg, r),
    ensures
        post.owner == pre.owner,
        post.cw20_address == pre.cw20_address,
        (msg is SetPrice || msg is WithdrawAll) && sender != pre.owner@ ==> r == Err::<
            Response,
            ContractError,
        >(ContractError::Unauthorized {  }) && post == pre,
{
}

/// A zero price refuses with `DivideByZero` every purchase that pays a
/// non-zero amount, fitting in `u128`, in the price's denomination; the sale
/// is unchanged. (A purchase that pays nothing in that denomination fails
/// earlier, with `IncorrectFunds`.)
pub proof fn lemma_zero_price_refuses(
    pre: State,
    post: State,
    buyer: Seq<char>,
    funds: Seq<Coin>,
    r: Result<Response, ContractError>,
)
    requires
        buy_post(pre, post, buyer, funds, r),
        pre.price.amount == 0,
        0 < paid_in(funds, pre.price.denom@) <= u128::MAX,
    ensures
        r == Err::<Response, ContractError>(ContractError::DivideByZero {  }),
        post == pre,
{
}

} // verus!
