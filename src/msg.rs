//! The payloads that the sale accepts and answers with.
use vstd::prelude::*;
use crate::state::Coin;

verus! {

/// Creates a sale of the token at `cw20_address`, priced at `price` units of
/// `denom` per token unit.
#[derive(Clone, Debug)]
pub struct InstantiateMsg {
    pub cw20_address: String,
    pub denom: String,
    pub price: u128,
}

/// The token contract's notice that `amount` units were sent to this sale by
/// `sender`, with the opaque payload `msg`.
#[derive(Clone, Debug)]
pub struct TokenReceipt {
    pub sender: String,
    pub amount: u128,
    pub msg: Vec<u8>,
}

/// The commands of the sale.
#[derive(Clone, Debug)]
pub enum ExecuteMsg {
    /// Owner only: replace the price.
    SetPrice { denom: String, price: u128 },
    /// Anyone: buy token units with the funds attached to the call.
    Buy {},
    /// Owner only: move the whole escrow to the owner.
    WithdrawAll {},
    /// The token contract credits units sent to this sale.
    Receive(TokenReceipt),
}

/// The payload that a token holder attaches when sending units to the sale.
#[derive(Clone, Copy, Debug, PartialEq, Eq, Structural)]
pub enum ReceiveMsg {
    Receive {},
}

/// The read-only requests.
#[derive(Clone, Copy, Debug, PartialEq, Eq, Structural)]
pub enum QueryMsg {
    GetPrice {},
    GetBalance {},
}

/// The current price.
#[derive(Clone, Debug)]
pub struct PriceResponse {
    pub price: Coin,
}

/// The token units currently in escrow.
#[derive(Clone, Copy, Debug, PartialEq, Eq, Structural)]
pub struct BalanceResponse {
    pub balance: u128,
}

/// The answer to a [`QueryMsg`].
#[derive(Clone, Debug)]
pub enum QueryResponse {
    Price(PriceResponse),
    Balance(BalanceResponse),
}

} // verus!
