use vstd::prelude::*;

verus! {

/// An amount of one native-currency denomination.
#[derive(Clone, Debug, PartialEq, Eq)]
pub struct Coin {
    pub denom: String,
    pub amount: u128,
}

/// The sale's one persisted record.
#[derive(Clone, Debug, PartialEq, Eq)]
pub struct State {
    /// The only caller allowed to change the price and withdraw the escrow.
    pub owner: String,
    /// Address of the token contract whose units this sale holds.
    pub cw20_address: String,
    /// Native currency asked for one indivisible token unit.
    pub price: Coin,
    /// Token units currently held in escrow.
    pub balance: u128,
}

} // verus!
