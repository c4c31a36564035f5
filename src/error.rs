use vstd::prelude::*;

verus! {

/// Why a command was refused. A refused command changes nothing.
#[derive(Debug)]
pub enum ContractError {
    /// The caller is not the sale's owner.
    Unauthorized {},
    /// A purchase carried no funds in the price's denomination.
    IncorrectFunds {},
    /// A purchase was attempted while the price is zero.
    DivideByZero {},
    /// A purchase asked for more token units than the escrow holds.
    InsufficientBalance {},
    /// An amount left the range of `u128`.
    Overflow {},
}

} // verus!
