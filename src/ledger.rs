//! The escrow balance as a ledger of credits and debits.
//!
//! Every successful command that moves token units states its movement as a
//! [`LedgerOp`] applied to the balance; [`lemma_conservation`] then accounts
//! for any run of such commands.
use vstd::prelude::*;

verus! {

/// A movement of escrowed token units made by one successful command.
pub enum LedgerOp {
    /// Units credited by the token contract.
    Receive { amount: nat },
    /// Units sold to a buyer.
    Buy { tokens: nat },
    /// Units returned to the owner.
    WithdrawAll { amount: nat },
}

/// `op` can be made from `balance` without creating units: a sale takes no
/// more than the escrow holds, and a withdrawal takes exactly what it holds.
pub open spec fn op_applies(balance: nat, op: LedgerOp) -> bool {
    match op {
        LedgerOp::Receive { .. } => true,
        LedgerOp::Buy { tokens } => tokens <= balance,
        LedgerOp::WithdrawAll { amount } => amount == balance,
    }
}

/// The balance after `op`.
pub open spec fn apply_op(balance: nat, op: LedgerOp) -> nat {
    match op {
        LedgerOp::Receive { amount } => balance + amount,
        LedgerOp::Buy { tokens } => (balance - tokens) as nat,
        LedgerOp::WithdrawAll { .. } => 0,
    }
}

/// The balance after `ops`, in order, from `start`.
pub open spec fn run_balance(start: nat, ops: Seq<LedgerOp>) -> nat
    decreases ops.len(),
{
    if ops.len() == 0 {
        start
    } else {
        apply_op(run_balance(start, ops.drop_last()), ops.last())
    }
}

/// Each of `ops` applies to the balance that the ones before it left.
pub open spec fn run_applies(start: nat, ops: Seq<LedgerOp>) -> bool
    decreases ops.len(),
{
    ops.len() == 0 || (run_applies(start, ops.drop_last()) && op_applies(
        run_balance(start, ops.drop_last()),
        ops.last(),
    ))
}

/// Units credited by the `Receive` entries of `ops`.
pub open spec fn total_received(ops: Seq<LedgerOp>) -> nat
    decreases ops.len(),
{
    if ops.len() == 0 {
        0
    } else {
        total_received(ops.drop_last()) + match ops.last() {
            LedgerOp::Receive { amount } => amount,
            _ => 0,
        }
    }
}

/// Units sold by the `Buy` entries of `ops`.
pub open spec fn total_bought(ops: Seq<LedgerOp>) -> nat
    decreases ops.len(),
{
    if ops.len() == 0 {
        0
    } else {
        total_bought(ops.drop_last()) + match ops.last() {
            LedgerOp::Buy { tokens } => tokens,
            _ => 0,
        }
    }
}

/// Units returned by the `WithdrawAll` entries of `ops`.
pub open spec fn total_withdrawn(ops: Seq<LedgerOp>) -> nat
    decreases ops.len(),
{
    if ops.len() == 0 {
        0
    } else {
        total_withdrawn(ops.drop_last()) + match ops.last() {
            LedgerOp::WithdrawAll { amount } => amount,
            _ => 0,
        }
    }
}

/// Conservation: after any run of successful commands, the escrow holds what
/// it started with plus every credit, less every unit sold and every unit
/// withdrawn; and the debits never exceed what was there to take.
pub proof fn lemma_conservation(start: nat, ops: Seq<LedgerOp>)
    requires
        run_applies(start, ops),
    ensures
        run_balance(start, ops) == start + total_received(ops) - total_bought(ops)
            - total_withdrawn(ops),
        total_bought(ops) + total_withdrawn(ops) <= start + total_received(ops),
    decreases ops.len(),
{
    if ops.len() > 0 {
        lemma_conservation(start, ops.drop_last());
    }
}

} // verus!
