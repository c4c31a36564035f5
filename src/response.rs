//! What a successful command hands back to the host: outbound messages, to be
//! dispatched atomically with the new state, and key/value attributes.
use vstd::prelude::*;
use crate::encode::{decimal, transfer_json};
use crate::state::Coin;

verus! {

/// An outbound instruction to a collaborator.
#[derive(Debug)]
pub enum Message {
    /// Execute `msg`, a JSON-encoded message, on the contract at
    /// `contract_addr`, attaching no funds.
    WasmExecute { contract_addr: String, msg: Vec<u8> },
    /// Send `amount` of native currency from this sale to `to_address`.
    BankSend { to_address: String, amount: Vec<Coin> },
}

/// A key/value pair reported to off-chain observers.
#[derive(Debug)]
pub struct Attribute {
    pub key: String,
    pub value: String,
}

/// The effects of a successful command.
#[derive(Debug)]
pub struct Response {
    pub messages: Vec<Message>,
    pub attributes: Vec<Attribute>,
}

/// A response with no message and no attribute.
pub open spec fn is_empty_response(r: Response) -> bool {
    r.messages@.len() == 0 && r.attributes@.len() == 0
}

/// `m` asks the token contract `token` to transfer `amount` units to
/// `recipient`.
pub open spec fn is_token_transfer(m: Message, token: Seq<char>, recipient: Seq<char>, amount: u128) -> bool {
    m matches Message::WasmExecute { contract_addr, msg } && contract_addr@ == token && msg@
        == transfer_json(recipient, amount)
}

/// `m` forwards exactly `funds` to `to`.
pub open spec fn is_payment(m: Message, to: Seq<char>, funds: Seq<Coin>) -> bool {
    m matches Message::BankSend { to_address, amount } && to_address@ == to && amount@ == funds
}

/// `a` reports `amount`, in base ten, under the key `amount`.
pub open spec fn is_amount_attribute(a: Attribute, amount: u128) -> bool {
    a.key@ == "amount"@ && a.value@ == decimal(amount as nat)
}

impl Response {
    /// A response with no message and no attribute.
    pub fn new() -> (r: Response)
        ensures
            is_empty_response(r),
    {
        Response { messages: Vec::new(), attributes: Vec::new() }
    }
}

} // verus!
