//! A single-owner token sale: an escrow of a fungible token that the owner
//! prices in a native currency, that buyers draw from by paying, and that the
//! owner can empty.
//!
//! The library is a state machine over plain values. Each command takes the
//! sale's [`state::State`] by `&mut`, leaves it unchanged when it fails, and on
//! success returns the outbound messages and attributes that the host must
//! dispatch together with the new state.

pub mod encode;

pub mod contract;
pub mod error;
pub mod ledger;
pub mod msg;
pub mod response;
pub mod state;
