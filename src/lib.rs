//! A custodial wager: two parties stake on an outcome, a judge decides it,
//! and the stake is held in escrow until a terminal transition releases it.

pub mod book;
mod error;
pub mod guards;
mod identity;
pub mod laws;
pub mod wager;

pub use book::{
    accept_judging, accept_wager, cancel_wager, create_wager, declare_winner, refund_wager,
    Create, CreateWager, EndWager, Escrow, Payout, RefundWager, Settlement, StreamParams,
    UpdateWager, WagerBook, WagerKey,
};
pub use error::ErrorCode;
pub use identity::Pubkey;
pub use wager::Wager;
