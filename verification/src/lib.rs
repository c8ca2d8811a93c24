//! Economic core of a taxed, reflecting fungible token.
//!
//! Two machines make it up. The token's tax engine ([`token`]) moves
//! balances ([`ledger`]) against allowances ([`allowance`]), withholds the
//! tax ([`tax`], [`rate`]) for the treasury, and keeps the sets of exempt
//! addresses ([`registry`]); [`laws`] states what holds of it whatever the
//! state. The treasury ([`treasury`], [`config`]) turns what it has
//! collected into burnt supply, a routed reward and pooled liquidity
//! ([`liquify`]).
//!
//! Neither machine talks to the chain. What is to be dispatched comes back
//! as a list of messages ([`message`]), executed by the host after the
//! invocation has committed. What has to be asked of another contract or
//! of the host comes back as a question ([`step`]), and the operation is
//! resumed with the answer ([`contract`]).

pub mod allowance;
pub mod asset;
pub mod config;
pub mod contract;
pub mod error;
pub mod laws;
pub mod ledger;
pub mod liquify;
pub mod message;
pub mod msg;
pub mod rate;
pub mod registry;
pub mod step;
pub mod tax;
pub mod text;
pub mod token;
pub mod treasury;
