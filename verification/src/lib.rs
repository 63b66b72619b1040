//! Decision core of a prediction-market trading bot.
//!
//! The crate holds the rules that turn a live event feed into trades: the
//! connection life cycle of the streaming client, the cooldown cache that keeps
//! one market from being analysed twice, the parser for the oracle's answers and
//! the edge rule that sizes an order. Every rule is stated as a contract over a
//! mathematical model and proved; networking and timers live with the caller.

pub mod api;
pub mod bot;
pub mod connection;
pub mod decimal;
pub mod dedup;
pub mod evaluation;
pub mod json;
pub mod messages;
pub mod text;
pub mod trade;
pub mod units;
pub mod wire;
pub mod ws;
pub mod xai;
