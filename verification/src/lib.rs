//! Settlement core of a plinko-style wager game.
//!
//! A bet on one of four difficulty modes resolves to one of nine weighted
//! outcome slots; the slot's rational multiplier fixes the payout, and the
//! player's balance moves by exactly `payout - bet`. This crate holds the
//! verified game logic: the outcome simulator, the request validation, the
//! in-transaction settlement decisions, and a model of the ledger protocol
//! with its invariants. Store access and transport stay outside.

pub mod game;
pub mod protocol;
pub mod service;

pub use game::GameMode;
pub use game::HOLES;
