//! A verified model of a menu-driven banking session: a fixed menu
//! catalog, an account that keeps a balance and a transaction history,
//! and the state machine that drives one interactive session.
//!
//! Money is held in cents, so every balance and amount is an exact
//! integer; the interactive front end converts user input to cents
//! before handing it to the library.

pub mod account;
pub mod machine;
pub mod menu;
pub mod text;
