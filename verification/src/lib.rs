//! An in-memory banking session: a registry of users, the accounts opened for
//! them, deposits and withdrawals against an account owner's balance, the
//! statement that records them, and the menu through which an operator
//! drives all of it.
//!
//! Money is counted in whole cents, so every amount that is stored, compared
//! or printed is exact to two decimal places.
//!
//! - `model` describes a session as plain mathematical values and says what
//!   each operation decides and leaves behind; `laws` proves what follows.
//! - `session` holds the executable session, `console` the menu.
//! - `rules` decides on deposits and withdrawals, `statement` and `money`
//!   write what is shown, `text` and `money` read what is typed.

pub mod console;
pub mod error;
pub mod laws;
pub mod model;
pub mod money;
pub mod rules;
pub mod session;
pub mod statement;
pub mod text;

pub use console::Console;
pub use error::BankError;
pub use session::{Account, Session, User};
