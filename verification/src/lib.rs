//! Omnipair pairs as a trading venue: account layouts, swap quotes, swap instructions.
//!
//! - `state` holds the accounts of the Omnipair program and the mathematics of a spot swap;
//!   `swap_laws` states what holds of every quote.
//! - `layout` and `encoding` say how account data hold values; `accounts` and `clock` read them.
//!   `encoding_laws` states where each field stands.
//! - `derived` has the addresses that the program derives for a pair.
//! - `model` says what a venue answers, by what it holds; `venue` is that venue: a pair that can be
//!   updated, quoted and swapped on.
//! - `venue_laws` states what holds of every venue, `update_laws` what it takes from which account,
//!   `quote_laws` how it prices a request, and `instruction_laws` what its instructions carry.

pub mod accounts;
pub mod clock;
pub mod derived;
pub mod encoding;
pub mod encoding_laws;
pub mod error;
pub mod instruction;
pub mod instruction_laws;
mod key_set;
pub mod layout;
pub mod model;
pub mod pubkey;
pub mod quote_laws;
mod reader;
pub mod state;
pub mod swap_laws;
pub mod update_laws;
pub mod venue;
pub mod venue_laws;

pub use derived::DerivedAccounts;
pub use state::{OmnipairPair, OMNIPAIR_PROGRAM_ID, SPL_TOKEN_PROGRAM_ID, TOKEN_2022_PROGRAM_ID};
pub use venue::OmnipairVenue;
