//! Protocol engine for a contactless memory card used as a small ledger.
//!
//! A host talks to the card through a reader: it loads a key, authenticates
//! against a sector, and reads and writes blocks of 16 bytes. On top of
//! that the card carries a balance in one of its blocks, and a console
//! polls the reader for the card that is present and keeps a registry of
//! the cards it knows.
//!
//! This crate holds the rules of all that and does no input or output
//! itself. Whatever has to happen outside, on the wire, in the registry or
//! on the screen, is handed to a driver as a value that says what to do,
//! and what came of it is handed back in.
//!
//! - [`frame`]: the command frames, bit for bit, and the status words.
//! - [`card_operations`]: the session with a card, which decides what goes
//!   on the wire in which order, and keeps the reserved sector from being
//!   written.
//! - [`utils`]: the balance as a block, as text, and as a number.
//! - [`ledger`]: deposits and withdrawals.
//! - [`command`]: the lines of the console.
//! - [`coordinator`]: the foreground of the console, which shows each
//!   delivery once and pairs an administrative command with the card read
//!   next.
//! - [`poller`]: the background of the console, one poll for each tick.

pub mod card_operations;
pub mod command;
pub mod coordinator;
pub mod frame;
pub mod ledger;
pub mod poller;
pub mod utils;
