//! The session engine and the wager ledger of a chat-platform game bot.
//!
//! The bot runs short interactive sessions: a message with buttons, a few
//! players who click them, and a deadline. This crate holds everything about
//! such a session that can be decided without sending or receiving anything:
//!
//! - [`session`] is the loop that every session shares. It is told what
//!   happened and says what is to be done next: wait, dispatch, notify,
//!   render, settle, stop.
//! - [`mines`], [`memory`], [`jokenpo`] and [`race`] are the games, each a
//!   state machine with its own rules of what is legal and when it ends.
//! - [`prompt`] and [`race::lobby`] are the gates that stand before a game of
//!   several players.
//! - [`ledger`] keeps the balances and the log of every change to them, and
//!   [`economy`] and [`clock`] decide when a periodic reward can be claimed
//!   and what it pays.
//! - [`format`], [`pagination`], [`blacklist`], [`mention`], [`help`] and
//!   [`config`] write and read the texts around all this.
//!
//! Every function states what it returns over a mathematical view of its
//! arguments, and the laws that tie the functions together stand beside them
//! as lemmas. Randomness comes in through [`random`] only, so that a session
//! can be replayed from a seed.

pub mod blacklist;
pub mod clock;
pub mod config;
pub mod constants;
pub mod economy;
pub mod format;
pub mod help;
pub mod jokenpo;
pub mod ledger;
pub mod memory;
pub mod mention;
pub mod mines;
pub mod pagination;
pub mod prompt;
pub mod race;
pub mod random;
pub mod session;
pub mod text;
