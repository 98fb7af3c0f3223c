//! Closed variant types and exhaustive dispatch over them.
//!
//! A value of a closed variant type has exactly one tag out of a fixed set,
//! and the tag decides what data the value carries. A dispatch names a
//! branch for every tag, or names some and leaves the rest to a catch-all.
//! Each module holds one such type with the dispatches over it, and states
//! for every input which branch is taken and what it gives:
//!
//! - [`ip`]: the two kinds of internet address, bare and with the address;
//! - [`message`]: four shapes of message, one of which can be delivered;
//! - [`optional`]: a number that may be absent;
//! - [`coin`]: four coins and their worth;
//! - [`us_state`] and [`state_quarter`]: the fifty states, and coins whose
//!   quarters carry one;
//! - [`dice`]: a roll of the dice under rules with a catch-all;
//! - [`sampling`]: the random draw that the coin modules use.

pub mod coin;
pub mod dice;
pub mod ip;
pub mod message;
pub mod optional;
pub mod sampling;
pub mod state_quarter;
pub mod us_state;
