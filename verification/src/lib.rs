//! Game outcomes for the spin and wheel games, and the rules by which winning
//! outcomes are recorded in a Notion database: at most a configured number of
//! records per identity key and day.
//!
//! The library decides; it does not talk to the network. Every exchange with
//! the database is handed to the caller as a [`repository::StoreRequest`], and
//! the caller hands back a [`repository::StoreReply`].

pub mod clock;
pub mod config;
pub mod decimal;
pub mod handlers;
pub mod models;
pub mod notion;
pub mod origins;
pub mod page_id;
pub mod random;
pub mod repository;
pub mod spin;
pub mod wheel;
