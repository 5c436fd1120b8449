//! Device activity store: hour-bucketed, categorized usage events per device,
//! the categorization rulesets they refer to, and the users and devices that
//! own them.
//!
//! The library decides and computes; reading and writing the relational store
//! is left to the caller, who hands rows in and takes rows out.
pub mod activity;
pub mod codec;
pub mod error;
pub mod laws;
pub mod model;
pub mod routes;
pub mod ruleset;
pub mod seed;
pub mod session;
pub mod time;
pub mod users;
