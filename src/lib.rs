//! Core of a home-network dashboard: the feed snapshot model and cache, and
//! the two reconciliation cycles (device liveness sweep, feed refresh) written
//! as verified state machines that a runtime drives.

pub mod common;
pub mod monitor;
pub mod cache;
pub mod feed;
pub mod schema;
pub mod wake;
