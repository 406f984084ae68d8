//! Local persistence of an application's settings document.
//!
//! The settings are one structured value, [`config::AppConfig`], kept as a
//! single encoded document under a fixed key of a key/value table. This crate
//! holds the data model, the closed set of error kinds, and the decisions that
//! the save and load commands make around the table's read and write; the
//! table's model states what a sequence of such commands leaves behind.
use vstd::prelude::*;

pub mod command;
pub mod config;
pub mod error;
pub mod store;

verus! {

} // verus!
