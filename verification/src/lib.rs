//! A typed persistence bridge over a schemaless document store.
//!
//! The engine keeps field-map records in named collections and exposes a
//! uniform create/get/update/delete/list surface. Entity controllers
//! (`System`, `Station`) are thin facades that fix a collection name and
//! supply payload-to-field-map conversion and record marshaling; every
//! outcome can be wrapped into a response envelope safe to hand across a
//! process boundary.

pub mod decstr;
pub mod error;
pub mod filter;
pub mod ipc;
pub mod laws;
pub mod station;
pub mod store;
pub mod strutil;
pub mod system;
pub mod vals;
