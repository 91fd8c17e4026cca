//! Resolution of loosely typed agent settings into validated configuration.
//!
//! A raw settings document mirrors the configuration file: every field is
//! optional and primitive. The resolvers in this crate turn such a document
//! into fully typed values and report every defect they meet, each with the
//! location of the offending field, instead of stopping at the first one.

pub mod path;
pub mod error;
pub mod text;
pub mod coerce;
pub mod address;
pub mod resolve;
pub mod signer;
pub mod index;
pub mod connection;
pub mod contracts;
pub mod chain;
pub mod settings;
pub mod checkpoint;
pub mod laws;
pub mod location;
