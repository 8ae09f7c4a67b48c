//! Decoding and rendering of transaction-rejection payloads.
//!
//! A node that refuses a submitted transaction answers with a compact
//! binary payload describing which ledger rules failed.  This crate walks
//! that payload, rebuilds the tree of failure values, and renders the tree
//! both as the reference implementation's `Show` text and as the JSON
//! envelope of the submission API.

pub mod cbor;
pub mod err;
pub mod hashing;
pub mod codec;
pub mod json;
pub mod submission;
pub mod node;
pub mod cli;
pub mod laws;
pub mod numstr;
pub mod hexstr;
pub mod haskells_show_string;
pub mod haskell_types;
pub mod haskell_display;
pub mod render_params;
pub mod render_gov;
pub mod render_outputs;
pub mod render_failures;
