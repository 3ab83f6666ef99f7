//! Typed builders for the blocks of a chat platform's rich messages, and for
//! the payloads of the methods that send them.
//!
//! Every block kind has a builder that holds the block to the platform's
//! structural rules before it yields a [`blocks::Block`], and every value
//! has a JSON wire shape. Both are stated as contracts over a mathematical
//! model of JSON documents, and proved.
//!
//! - [`json`] holds the model and the boundary to `serde_json`.
//! - [`encode`] writes values as JSON.
//! - [`strings`] holds what the rules ask of strings.
//! - [`blocks`] holds texts, rich text, elements and blocks.
//! - [`api`] holds the payloads of the web API, and [`client`] the requests
//!   that carry them.

use vstd::prelude::*;

pub mod api;
pub mod blocks;
pub mod client;
pub mod encode;
pub mod json;
pub mod strings;

verus! {

/// The base URL of the platform's web API.
pub const DEFAULT_BASE_URL: &'static str = "https://slack.com/api";

} // verus!
