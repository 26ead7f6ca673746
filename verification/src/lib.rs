//! Verified core of a document generator: an event-stream renderer for
//! typeset and hypertext markup, together with the assembly and build
//! configuration logic around it.
//!
//! Documents are described by a stream of semantic markup events (text runs,
//! container boundaries, inline markers) produced by an outside parser; the
//! renderers in this crate fold such a stream into target-format source text
//! with exact, proved output specifications.

use vstd::prelude::*;

pub mod adapter;
pub mod author;
pub mod builder;
pub mod chapter;
pub mod config;
pub mod date;
pub mod document;
pub mod event;
pub mod manifest;
pub mod pandoc;
pub mod structure;
pub mod html;
pub mod latex;
pub mod utils;

verus! {

pub use crate::author::Author;
pub use crate::builder::Builder;
pub use crate::chapter::Chapter;
pub use crate::date::Date;
pub use crate::document::Document;
pub use crate::document::DocumentType;
pub use crate::utils::kebab;

} // verus!
