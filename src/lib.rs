//! A small blog engine's document pipeline: documents are split into a
//! metadata block and a body, the metadata is decoded, the body rendered, and
//! the resulting entries are indexed by slug.
use vstd::prelude::*;

pub mod entry;
pub mod decode;
pub mod frontmatter;
pub mod index;
pub mod ingest;
pub mod laws;
pub mod markdown;
pub mod routes;

pub use entry::{Entry, Preview, PreviewFilter};
pub use frontmatter::{FrontMatter, ParseError};

verus! {

} // verus!
