//! The decisions of the serving side: which entries a listing page shows,
//! and how a static file's extension gives its content type.
use vstd::prelude::*;

verus! {

/// How many entries a listing page shows.
pub const ENTRIES_PER_PAGE: u64 = 2;

/// The content type of a static file.
#[derive(Debug, Clone, Copy, PartialEq, Eq, Structural)]
pub enum ContentType {
    Css,
    Jpeg,
    Png,
    Svg,
    Javascript,
    Wasm,
    /// Any other file: opaque bytes.
    ByteStream,
}

/// The content type that a file extension gives.
pub open spec fn content_type_spec(ext: Seq<char>) -> ContentType {
    if ext == "css"@ {
        ContentType::Css
    } else if ext == "jpeg"@ {
        ContentType::Jpeg
    } else if ext == "png"@ {
        ContentType::Png
    } else if ext == "svg"@ {
        ContentType::Svg
    } else if ext == "js"@ {
        ContentType::Javascript
    } else if ext == "wasm"@ {
        ContentType::Wasm
    } else {
        ContentType::ByteStream
    }
}

/// The content type of a static file with extension `ext`.
pub fn content_type_for(ext: &str) -> (r: ContentType)
    ensures
        r == content_type_spec(ext@),
{
    let e = ext.to_owned();
    if e == "css".to_owned() {
        ContentType::Css
    } else if e == "jpeg".to_owned() {
        ContentType::Jpeg
    } else if e == "png".to_owned() {
        ContentType::Png
    } else if e == "svg".to_owned() {
        ContentType::Svg
    } else if e == "js".to_owned() {
        ContentType::Javascript
    } else if e == "wasm".to_owned() {
        ContentType::Wasm
    } else {
        ContentType::ByteStream
    }
}

/// The content id of the first entry on listing page `page` (pages count
/// from 0); `None` where that id does not fit in a `u64`.
pub fn page_offset(page: u64) -> (r: Option<u64>)
    ensures
        r is Some <==> page * ENTRIES_PER_PAGE <= u64::MAX,
        r is Some ==> r->Some_0 == page * ENTRIES_PER_PAGE,
{
    page.checked_mul(ENTRIES_PER_PAGE)
}

} // verus!
