//! The messages that a page load sends to the style sheet listener, to the
//! script listener and to the image cache, and those it gets from the
//! resource loader.
use vstd::prelude::*;

verus! {

/// A reference found in the page: the `href` or `src` text as written, and the
/// address of the document that holds it, against which it is to be resolved.
#[derive(Debug)]
pub struct UrlRef {
    pub href: String,
    pub base: String,
}

/// Where a style sheet comes from.
#[derive(Debug)]
pub enum StylesheetProvenance {
    /// A sheet to be fetched from a `<link rel="stylesheet">`.
    UrlProvenance(UrlRef),
    /// A sheet written inline in a `<style>` element: the address it is
    /// attributed to and its text.
    InlineProvenance(String, String),
}

/// A message to the style sheet listener.
#[derive(Debug)]
pub enum CSSMessage {
    CSSTaskNewFile(StylesheetProvenance),
    CSSTaskExit,
}

/// A message to the script listener.
#[derive(Debug)]
pub enum JSMessage {
    JSTaskNewFile(UrlRef),
    JSTaskExit,
}

/// A message to the image cache.
#[derive(Debug)]
pub enum ImageCacheMsg {
    /// Load this image ahead of time; nobody keeps a handle on it.
    Prefetch(UrlRef),
}

/// What the resource loader sends back for one load: a chunk of the body, or
/// the end of the load with its outcome.
#[derive(Debug)]
pub enum ProgressMsg {
    Payload(Vec<u8>),
    Done(Result<(), ()>),
}

/// The address that inline style sheets are attributed to.
pub open spec fn inline_sheet_address() -> Seq<char> {
    "http://example.com/"@
}

/// `m` asks the style sheet listener for the sheet at `href`, resolved against `base`.
pub open spec fn is_linked_sheet_request(m: CSSMessage, href: Seq<char>, base: Seq<char>) -> bool {
    m matches CSSMessage::CSSTaskNewFile(StylesheetProvenance::UrlProvenance(u))
        && u.href@ == href && u.base@ == base
}

/// `m` hands the style sheet listener the inline sheet `text`.
pub open spec fn is_inline_sheet_request(m: CSSMessage, text: Seq<char>) -> bool {
    m matches CSSMessage::CSSTaskNewFile(StylesheetProvenance::InlineProvenance(addr, data))
        && addr@ == inline_sheet_address() && data@ == text
}

/// `m` asks the script listener for the script at `href`, resolved against `base`.
pub open spec fn is_script_request(m: JSMessage, href: Seq<char>, base: Seq<char>) -> bool {
    m matches JSMessage::JSTaskNewFile(u) && u.href@ == href && u.base@ == base
}

/// `r` refers to `href`, resolved against `base`.
pub open spec fn refers_to(r: UrlRef, href: Seq<char>, base: Seq<char>) -> bool {
    r.href@ == href && r.base@ == base
}

} // verus!
