//! Document handling: parsing an in-memory document through the `lopdf`
//! parser behind trusted wrappers, extracting its metadata, seeding the
//! session's document group, and the document queries the command surface
//! offers.

use vstd::prelude::*;
use crate::errors::StreamSlateError;
use crate::security::{is_pdf_path, has_pdf_extension, tail_after_slash};
use crate::session::SessionState;

verus! {

#[verifier::external_type_specification]
#[verifier::external_body]
pub struct ExDocument(lopdf::Document);

#[verifier::external_type_specification]
#[verifier::external_body]
pub struct ExLopdfError(lopdf::Error);

#[verifier::external_type_specification]
#[verifier::external_body]
pub struct ExDictionary(lopdf::Dictionary);

/// Information about an opened document.
#[derive(Clone, Debug)]
pub struct PdfInfo {
    pub path: String,
    pub title: Option<String>,
    pub author: Option<String>,
    pub page_count: u32,
    pub file_size: u64,
    pub created: Option<String>,
    pub modified: Option<String>,
}

/// The cached parsed document, kept for page operations while a document
/// is open.
pub struct DocumentStore {
    pub doc: Option<lopdf::Document>,
}

impl DocumentStore {
    /// An empty slot.
    pub fn new() -> (s: Self)
        ensures
            s.doc is None,
    {
        DocumentStore { doc: None }
    }

    /// Cache a parsed document; exactly the one handed in is kept.
    pub fn set(&mut self, doc: lopdf::Document)
        ensures
            final(self).doc == Some(doc),
    {
        self.doc = Some(doc);
    }

    /// The cached document, if one is open.
    pub fn get(&self) -> (r: Option<&lopdf::Document>)
        ensures
            r is Some <==> self.doc is Some,
            (r matches Some(d) ==> (self.doc matches Some(cached) && *d == cached)),
    {
        match &self.doc {
            Some(d) => Some(d),
            None => None,
        }
    }

    /// Drop the cached document.
    pub fn clear(&mut self)
        ensures
            final(self).doc is None,
    {
        self.doc = None;
    }
}

/// The page count the parser reads out of a byte sequence: nothing when
/// the bytes do not parse as a document, else the number of pages of the
/// parsed page tree. The parser is built without its optional parallel
/// parsing (the crate is depended on with default features off), so
/// parsing is sequential and its result a deterministic function of the
/// bytes alone, which makes this name well defined; what the count is on
/// given bytes only the parser says.
pub uninterp spec fn parsed_pages(bytes: Seq<u8>) -> Option<nat>;

/// Relies on lopdf::Document::load_mem and lopdf::Document::get_pages,
/// with the crate's parallel-parsing feature off so the parse is
/// deterministic: parsing succeeds exactly when the bytes parse as a
/// document, and the page table then has one entry per page of the
/// parsed page tree.
#[verifier::external_body]
fn parse_document_pages(bytes: &[u8]) -> (r: Result<(lopdf::Document, Vec<u32>), lopdf::Error>)
    ensures
        r is Ok <==> parsed_pages(bytes@) is Some,
        (r matches Ok(p) ==> parsed_pages(bytes@) == Some(p.1@.len() as nat)),
{
    match lopdf::Document::load_mem(bytes) {
        Ok(doc) => {
            let pages = doc.get_pages().into_keys().collect();
            Ok((doc, pages))
        },
        Err(e) => Err(e),
    }
}

/// Relies on lopdf::Error's Display rendering for diagnostics text.
#[verifier::external_body]
fn parse_error_text(e: &lopdf::Error) -> String {
    e.to_string()
}

/// Relies on lopdf::Document::trailer and lopdf::Dictionary::get: the
/// object reference the trailer holds under the given key, if any.
#[verifier::external_body]
fn trailer_reference(doc: &lopdf::Document, key: &str) -> Option<(u32, u16)> {
    match doc.trailer.get(key.as_bytes()) {
        Ok(lopdf::Object::Reference(id)) => Some(*id),
        _ => None,
    }
}

/// Relies on lopdf::Document::get_object: the object with the given id,
/// when it is a dictionary.
#[verifier::external_body]
fn object_dictionary<'a>(doc: &'a lopdf::Document, id: (u32, u16)) -> Option<
    &'a lopdf::Dictionary,
> {
    match doc.get_object(id) {
        Ok(lopdf::Object::Dictionary(d)) => Some(d),
        _ => None,
    }
}

/// Relies on lopdf::Dictionary::get: the literal string object under the
/// given key, decoded as UTF-8, when both hold.
#[verifier::external_body]
fn dictionary_string(dict: &lopdf::Dictionary, key: &str) -> Option<String> {
    match dict.get(key.as_bytes()) {
        Ok(lopdf::Object::String(bytes, _)) => String::from_utf8(bytes.clone()).ok(),
        _ => None,
    }
}

/// The title and author recorded in the document's information
/// dictionary, where the document has one and the entries decode.
fn extract_pdf_metadata(doc: &lopdf::Document) -> (Option<String>, Option<String>) {
    let info_ref = match trailer_reference(doc, "Info") {
        Some(id) => id,
        None => {
            return (None, None);
        },
    };
    let info = match object_dictionary(doc, info_ref) {
        Some(d) => d,
        None => {
            return (None, None);
        },
    };
    (dictionary_string(info, "Title"), dictionary_string(info, "Author"))
}

/// Where scanning a file name down from position `k` finds the cut for
/// its extension: the position of the last dot at index 1 or later, or
/// the whole length when there is none.
pub open spec fn stem_cut(s: Seq<char>, k: int) -> int
    decreases k,
{
    if k <= 1 {
        s.len() as int
    } else if s[k - 1] == '.' {
        k - 1
    } else {
        stem_cut(s, k - 1)
    }
}

/// The file name of a path without its extension: the part after the
/// last slash, cut before its last dot (a leading dot opens a hidden
/// file and is not a cut).
pub open spec fn spec_file_stem(path: Seq<char>) -> Seq<char> {
    let name = tail_after_slash(path);
    name.subrange(0, stem_cut(name, name.len() as int))
}

/// The file name of a path, without its extension.
pub fn file_stem(path: &str) -> (r: String)
    ensures
        r@ == spec_file_stem(path@),
{
    let n = path.unicode_len();
    let mut start: usize = n;
    while start > 0 && path.get_char(start - 1) != '/'
        invariant
            n == path@.len(),
            0 <= start <= n,
            forall|j: int| start <= j < n ==> path@[j] != '/',
        decreases start,
    {
        start = start - 1;
    }
    proof {
        crate::security::lemma_tail_after_slash(path@, start as int);
    }
    let name = path.substring_char(start, n);
    let m = name.unicode_len();
    let mut k: usize = m;
    while k > 1 && name.get_char(k - 1) != '.'
        invariant
            m == name@.len(),
            0 <= k <= m,
            stem_cut(name@, m as int) == stem_cut(name@, k as int),
        decreases k,
    {
        k = k - 1;
    }
    let cut = if k > 1 {
        k - 1
    } else {
        m
    };
    proof {
        assert(cut as int == stem_cut(name@, m as int));
    }
    let stem = name.substring_char(0, cut);
    stem.to_owned()
}

/// Open a document handed over as raw bytes: check the path's extension,
/// parse the bytes, refuse a pageless document, then seed the document
/// group — cursor on page 1, zoom kept — and cache the parsed document.
/// A document path whose bytes parse to a representable positive page
/// count always opens. On any refusal the session and the cache are left
/// exactly as they were. The returned information falls back to the file
/// stem where the document names no title.
pub fn open_document(
    state: &mut SessionState,
    docs: &mut DocumentStore,
    path: String,
    bytes: &[u8],
    file_size: u64,
    modified: Option<String>,
) -> (r: Result<PdfInfo, StreamSlateError>)
    requires
        old(state).wf(),
    ensures
        final(state).wf(),
        !is_pdf_path(path@) ==> (r matches Err(e) && e is InvalidPdf) && *final(state) == *old(
            state,
        ) && final(docs).doc == old(docs).doc,
        r is Err ==> *final(state) == *old(state) && final(docs).doc == old(docs).doc,
        is_pdf_path(path@) && parsed_pages(bytes@) is None ==> (r matches Err(e) && e
            is InvalidPdf),
        (parsed_pages(bytes@) matches Some(n) ==> {
            &&& is_pdf_path(path@) && !(1 <= n <= 0xffff_ffff) ==> (r matches Err(e) && e
                is InvalidPdf)
            &&& is_pdf_path(path@) && 1 <= n <= 0xffff_ffff ==> r is Ok
                && final(state).pdf.total_pages == n
        }),
        (r matches Ok(info) ==> {
            &&& final(state).pdf.is_loaded
            &&& final(state).pdf.current_page == 1
            &&& final(state).pdf.total_pages == info.page_count
            &&& info.page_count >= 1
            &&& (final(state).pdf.current_file matches Some(p) && p@ == path@)
            &&& final(state).pdf.zoom_hundredths == old(state).pdf.zoom_hundredths
            &&& final(state).presenter == old(state).presenter
            &&& final(state).websocket == old(state).websocket
            &&& final(state).integration == old(state).integration
            &&& final(state).annotations == old(state).annotations
            &&& final(state).capture == old(state).capture
            &&& final(docs).doc is Some
            &&& info.path@ == path@
            &&& info.file_size == file_size
            &&& info.modified == modified
            &&& info.created is None
            &&& info.title is Some
        }),
{
    if !has_pdf_extension(path.as_str()) {
        return Err(StreamSlateError::InvalidPdf(
            "File does not have .pdf extension".to_owned(),
        ));
    }
    let (document, pages) = match parse_document_pages(bytes) {
        Ok(p) => p,
        Err(e) => {
            let mut msg = "Failed to parse PDF: ".to_owned();
            msg.append(parse_error_text(&e).as_str());
            return Err(StreamSlateError::InvalidPdf(msg));
        },
    };
    if pages.len() == 0 {
        return Err(StreamSlateError::InvalidPdf("PDF has no pages".to_owned()));
    }
    if pages.len() > u32::MAX as usize {
        return Err(StreamSlateError::InvalidPdf("PDF page count is out of range".to_owned()));
    }
    let page_count: u32 = pages.len() as u32;
    let (title, author) = extract_pdf_metadata(&document);
    let title = match title {
        Some(t) => Some(t),
        None => Some(file_stem(path.as_str())),
    };
    docs.set(document);
    state.apply_document_opened(path.clone(), page_count);
    Ok(PdfInfo { path, title, author, page_count, file_size, created: None, modified })
}

/// Close the open document: drop the cached parse and reset the document
/// group — no pages, cursor back on 1, zoom kept.
pub fn close_document(state: &mut SessionState, docs: &mut DocumentStore)
    requires
        old(state).wf(),
    ensures
        final(state).wf(),
        final(docs).doc is None,
        final(state).pdf.current_file is None,
        final(state).pdf.current_page == 1,
        final(state).pdf.total_pages == 0,
        !final(state).pdf.is_loaded,
        final(state).pdf.zoom_hundredths == old(state).pdf.zoom_hundredths,
        final(state).presenter == old(state).presenter,
        final(state).websocket == old(state).websocket,
        final(state).integration == old(state).integration,
        final(state).annotations == old(state).annotations,
        final(state).capture == old(state).capture,
{
    docs.clear();
    state.apply_document_closed();
}

/// The open document's page count; asking with no document open is
/// refused.
pub fn get_pdf_page_count(state: &SessionState) -> (r: Result<u32, StreamSlateError>)
    ensures
        state.pdf.is_loaded ==> r == Ok::<u32, StreamSlateError>(state.pdf.total_pages),
        !state.pdf.is_loaded ==> (r matches Err(e) && e is InvalidPdf),
{
    if !state.pdf.is_loaded {
        return Err(StreamSlateError::InvalidPdf(
            "No PDF document is currently open".to_owned(),
        ));
    }
    Ok(state.pdf.total_pages)
}

/// Whether a document is open.
pub fn is_pdf_open(state: &SessionState) -> (r: bool)
    ensures
        r == state.pdf.is_loaded,
{
    state.pdf.is_loaded
}

} // verus!
