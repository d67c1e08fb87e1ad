//! Document handling: opening from bytes through the parser, closing,
//! page queries, the annotation sidecar path, and the capture-target
//! selection rules.

use streamslate::annotations::get_annotations_path;
use streamslate::messages::{IntegrationMessage, IntegrationMessageType, IntegrationSource};
use streamslate::capture::{is_capture_source_window, is_listable_window};
use streamslate::errors::StreamSlateError;
use streamslate::pdf::{
    close_document, file_stem, get_pdf_page_count, is_pdf_open, open_document, DocumentStore,
    PdfInfo,
};
use streamslate::session::SessionState;

/// A one-page document produced by the same parser library the crate
/// reads with.
fn minimal_pdf_bytes(title: Option<&str>) -> Vec<u8> {
    let mut doc = lopdf::Document::with_version("1.5");
    let pages_id = doc.new_object_id();
    let mut page = lopdf::Dictionary::new();
    page.set("Type", lopdf::Object::Name(b"Page".to_vec()));
    page.set("Parent", lopdf::Object::Reference(pages_id));
    let page_id = doc.add_object(lopdf::Object::Dictionary(page));
    let mut pages = lopdf::Dictionary::new();
    pages.set("Type", lopdf::Object::Name(b"Pages".to_vec()));
    pages.set("Kids", lopdf::Object::Array(vec![lopdf::Object::Reference(page_id)]));
    pages.set("Count", lopdf::Object::Integer(1));
    doc.objects.insert(pages_id, lopdf::Object::Dictionary(pages));
    let mut catalog = lopdf::Dictionary::new();
    catalog.set("Type", lopdf::Object::Name(b"Catalog".to_vec()));
    catalog.set("Pages", lopdf::Object::Reference(pages_id));
    let catalog_id = doc.add_object(lopdf::Object::Dictionary(catalog));
    doc.trailer.set("Root", lopdf::Object::Reference(catalog_id));
    if let Some(t) = title {
        let mut info = lopdf::Dictionary::new();
        info.set(
            "Title",
            lopdf::Object::String(t.as_bytes().to_vec(), lopdf::StringFormat::Literal),
        );
        let info_id = doc.add_object(lopdf::Object::Dictionary(info));
        doc.trailer.set("Info", lopdf::Object::Reference(info_id));
    }
    let mut bytes: Vec<u8> = Vec::new();
    doc.save_to(&mut bytes).expect("serializing the test document");
    bytes
}

#[test]
fn open_document_loads_and_seeds_the_session() {
    let mut state = SessionState::new(false, false);
    let mut docs = DocumentStore::new();
    let bytes = minimal_pdf_bytes(Some("My Deck"));
    let info: PdfInfo = open_document(
        &mut state,
        &mut docs,
        String::from("/tmp/deck.pdf"),
        &bytes,
        bytes.len() as u64,
        Some(String::from("1234567890")),
    )
    .expect("a valid one-page document opens");
    assert_eq!(info.page_count, 1);
    assert_eq!(info.path, "/tmp/deck.pdf");
    assert_eq!(info.title.as_deref(), Some("My Deck"));
    assert_eq!(info.modified.as_deref(), Some("1234567890"));
    assert!(state.pdf.is_loaded);
    assert_eq!(state.pdf.current_page, 1);
    assert_eq!(state.pdf.total_pages, 1);
    assert!(is_pdf_open(&state));
    assert!(matches!(get_pdf_page_count(&state), Ok(1)));
    assert!(docs.get().is_some());
}

#[test]
fn open_document_falls_back_to_the_file_stem() {
    let mut state = SessionState::new(false, false);
    let mut docs = DocumentStore::new();
    let bytes = minimal_pdf_bytes(None);
    let info = open_document(
        &mut state,
        &mut docs,
        String::from("/talks/spring/slides.pdf"),
        &bytes,
        bytes.len() as u64,
        None,
    )
    .expect("a valid one-page document opens");
    assert_eq!(info.title.as_deref(), Some("slides"));
    assert_eq!(info.author, None);
}

#[test]
fn open_document_refuses_a_wrong_extension() {
    let mut state = SessionState::new(false, false);
    let mut docs = DocumentStore::new();
    let r = open_document(
        &mut state,
        &mut docs,
        String::from("/tmp/deck.txt"),
        b"whatever",
        8,
        None,
    );
    assert!(matches!(r, Err(StreamSlateError::InvalidPdf(_))));
    assert!(!state.pdf.is_loaded);
    assert!(docs.get().is_none());
}

#[test]
fn open_document_refuses_unparseable_bytes() {
    let mut state = SessionState::new(false, false);
    let mut docs = DocumentStore::new();
    let r = open_document(
        &mut state,
        &mut docs,
        String::from("/tmp/deck.pdf"),
        b"this is not a document",
        22,
        None,
    );
    assert!(matches!(r, Err(StreamSlateError::InvalidPdf(_))));
    assert!(!state.pdf.is_loaded);
    assert!(!is_pdf_open(&state));
    assert!(matches!(get_pdf_page_count(&state), Err(StreamSlateError::InvalidPdf(_))));
}

#[test]
fn close_document_resets_the_document_group() {
    let mut state = SessionState::new(false, false);
    let mut docs = DocumentStore::new();
    let bytes = minimal_pdf_bytes(None);
    open_document(
        &mut state,
        &mut docs,
        String::from("/tmp/deck.pdf"),
        &bytes,
        bytes.len() as u64,
        None,
    )
    .expect("a valid one-page document opens");
    close_document(&mut state, &mut docs);
    assert!(!state.pdf.is_loaded);
    assert_eq!(state.pdf.current_page, 1);
    assert_eq!(state.pdf.total_pages, 0);
    assert_eq!(state.pdf.current_file, None);
    assert!(docs.get().is_none());
}

#[test]
fn annotations_sidecar_path_appends_the_suffix() {
    assert_eq!(
        get_annotations_path("document.pdf"),
        "document.pdf.annotations.json"
    );
    assert_eq!(
        get_annotations_path("/a/b/deck.pdf"),
        "/a/b/deck.pdf.annotations.json"
    );
}

#[test]
fn file_stem_strips_directory_and_extension() {
    assert_eq!(file_stem("/a/b/deck.pdf"), "deck");
    assert_eq!(file_stem("deck.pdf"), "deck");
    assert_eq!(file_stem("archive.tar.gz"), "archive.tar");
    assert_eq!(file_stem("noext"), "noext");
    assert_eq!(file_stem("/a/b/.hidden"), ".hidden");
}

#[test]
fn annotation_store_reports_emptiness() {
    let mut state = SessionState::new(false, false);
    assert!(state.annotations.is_empty());
    state.annotations.add(5, String::from("note"));
    assert!(!state.annotations.is_empty());
    state.annotations.clear();
    assert!(state.annotations.is_empty());
}

#[test]
fn zoom_clamp_is_exact_at_the_edges() {
    assert_eq!(streamslate::clamp_zoom(9), 10);
    assert_eq!(streamslate::clamp_zoom(10), 10);
    assert_eq!(streamslate::clamp_zoom(500), 500);
    assert_eq!(streamslate::clamp_zoom(501), 500);
    assert_eq!(streamslate::clamp_zoom(i64::MIN), 10);
    assert_eq!(streamslate::clamp_zoom(i64::MAX), 500);
}

#[test]
fn integration_messages_carry_their_minted_fields() {
    let m = IntegrationMessage::new(
        IntegrationMessageType::PageChanged,
        String::from("{\"page\":2}"),
        String::from("id-1"),
        String::from("2025-01-01T00:00:00Z"),
    );
    assert_eq!(m.message_type, IntegrationMessageType::PageChanged);
    assert_eq!(m.source, IntegrationSource::Streamslate);
    assert_eq!(m.id, "id-1");
    let p = IntegrationMessage::pong(String::from("id-2"), String::from("t"));
    assert_eq!(p.message_type, IntegrationMessageType::Pong);
    assert_eq!(p.data, "{}");
}

#[test]
fn window_listing_skips_the_window_server_and_untitled_windows() {
    assert!(is_listable_window("SomeApp", "A window"));
    assert!(!is_listable_window("Window Server", "Desktop"));
    assert!(!is_listable_window("SomeApp", ""));
}

#[test]
fn capture_source_window_selection() {
    assert!(is_capture_source_window("StreamSlate", "Main deck"));
    assert!(is_capture_source_window("com.streamslate.app", "Main deck"));
    assert!(!is_capture_source_window("StreamSlate", "Presenter view"));
    assert!(!is_capture_source_window("StreamSlate", "PRESENTER"));
    assert!(!is_capture_source_window("Other App", "Main deck"));
}
