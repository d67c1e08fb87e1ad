//! The integration message vocabulary: the typed messages exchanged with
//! external integrations, with their payload shapes. Identifiers and
//! timestamps are minted by the embedding program and handed in as plain
//! strings; payloads travel as opaque serialized records.

use vstd::prelude::*;

verus! {

/// Types of messages that can be exchanged.
#[derive(Clone, Copy, Debug, PartialEq, Eq, Structural)]
pub enum IntegrationMessageType {
    PdfOpened,
    PdfClosed,
    PageChanged,
    AnnotationAdded,
    AnnotationRemoved,
    PresenterModeToggled,
    PresenterConfigChanged,
    ObsSceneChanged,
    ObsSourceVisibilityChanged,
    ObsRecordingStarted,
    ObsRecordingStopped,
    ObsStreamingStarted,
    ObsStreamingStopped,
    StreamDeckButtonPressed,
    StreamDeckDialRotated,
    NdiSourceFound,
    NdiSourceLost,
    CommandNextPage,
    CommandPreviousPage,
    CommandGoToPage,
    CommandTogglePresenter,
    CommandAddAnnotation,
    Ping,
    Pong,
    Error,
    ConnectionStatus,
}

/// Where a message originated.
#[derive(Clone, Copy, Debug, PartialEq, Eq, Structural)]
pub enum IntegrationSource {
    Streamslate,
    Obs,
    StreamDeck,
    Ndi,
    ExternalApi,
}

/// A message exchanged with an integration.
#[derive(Debug)]
pub struct IntegrationMessage {
    pub id: String,
    pub message_type: IntegrationMessageType,
    pub source: IntegrationSource,
    pub timestamp: String,
    pub data: String,
}

impl IntegrationMessage {
    /// A message originating here, under a minted identifier and
    /// timestamp.
    pub fn new(
        message_type: IntegrationMessageType,
        data: String,
        id: String,
        timestamp: String,
    ) -> (r: Self)
        ensures
            r.message_type == message_type,
            r.source == IntegrationSource::Streamslate,
            r.data == data,
            r.id == id,
            r.timestamp == timestamp,
    {
        IntegrationMessage {
            id,
            message_type,
            source: IntegrationSource::Streamslate,
            timestamp,
            data,
        }
    }

    /// The reply to a ping: a pong with an empty payload.
    pub fn pong(id: String, timestamp: String) -> (r: Self)
        ensures
            r.message_type == IntegrationMessageType::Pong,
            r.source == IntegrationSource::Streamslate,
            r.data@ == "{}"@,
            r.id == id,
            r.timestamp == timestamp,
    {
        Self::new(IntegrationMessageType::Pong, "{}".to_owned(), id, timestamp)
    }
}

/// Payload of a page-change message.
#[derive(Clone, Copy, Debug, PartialEq, Eq, Structural)]
pub struct PageChangedData {
    pub page: u32,
    pub total_pages: u32,
}

/// Payload of a document-opened message.
#[derive(Clone, Debug)]
pub struct PdfOpenedData {
    pub path: String,
    pub title: Option<String>,
    pub page_count: u32,
}

/// Payload of an explicit page-navigation command.
#[derive(Clone, Copy, Debug, PartialEq, Eq, Structural)]
pub struct GoToPageData {
    pub page: u32,
}

/// Payload of a presenter-mode message.
#[derive(Clone, Copy, Debug, PartialEq, Eq, Structural)]
pub struct PresenterModeData {
    pub active: bool,
}

} // verus!
