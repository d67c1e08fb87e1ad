//! The authoritative session-state store: document, presenter, connection
//! and integration field groups, plus the annotation store and the capture
//! pipeline. The store is owned by the process and read or mutated only
//! through these accessors; each field group can be synchronized on its
//! own by the embedding program.

use vstd::prelude::*;
use crate::annotations::AnnotationStore;
use crate::capture::CapturePipeline;
use crate::{MAX_ZOOM_HUNDREDTHS, MIN_ZOOM_HUNDREDTHS};

verus! {

/// The document field group. The zoom factor is stored in hundredths.
pub struct PdfState {
    pub current_file: Option<String>,
    pub current_page: u32,
    pub total_pages: u32,
    pub zoom_hundredths: u32,
    pub is_loaded: bool,
}

impl PdfState {
    /// The document invariant: a loaded document's page cursor is a valid
    /// 1-based index; with no document loaded there are no pages and the
    /// cursor rests on 1. The zoom factor always sits in its domain.
    pub open spec fn wf(&self) -> bool {
        &&& MIN_ZOOM_HUNDREDTHS <= self.zoom_hundredths <= MAX_ZOOM_HUNDREDTHS
        &&& self.is_loaded ==> 1 <= self.current_page <= self.total_pages
        &&& !self.is_loaded ==> self.total_pages == 0 && self.current_page == 1
    }
}

impl Clone for PdfState {
    fn clone(&self) -> (r: Self)
        ensures
            r == *self,
    {
        PdfState {
            current_file: match &self.current_file {
                Some(p) => Some(p.clone()),
                None => None,
            },
            current_page: self.current_page,
            total_pages: self.total_pages,
            zoom_hundredths: self.zoom_hundredths,
            is_loaded: self.is_loaded,
        }
    }
}

impl Default for PdfState {
    /// No document, cursor on 1, zoom at 1.00.
    fn default() -> (s: Self)
        ensures
            s.current_file is None,
            s.current_page == 1,
            s.total_pages == 0,
            s.zoom_hundredths == 100,
            !s.is_loaded,
            s.wf(),
    {
        PdfState {
            current_file: None,
            current_page: 1,
            total_pages: 0,
            zoom_hundredths: 100,
            is_loaded: false,
        }
    }
}

/// Where the presenter window sits.
#[derive(Clone, Copy, Debug, PartialEq, Eq, Structural)]
pub struct WindowPosition {
    pub x: i32,
    pub y: i32,
}

/// How large the presenter window is.
#[derive(Clone, Copy, Debug, PartialEq, Eq, Structural)]
pub struct WindowSize {
    pub width: u32,
    pub height: u32,
}

/// Visual configuration of the presenter window.
#[derive(Clone, Copy, Debug, PartialEq, Eq, Structural)]
pub struct PresenterConfig {
    pub always_on_top: bool,
    pub transparent_background: bool,
    pub borderless: bool,
    pub position: WindowPosition,
    pub size: WindowSize,
}

impl Default for PresenterConfig {
    fn default() -> (c: Self)
        ensures
            c.always_on_top,
            c.transparent_background,
            c.borderless,
            c.position == (WindowPosition { x: 100, y: 100 }),
            c.size == (WindowSize { width: 800, height: 600 }),
    {
        PresenterConfig {
            always_on_top: true,
            transparent_background: true,
            borderless: true,
            position: WindowPosition { x: 100, y: 100 },
            size: WindowSize { width: 800, height: 600 },
        }
    }
}

/// The presenter field group.
pub struct PresenterState {
    pub is_active: bool,
    pub window_id: Option<String>,
    pub config: PresenterConfig,
}

impl Clone for PresenterState {
    fn clone(&self) -> (r: Self)
        ensures
            r == *self,
    {
        PresenterState {
            is_active: self.is_active,
            window_id: match &self.window_id {
                Some(w) => Some(w.clone()),
                None => None,
            },
            config: self.config,
        }
    }
}

impl Default for PresenterState {
    fn default() -> (s: Self)
        ensures
            !s.is_active,
            s.window_id is None,
            s.config == PresenterConfig::spec_default(),
    {
        PresenterState { is_active: false, window_id: None, config: PresenterConfig::default() }
    }
}

impl PresenterConfig {
    /// The configuration a fresh presenter window starts with.
    pub open spec fn spec_default() -> PresenterConfig {
        PresenterConfig {
            always_on_top: true,
            transparent_background: true,
            borderless: true,
            position: WindowPosition { x: 100, y: 100 },
            size: WindowSize { width: 800, height: 600 },
        }
    }
}

/// The default port the listening endpoint binds to.
pub const DEFAULT_PORT: u16 = 11451;

/// The connection field group: listener liveness and connection count.
#[derive(Clone, Copy, Debug, PartialEq, Eq, Structural)]
pub struct WebSocketState {
    pub is_connected: bool,
    pub port: u16,
    pub active_connections: u32,
}

impl Default for WebSocketState {
    fn default() -> (s: Self)
        ensures
            !s.is_connected,
            s.port == DEFAULT_PORT,
            s.active_connections == 0,
    {
        WebSocketState { is_connected: false, port: DEFAULT_PORT, active_connections: 0 }
    }
}

/// The integration field group: which external collaborators are attached.
#[derive(Clone, Copy, Debug, PartialEq, Eq, Structural)]
pub struct IntegrationState {
    pub obs_connected: bool,
    pub stream_deck_connected: bool,
    pub ndi_enabled: bool,
}

impl Default for IntegrationState {
    fn default() -> (s: Self)
        ensures
            !s.obs_connected,
            !s.stream_deck_connected,
            !s.ndi_enabled,
    {
        IntegrationState { obs_connected: false, stream_deck_connected: false, ndi_enabled: false }
    }
}

/// A 32-bit counter that sticks at its ceiling instead of wrapping.
pub open spec fn inc32(x: u32) -> u32 {
    if x == u32::MAX {
        x
    } else {
        (x + 1) as u32
    }
}

/// The whole session: every field group plus the annotation store and the
/// capture pipeline. No component holds a private copy of any of this.
pub struct SessionState {
    pub pdf: PdfState,
    pub presenter: PresenterState,
    pub websocket: WebSocketState,
    pub integration: IntegrationState,
    pub annotations: AnnotationStore,
    pub capture: CapturePipeline,
}

impl SessionState {
    /// The session invariant: the document group and the capture pipeline
    /// each keep their own invariant.
    pub open spec fn wf(&self) -> bool {
        &&& self.pdf.wf()
        &&& self.capture.wf()
    }

    /// A fresh session: nothing loaded, nothing connected, nothing
    /// captured, no annotations.
    pub fn new(ndi_available: bool, syphon_available: bool) -> (s: Self)
        ensures
            s.wf(),
            !s.pdf.is_loaded,
            s.pdf.current_file is None,
            s.pdf.current_page == 1,
            s.pdf.total_pages == 0,
            s.pdf.zoom_hundredths == 100,
            !s.presenter.is_active,
            !s.websocket.is_connected,
            s.websocket.port == DEFAULT_PORT,
            s.websocket.active_connections == 0,
            !s.capture.running,
            s.capture.ndi_available == ndi_available,
            s.capture.syphon_available == syphon_available,
            forall|p: u32| s.annotations.page_seq(p) == Seq::<String>::empty(),
    {
        SessionState {
            pdf: PdfState::default(),
            presenter: PresenterState::default(),
            websocket: WebSocketState::default(),
            integration: IntegrationState::default(),
            annotations: AnnotationStore::new(),
            capture: CapturePipeline::new(ndi_available, syphon_available),
        }
    }

    /// A snapshot of the document group.
    pub fn get_pdf_state(&self) -> (r: PdfState)
        ensures
            r == self.pdf,
    {
        self.pdf.clone()
    }

    /// A snapshot of the presenter group.
    pub fn get_presenter_state(&self) -> (r: PresenterState)
        ensures
            r == self.presenter,
    {
        self.presenter.clone()
    }

    /// A snapshot of the connection group.
    pub fn get_websocket_state(&self) -> (r: WebSocketState)
        ensures
            r == self.websocket,
    {
        self.websocket
    }

    /// A snapshot of the integration group.
    pub fn get_integration_state(&self) -> (r: IntegrationState)
        ensures
            r == self.integration,
    {
        self.integration
    }

    /// Record that a document with `page_count` pages was opened at
    /// `path`: the cursor returns to page 1 and the zoom is kept.
    pub fn apply_document_opened(&mut self, path: String, page_count: u32)
        requires
            old(self).wf(),
            page_count >= 1,
        ensures
            final(self).wf(),
            final(self).pdf.current_file == Some(path),
            final(self).pdf.current_page == 1,
            final(self).pdf.total_pages == page_count,
            final(self).pdf.is_loaded,
            final(self).pdf.zoom_hundredths == old(self).pdf.zoom_hundredths,
            final(self).presenter == old(self).presenter,
            final(self).websocket == old(self).websocket,
            final(self).integration == old(self).integration,
            final(self).annotations == old(self).annotations,
            final(self).capture == old(self).capture,
    {
        self.pdf.current_file = Some(path);
        self.pdf.current_page = 1;
        self.pdf.total_pages = page_count;
        self.pdf.is_loaded = true;
    }

    /// Record that the open document was closed: no pages, cursor back on
    /// 1, zoom kept.
    pub fn apply_document_closed(&mut self)
        requires
            old(self).wf(),
        ensures
            final(self).wf(),
            final(self).pdf.current_file is None,
            final(self).pdf.current_page == 1,
            final(self).pdf.total_pages == 0,
            !final(self).pdf.is_loaded,
            final(self).pdf.zoom_hundredths == old(self).pdf.zoom_hundredths,
            final(self).presenter == old(self).presenter,
            final(self).websocket == old(self).websocket,
            final(self).integration == old(self).integration,
            final(self).annotations == old(self).annotations,
            final(self).capture == old(self).capture,
    {
        self.pdf.current_file = None;
        self.pdf.current_page = 1;
        self.pdf.total_pages = 0;
        self.pdf.is_loaded = false;
    }

    /// Record that the listening endpoint came up on the given port.
    pub fn listener_started(&mut self, port: u16)
        requires
            old(self).wf(),
        ensures
            final(self).wf(),
            final(self).websocket.is_connected,
            final(self).websocket.port == port,
            final(self).websocket.active_connections == old(self).websocket.active_connections,
            final(self).pdf == old(self).pdf,
            final(self).presenter == old(self).presenter,
            final(self).integration == old(self).integration,
            final(self).annotations == old(self).annotations,
            final(self).capture == old(self).capture,
    {
        self.websocket.is_connected = true;
        self.websocket.port = port;
    }

    /// Record that one connection joined.
    pub fn connection_joined(&mut self)
        requires
            old(self).wf(),
        ensures
            final(self).wf(),
            final(self).websocket.active_connections == inc32(
                old(self).websocket.active_connections,
            ),
            final(self).websocket.port == old(self).websocket.port,
            final(self).websocket.is_connected == old(self).websocket.is_connected,
            final(self).pdf == old(self).pdf,
            final(self).presenter == old(self).presenter,
            final(self).integration == old(self).integration,
            final(self).annotations == old(self).annotations,
            final(self).capture == old(self).capture,
    {
        if self.websocket.active_connections < u32::MAX {
            self.websocket.active_connections = self.websocket.active_connections + 1;
        }
    }

    /// Record that one connection left.
    pub fn connection_left(&mut self)
        requires
            old(self).wf(),
        ensures
            final(self).wf(),
            final(self).websocket.active_connections == if old(
                self,
            ).websocket.active_connections > 0 {
                (old(self).websocket.active_connections - 1) as u32
            } else {
                0u32
            },
            final(self).websocket.port == old(self).websocket.port,
            final(self).websocket.is_connected == old(self).websocket.is_connected,
            final(self).pdf == old(self).pdf,
            final(self).presenter == old(self).presenter,
            final(self).integration == old(self).integration,
            final(self).annotations == old(self).annotations,
            final(self).capture == old(self).capture,
    {
        if self.websocket.active_connections > 0 {
            self.websocket.active_connections = self.websocket.active_connections - 1;
        }
    }
}

} // verus!
