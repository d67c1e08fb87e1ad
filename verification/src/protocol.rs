//! The command protocol: the closed vocabulary of inbound commands and
//! outbound events, the handler that turns a command into a state mutation
//! and a response event, and the rule that decides which events are worth
//! broadcasting to every connection.

use vstd::prelude::*;
use crate::session::{PdfState, PresenterState, SessionState};
use crate::{clamp_zoom, decimal_string, spec_clamp_zoom, spec_decimal};

verus! {

/// Commands clients send to the driver. Zoom factors travel in
/// hundredths; annotation payloads are opaque serialized records.
#[derive(Clone, Debug)]
pub enum WebSocketCommand {
    /// Navigate to the next page.
    NextPage,
    /// Navigate to the previous page.
    PreviousPage,
    /// Navigate to a specific page.
    GoToPage { page: u32 },
    /// Ask for the current state snapshot.
    GetState,
    /// Set the zoom factor (100 = 100%).
    SetZoom { zoom_hundredths: i64 },
    /// Toggle presenter mode.
    TogglePresenter,
    /// Keep the connection alive.
    Ping,
    /// Append an annotation record to a page.
    AddAnnotation { page: u32, annotation: String },
    /// Drop every annotation on every page.
    ClearAnnotations,
}

/// Events the driver sends to clients.
#[derive(Debug)]
pub enum WebSocketEvent {
    /// Full state snapshot.
    State {
        page: u32,
        total_pages: u32,
        zoom_hundredths: u32,
        pdf_loaded: bool,
        pdf_path: Option<String>,
        pdf_title: Option<String>,
        presenter_active: bool,
    },
    /// The page cursor moved.
    PageChanged { page: u32, total_pages: u32 },
    /// A document was opened.
    PdfOpened { path: String, title: Option<String>, page_count: u32 },
    /// The open document was closed.
    PdfClosed,
    /// The zoom factor changed.
    ZoomChanged { zoom_hundredths: u32 },
    /// Presenter mode was toggled.
    PresenterChanged { active: bool },
    /// A request failed; sent only to the originating connection.
    Error { message: String },
    /// Reply to a ping; sent only to the originating connection.
    Pong,
    /// Handshake confirmation.
    Connected { version: String },
    /// One page's annotation records changed; carries that page's full,
    /// ordered record list.
    AnnotationsUpdated { page: u32, annotations: Vec<String> },
    /// Every annotation was dropped.
    AnnotationsCleared,
}

/// Copy of an optional string, value for value.
fn clone_opt_string(o: &Option<String>) -> (r: Option<String>)
    ensures
        r == *o,
{
    match o {
        Some(s) => Some(s.clone()),
        None => None,
    }
}

/// Element-by-element copy of a vector of strings.
fn clone_strings(v: &Vec<String>) -> (r: Vec<String>)
    ensures
        r@ == v@,
{
    let mut r: Vec<String> = Vec::new();
    let mut i: usize = 0;
    while i < v.len()
        invariant
            0 <= i <= v.len(),
            r@ == v@.subrange(0, i as int),
        decreases v.len() - i,
    {
        r.push(v[i].clone());
        i = i + 1;
        proof {
            assert(r@ =~= v@.subrange(0, i as int));
        }
    }
    proof {
        assert(r@ =~= v@);
    }
    r
}

/// The one spec-level difference a clone may have: a cloned
/// `AnnotationsUpdated` carries a record vector that is equal record for
/// record; every other variant is cloned to an identical value.
pub open spec fn event_models(a: WebSocketEvent, b: WebSocketEvent) -> bool {
    match (a, b) {
        (
            WebSocketEvent::AnnotationsUpdated { page: pa, annotations: va },
            WebSocketEvent::AnnotationsUpdated { page: pb, annotations: vb },
        ) => pa == pb && va@ == vb@,
        _ => a == b,
    }
}

impl Clone for WebSocketEvent {
    fn clone(&self) -> (r: Self)
        ensures
            event_models(r, *self),
            !(*self matches WebSocketEvent::AnnotationsUpdated { .. }) ==> r == *self,
    {
        let r = match self {
            WebSocketEvent::State {
                page,
                total_pages,
                zoom_hundredths,
                pdf_loaded,
                pdf_path,
                pdf_title,
                presenter_active,
            } => WebSocketEvent::State {
                page: *page,
                total_pages: *total_pages,
                zoom_hundredths: *zoom_hundredths,
                pdf_loaded: *pdf_loaded,
                pdf_path: clone_opt_string(pdf_path),
                pdf_title: clone_opt_string(pdf_title),
                presenter_active: *presenter_active,
            },
            WebSocketEvent::PageChanged { page, total_pages } => WebSocketEvent::PageChanged {
                page: *page,
                total_pages: *total_pages,
            },
            WebSocketEvent::PdfOpened { path, title, page_count } => WebSocketEvent::PdfOpened {
                path: path.clone(),
                title: clone_opt_string(title),
                page_count: *page_count,
            },
            WebSocketEvent::PdfClosed => WebSocketEvent::PdfClosed,
            WebSocketEvent::ZoomChanged { zoom_hundredths } => WebSocketEvent::ZoomChanged {
                zoom_hundredths: *zoom_hundredths,
            },
            WebSocketEvent::PresenterChanged { active } => WebSocketEvent::PresenterChanged {
                active: *active,
            },
            WebSocketEvent::Error { message } => WebSocketEvent::Error {
                message: message.clone(),
            },
            WebSocketEvent::Pong => WebSocketEvent::Pong,
            WebSocketEvent::Connected { version } => WebSocketEvent::Connected {
                version: version.clone(),
            },
            WebSocketEvent::AnnotationsUpdated { page, annotations } => (
            WebSocketEvent::AnnotationsUpdated {
                page: *page,
                annotations: clone_strings(annotations),
            }),
            WebSocketEvent::AnnotationsCleared => WebSocketEvent::AnnotationsCleared,
        };
        r
    }
}

impl WebSocketEvent {
    /// The handshake confirmation for a given driver version.
    pub fn connected(version: String) -> (r: Self)
        ensures
            r == (WebSocketEvent::Connected { version }),
    {
        WebSocketEvent::Connected { version }
    }

    /// An error response with the given message.
    pub fn error(message: &str) -> (r: Self)
        ensures
            (r matches WebSocketEvent::Error { message: m } && m@ == message@),
    {
        WebSocketEvent::Error { message: message.to_owned() }
    }
}

/// What the navigation and zoom commands do to the document group; every
/// other command leaves it alone. Navigation moves the cursor only within
/// a loaded document's page range; an out-of-range explicit target leaves
/// the cursor where it was.
pub open spec fn pdf_after(cmd: WebSocketCommand, pdf: PdfState) -> PdfState {
    match cmd {
        WebSocketCommand::NextPage => if pdf.is_loaded && pdf.current_page < pdf.total_pages {
            PdfState { current_page: (pdf.current_page + 1) as u32, ..pdf }
        } else {
            pdf
        },
        WebSocketCommand::PreviousPage => if pdf.is_loaded && pdf.current_page > 1 {
            PdfState { current_page: (pdf.current_page - 1) as u32, ..pdf }
        } else {
            pdf
        },
        WebSocketCommand::GoToPage { page } => if pdf.is_loaded && 1 <= page
            <= pdf.total_pages {
            PdfState { current_page: page, ..pdf }
        } else {
            pdf
        },
        WebSocketCommand::SetZoom { zoom_hundredths } => PdfState {
            zoom_hundredths: spec_clamp_zoom(zoom_hundredths),
            ..pdf
        },
        _ => pdf,
    }
}

/// What a command does to the presenter group: only the toggle touches it.
pub open spec fn presenter_after(cmd: WebSocketCommand, p: PresenterState) -> PresenterState {
    match cmd {
        WebSocketCommand::TogglePresenter => PresenterState { is_active: !p.is_active, ..p },
        _ => p,
    }
}

/// The state snapshot event a reader of the given groups receives.
pub open spec fn state_event_of(pdf: PdfState, presenter: PresenterState) -> WebSocketEvent {
    WebSocketEvent::State {
        page: pdf.current_page,
        total_pages: pdf.total_pages,
        zoom_hundredths: pdf.zoom_hundredths,
        pdf_loaded: pdf.is_loaded,
        pdf_path: pdf.current_file,
        pdf_title: None,
        presenter_active: presenter.is_active,
    }
}

/// Advance to the next page, clamping at the last one.
pub fn handle_next_page(state: &mut SessionState) -> (r: WebSocketEvent)
    requires
        old(state).wf(),
    ensures
        final(state).wf(),
        final(state).pdf == pdf_after(WebSocketCommand::NextPage, old(state).pdf),
        final(state).presenter == old(state).presenter,
        final(state).websocket == old(state).websocket,
        final(state).integration == old(state).integration,
        final(state).annotations == old(state).annotations,
        final(state).capture == old(state).capture,
        !old(state).pdf.is_loaded ==> (r matches WebSocketEvent::Error { message } && message@
            == "No PDF is currently open"@),
        old(state).pdf.is_loaded && old(state).pdf.current_page == old(state).pdf.total_pages
            ==> (r matches WebSocketEvent::Error { message } && message@
            == "Already on last page"@),
        old(state).pdf.is_loaded && old(state).pdf.current_page < old(state).pdf.total_pages
            ==> r == (WebSocketEvent::PageChanged {
            page: (old(state).pdf.current_page + 1) as u32,
            total_pages: old(state).pdf.total_pages,
        }),
{
    if !state.pdf.is_loaded {
        return WebSocketEvent::error("No PDF is currently open");
    }
    if state.pdf.current_page == state.pdf.total_pages {
        return WebSocketEvent::error("Already on last page");
    }
    let new_page = state.pdf.current_page + 1;
    state.pdf.current_page = new_page;
    WebSocketEvent::PageChanged { page: new_page, total_pages: state.pdf.total_pages }
}

/// Go back one page, clamping at the first one.
pub fn handle_previous_page(state: &mut SessionState) -> (r: WebSocketEvent)
    requires
        old(state).wf(),
    ensures
        final(state).wf(),
        final(state).pdf == pdf_after(WebSocketCommand::PreviousPage, old(state).pdf),
        final(state).presenter == old(state).presenter,
        final(state).websocket == old(state).websocket,
        final(state).integration == old(state).integration,
        final(state).annotations == old(state).annotations,
        final(state).capture == old(state).capture,
        !old(state).pdf.is_loaded ==> (r matches WebSocketEvent::Error { message } && message@
            == "No PDF is currently open"@),
        old(state).pdf.is_loaded && old(state).pdf.current_page == 1 ==> (r
            matches WebSocketEvent::Error { message } && message@ == "Already on first page"@),
        old(state).pdf.is_loaded && old(state).pdf.current_page > 1 ==> r == (
        WebSocketEvent::PageChanged {
            page: (old(state).pdf.current_page - 1) as u32,
            total_pages: old(state).pdf.total_pages,
        }),
{
    if !state.pdf.is_loaded {
        return WebSocketEvent::error("No PDF is currently open");
    }
    if state.pdf.current_page == 1 {
        return WebSocketEvent::error("Already on first page");
    }
    let new_page = state.pdf.current_page - 1;
    state.pdf.current_page = new_page;
    WebSocketEvent::PageChanged { page: new_page, total_pages: state.pdf.total_pages }
}

/// The message refusing an explicit navigation target outside the open
/// document's page range.
pub open spec fn out_of_range_message(page: u32, total_pages: u32) -> Seq<char> {
    "Page "@ + spec_decimal(page as nat) + " is out of range (1-"@ + spec_decimal(
        total_pages as nat,
    ) + ")"@
}

/// Jump to an explicit page; an out-of-range target is refused and moves
/// nothing.
pub fn handle_go_to_page(state: &mut SessionState, page: u32) -> (r: WebSocketEvent)
    requires
        old(state).wf(),
    ensures
        final(state).wf(),
        final(state).pdf == pdf_after(WebSocketCommand::GoToPage { page }, old(state).pdf),
        final(state).presenter == old(state).presenter,
        final(state).websocket == old(state).websocket,
        final(state).integration == old(state).integration,
        final(state).annotations == old(state).annotations,
        final(state).capture == old(state).capture,
        !old(state).pdf.is_loaded ==> (r matches WebSocketEvent::Error { message } && message@
            == "No PDF is currently open"@),
        old(state).pdf.is_loaded && !(1 <= page <= old(state).pdf.total_pages) ==> (r
            matches WebSocketEvent::Error { message } && message@ == out_of_range_message(
            page,
            old(state).pdf.total_pages,
        )),
        old(state).pdf.is_loaded && 1 <= page <= old(state).pdf.total_pages ==> r == (
        WebSocketEvent::PageChanged { page, total_pages: old(state).pdf.total_pages }),
{
    if !state.pdf.is_loaded {
        return WebSocketEvent::error("No PDF is currently open");
    }
    if page < 1 || page > state.pdf.total_pages {
        let mut message = "Page ".to_owned();
        message.append(decimal_string(page).as_str());
        message.append(" is out of range (1-");
        message.append(decimal_string(state.pdf.total_pages).as_str());
        message.append(")");
        return WebSocketEvent::Error { message };
    }
    state.pdf.current_page = page;
    WebSocketEvent::PageChanged { page, total_pages: state.pdf.total_pages }
}

/// Answer with the full state snapshot; nothing changes.
pub fn handle_get_state(state: &SessionState) -> (r: WebSocketEvent)
    ensures
        r == state_event_of(state.pdf, state.presenter),
{
    WebSocketEvent::State {
        page: state.pdf.current_page,
        total_pages: state.pdf.total_pages,
        zoom_hundredths: state.pdf.zoom_hundredths,
        pdf_loaded: state.pdf.is_loaded,
        pdf_path: match &state.pdf.current_file {
            Some(p) => Some(p.clone()),
            None => None,
        },
        pdf_title: None,
        presenter_active: state.presenter.is_active,
    }
}

/// Store the requested zoom factor, clamped into its domain; any request
/// is accepted, never refused.
pub fn handle_set_zoom(state: &mut SessionState, zoom_hundredths: i64) -> (r: WebSocketEvent)
    requires
        old(state).wf(),
    ensures
        final(state).wf(),
        final(state).pdf == pdf_after(
            WebSocketCommand::SetZoom { zoom_hundredths },
            old(state).pdf,
        ),
        final(state).presenter == old(state).presenter,
        final(state).websocket == old(state).websocket,
        final(state).integration == old(state).integration,
        final(state).annotations == old(state).annotations,
        final(state).capture == old(state).capture,
        r == (WebSocketEvent::ZoomChanged { zoom_hundredths: spec_clamp_zoom(zoom_hundredths) }),
        crate::MIN_ZOOM_HUNDREDTHS <= final(state).pdf.zoom_hundredths
            <= crate::MAX_ZOOM_HUNDREDTHS,
{
    let clamped = clamp_zoom(zoom_hundredths);
    state.pdf.zoom_hundredths = clamped;
    WebSocketEvent::ZoomChanged { zoom_hundredths: clamped }
}

/// Flip presenter mode.
pub fn handle_toggle_presenter(state: &mut SessionState) -> (r: WebSocketEvent)
    requires
        old(state).wf(),
    ensures
        final(state).wf(),
        final(state).pdf == old(state).pdf,
        final(state).presenter == presenter_after(
            WebSocketCommand::TogglePresenter,
            old(state).presenter,
        ),
        final(state).websocket == old(state).websocket,
        final(state).integration == old(state).integration,
        final(state).annotations == old(state).annotations,
        final(state).capture == old(state).capture,
        r == (WebSocketEvent::PresenterChanged { active: !old(state).presenter.is_active }),
{
    let new_active = !state.presenter.is_active;
    state.presenter.is_active = new_active;
    WebSocketEvent::PresenterChanged { active: new_active }
}

/// Append one annotation record; the response carries the page's full,
/// ordered record list after the append.
pub fn handle_add_annotation(state: &mut SessionState, page: u32, annotation: String) -> (r:
    WebSocketEvent)
    requires
        old(state).wf(),
    ensures
        final(state).wf(),
        final(state).pdf == old(state).pdf,
        final(state).presenter == old(state).presenter,
        final(state).websocket == old(state).websocket,
        final(state).integration == old(state).integration,
        final(state).capture == old(state).capture,
        final(state).annotations.page_seq(page) == old(state).annotations.page_seq(page).push(
            annotation,
        ),
        forall|q: u32| q != page ==> final(state).annotations.page_seq(q) == old(
            state,
        ).annotations.page_seq(q),
        (r matches WebSocketEvent::AnnotationsUpdated { page: p, annotations: v } && p == page
            && v@ == old(state).annotations.page_seq(page).push(annotation)),
{
    state.annotations.add(page, annotation);
    let values = state.annotations.get_page(page);
    WebSocketEvent::AnnotationsUpdated { page, annotations: values }
}

/// Drop every annotation on every page.
pub fn handle_clear_annotations(state: &mut SessionState) -> (r: WebSocketEvent)
    requires
        old(state).wf(),
    ensures
        final(state).wf(),
        final(state).pdf == old(state).pdf,
        final(state).presenter == old(state).presenter,
        final(state).websocket == old(state).websocket,
        final(state).integration == old(state).integration,
        final(state).capture == old(state).capture,
        forall|p: u32| final(state).annotations.page_seq(p) == Seq::<String>::empty(),
        r == WebSocketEvent::AnnotationsCleared,
{
    state.annotations.clear();
    WebSocketEvent::AnnotationsCleared
}

/// Everything one command step guarantees: how each field group of the
/// store changes, and which event answers the originating connection.
pub open spec fn step_holds(
    cmd: WebSocketCommand,
    pre: SessionState,
    post: SessionState,
    r: WebSocketEvent,
) -> bool {
    &&& post.pdf == pdf_after(cmd, pre.pdf)
    &&& post.presenter == presenter_after(cmd, pre.presenter)
    &&& post.websocket == pre.websocket
    &&& post.integration == pre.integration
    &&& post.capture == pre.capture
    &&& match cmd {
        WebSocketCommand::NextPage => {
            &&& post.annotations == pre.annotations
            &&& !pre.pdf.is_loaded ==> (r matches WebSocketEvent::Error { message } && message@ == "No PDF is currently open"@)
            &&& pre.pdf.is_loaded && pre.pdf.current_page == pre.pdf.total_pages ==> (r matches WebSocketEvent::Error { message } && message@ == "Already on last page"@)
            &&& pre.pdf.is_loaded && pre.pdf.current_page < pre.pdf.total_pages ==> r == (WebSocketEvent::PageChanged { page: (pre.pdf.current_page + 1) as u32, total_pages: pre.pdf.total_pages })
        },
        WebSocketCommand::PreviousPage => {
            &&& post.annotations == pre.annotations
            &&& !pre.pdf.is_loaded ==> (r matches WebSocketEvent::Error { message } && message@ == "No PDF is currently open"@)
            &&& pre.pdf.is_loaded && pre.pdf.current_page == 1 ==> (r matches WebSocketEvent::Error { message } && message@ == "Already on first page"@)
            &&& pre.pdf.is_loaded && pre.pdf.current_page > 1 ==> r == (WebSocketEvent::PageChanged { page: (pre.pdf.current_page - 1) as u32, total_pages: pre.pdf.total_pages })
        },
        WebSocketCommand::GoToPage { page } => {
            &&& post.annotations == pre.annotations
            &&& !pre.pdf.is_loaded ==> (r matches WebSocketEvent::Error { message } && message@ == "No PDF is currently open"@)
            &&& pre.pdf.is_loaded && !(1 <= page <= pre.pdf.total_pages) ==> (r matches WebSocketEvent::Error { message } && message@ == out_of_range_message(page, pre.pdf.total_pages))
            &&& pre.pdf.is_loaded && 1 <= page <= pre.pdf.total_pages ==> r == (WebSocketEvent::PageChanged { page, total_pages: pre.pdf.total_pages })
        },
        WebSocketCommand::GetState => {
            &&& post.annotations == pre.annotations
            &&& r == state_event_of(pre.pdf, pre.presenter)
        },
        WebSocketCommand::SetZoom { zoom_hundredths } => {
            &&& post.annotations == pre.annotations
            &&& r == (WebSocketEvent::ZoomChanged { zoom_hundredths: spec_clamp_zoom(zoom_hundredths) })
        },
        WebSocketCommand::TogglePresenter => {
            &&& post.annotations == pre.annotations
            &&& r == (WebSocketEvent::PresenterChanged { active: !pre.presenter.is_active })
        },
        WebSocketCommand::Ping => {
            &&& post.annotations == pre.annotations
            &&& r == WebSocketEvent::Pong
        },
        WebSocketCommand::AddAnnotation { page, annotation } => {
            &&& post.annotations.page_seq(page) == pre.annotations.page_seq(page).push(annotation)
            &&& forall|q: u32| q != page ==> post.annotations.page_seq(q) == pre.annotations.page_seq(q)
            &&& (r matches WebSocketEvent::AnnotationsUpdated { page: p, annotations: v } && p == page && v@ == pre.annotations.page_seq(page).push(annotation))
        },
        WebSocketCommand::ClearAnnotations => {
            &&& forall|p: u32| post.annotations.page_seq(p) == Seq::<String>::empty()
            &&& r == WebSocketEvent::AnnotationsCleared
        },
    }
}

/// Handle one inbound command: validate it against the store, mutate the
/// store, and return the event that answers the originating connection.
pub fn handle_command(cmd: WebSocketCommand, state: &mut SessionState) -> (r: WebSocketEvent)
    requires
        old(state).wf(),
    ensures
        final(state).wf(),
        step_holds(cmd, *old(state), *final(state), r),
{
    match cmd {
        WebSocketCommand::NextPage => handle_next_page(state),
        WebSocketCommand::PreviousPage => handle_previous_page(state),
        WebSocketCommand::GoToPage { page } => handle_go_to_page(state, page),
        WebSocketCommand::GetState => handle_get_state(state),
        WebSocketCommand::SetZoom { zoom_hundredths } => handle_set_zoom(state, zoom_hundredths),
        WebSocketCommand::TogglePresenter => handle_toggle_presenter(state),
        WebSocketCommand::Ping => WebSocketEvent::Pong,
        WebSocketCommand::AddAnnotation { page, annotation } => handle_add_annotation(
            state,
            page,
            annotation,
        ),
        WebSocketCommand::ClearAnnotations => handle_clear_annotations(state),
    }
}

/// Whether an event kind must reach every connection, not just the
/// originator. A pure function of the kind, whatever the event's origin.
pub open spec fn spec_should_broadcast(event: WebSocketEvent) -> bool {
    match event {
        WebSocketEvent::PageChanged { .. } => true,
        WebSocketEvent::ZoomChanged { .. } => true,
        WebSocketEvent::PresenterChanged { .. } => true,
        WebSocketEvent::PdfOpened { .. } => true,
        WebSocketEvent::PdfClosed => true,
        _ => false,
    }
}

/// Decide whether an event is broadcast-worthy.
pub fn should_broadcast(event: &WebSocketEvent) -> (r: bool)
    ensures
        r == spec_should_broadcast(*event),
{
    match event {
        WebSocketEvent::PageChanged { .. } => true,
        WebSocketEvent::ZoomChanged { .. } => true,
        WebSocketEvent::PresenterChanged { .. } => true,
        WebSocketEvent::PdfOpened { .. } => true,
        WebSocketEvent::PdfClosed => true,
        _ => false,
    }
}

/// The notification the host GUI receives when a command mutated the
/// store: the event name of the change, or nothing for an event that
/// mutated nothing. Every command that mutates the document, presenter
/// or annotation group notifies the host. Delivery is the embedding
/// program's concern and is best-effort; a failure there never fails the
/// command.
pub fn host_notification_name(event: &WebSocketEvent) -> (r: Option<String>)
    ensures
        (*event matches WebSocketEvent::PageChanged { .. }) ==> (r matches Some(n) && n@
            == "page-changed"@),
        (*event matches WebSocketEvent::ZoomChanged { .. }) ==> (r matches Some(n) && n@
            == "zoom-changed"@),
        (*event matches WebSocketEvent::PresenterChanged { .. }) ==> (r matches Some(n) && n@
            == "presenter-changed"@),
        (*event matches WebSocketEvent::AnnotationsUpdated { .. }) ==> (r matches Some(n) && n@
            == "annotations-updated"@),
        (*event matches WebSocketEvent::AnnotationsCleared) ==> (r matches Some(n) && n@
            == "annotations-cleared"@),
        !(*event matches WebSocketEvent::PageChanged { .. }) && !(*event
            matches WebSocketEvent::ZoomChanged { .. }) && !(*event
            matches WebSocketEvent::PresenterChanged { .. }) && !(*event
            matches WebSocketEvent::AnnotationsUpdated { .. }) && !(*event
            matches WebSocketEvent::AnnotationsCleared) ==> r is None,
{
    match event {
        WebSocketEvent::PageChanged { .. } => Some("page-changed".to_owned()),
        WebSocketEvent::ZoomChanged { .. } => Some("zoom-changed".to_owned()),
        WebSocketEvent::PresenterChanged { .. } => Some("presenter-changed".to_owned()),
        WebSocketEvent::AnnotationsUpdated { .. } => Some("annotations-updated".to_owned()),
        WebSocketEvent::AnnotationsCleared => Some("annotations-cleared".to_owned()),
        _ => None,
    }
}

/// The snapshot a newly joined client is seeded with.
pub fn get_current_state(state: &SessionState) -> (r: WebSocketEvent)
    ensures
        r == state_event_of(state.pdf, state.presenter),
{
    handle_get_state(state)
}

/// The document group a command sequence leaves behind, applying the
/// commands front to back.
pub open spec fn pdf_after_all(cmds: Seq<WebSocketCommand>, pdf: PdfState) -> PdfState
    decreases cmds.len(),
{
    if cmds.len() == 0 {
        pdf
    } else {
        pdf_after_all(cmds.drop_first(), pdf_after(cmds.first(), pdf))
    }
}

/// Any single command keeps the document invariant; in particular the
/// page cursor of a loaded document stays within `[1, total_pages]`.
pub proof fn lemma_command_preserves_document_invariant(cmd: WebSocketCommand, pdf: PdfState)
    requires
        pdf.wf(),
    ensures
        pdf_after(cmd, pdf).wf(),
        pdf_after(cmd, pdf).is_loaded ==> 1 <= pdf_after(cmd, pdf).current_page <= pdf_after(
            cmd,
            pdf,
        ).total_pages,
{
}

/// Under any sequence of commands — in particular any mix of NextPage,
/// PreviousPage and GoToPage — the page cursor of a loaded document stays
/// within `[1, total_pages]`: the edges clamp instead of running out.
pub proof fn lemma_page_stays_in_range(cmds: Seq<WebSocketCommand>, pdf: PdfState)
    requires
        pdf.wf(),
    ensures
        pdf_after_all(cmds, pdf).wf(),
        pdf_after_all(cmds, pdf).is_loaded ==> 1 <= pdf_after_all(cmds, pdf).current_page
            <= pdf_after_all(cmds, pdf).total_pages,
    decreases cmds.len(),
{
    if cmds.len() > 0 {
        lemma_command_preserves_document_invariant(cmds.first(), pdf);
        lemma_page_stays_in_range(cmds.drop_first(), pdf_after(cmds.first(), pdf));
    }
}

/// An explicit navigation target outside `[1, total_pages]` leaves the
/// cursor exactly where it was.
pub proof fn lemma_go_to_page_out_of_range_moves_nothing(page: u32, pdf: PdfState)
    requires
        pdf.wf(),
        !(1 <= page <= pdf.total_pages),
    ensures
        pdf_after(WebSocketCommand::GoToPage { page }, pdf) == pdf,
{
}

/// For any requested zoom factor whatever, the stored zoom ends up
/// clamped into its domain; the request is never rejected.
pub proof fn lemma_zoom_always_clamped(zoom_hundredths: i64, pdf: PdfState)
    requires
        pdf.wf(),
    ensures
        crate::MIN_ZOOM_HUNDREDTHS <= pdf_after(
            WebSocketCommand::SetZoom { zoom_hundredths },
            pdf,
        ).zoom_hundredths <= crate::MAX_ZOOM_HUNDREDTHS,
        pdf_after(WebSocketCommand::SetZoom { zoom_hundredths }, pdf).zoom_hundredths
            == spec_clamp_zoom(zoom_hundredths),
{
}

} // verus!
