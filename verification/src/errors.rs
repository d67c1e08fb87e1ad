//! Error types with safe user-facing messages: a categorized application
//! error whose message never leaks internal detail, and the operation
//! error that library entry points return.

use vstd::prelude::*;

verus! {

/// Error codes for programmatic handling.
#[derive(Clone, Copy, Debug, PartialEq, Eq, Structural)]
pub enum ErrorCode {
    PdfNotFound,
    PdfAccessDenied,
    PdfInvalidFormat,
    PdfLoadFailed,
    PdfPageNotFound,
    PresenterAlreadyOpen,
    PresenterNotOpen,
    PresenterConfigInvalid,
    WebSocketNotRunning,
    WebSocketConnectionFailed,
    StateLockFailed,
    InternalError,
    ValidationFailed,
    OperationNotPermitted,
}

/// An application error: a code, a safe user-facing message, and
/// internal details that are kept out of anything user-facing.
#[derive(Debug)]
pub struct AppError {
    /// Error code for programmatic handling.
    pub code: ErrorCode,
    /// Safe user-facing message.
    pub message: String,
    /// Internal details, for diagnostics only.
    pub internal_details: Option<String>,
}

impl Clone for AppError {
    fn clone(&self) -> (r: Self)
        ensures
            r == *self,
    {
        AppError {
            code: self.code,
            message: self.message.clone(),
            internal_details: match &self.internal_details {
                Some(d) => Some(d.clone()),
                None => None,
            },
        }
    }
}

impl AppError {
    /// Build an error from its parts.
    fn new(code: ErrorCode, message: &str, details: Option<String>) -> (r: Self)
        ensures
            r.code == code,
            r.message@ == message@,
            r.internal_details == details,
    {
        AppError { code, message: message.to_owned(), internal_details: details }
    }

    /// The safe user-facing message.
    pub fn user_message(&self) -> (r: String)
        ensures
            r@ == self.message@,
    {
        self.message.clone()
    }

    /// The requested document file could not be found.
    pub fn pdf_not_found() -> (r: Self)
        ensures
            r.code == ErrorCode::PdfNotFound,
            r.message@ == "The requested PDF file could not be found"@,
            r.internal_details is None,
    {
        Self::new(ErrorCode::PdfNotFound, "The requested PDF file could not be found", None)
    }

    /// The document file could not be accessed.
    pub fn pdf_access_denied() -> (r: Self)
        ensures
            r.code == ErrorCode::PdfAccessDenied,
            r.message@ == "Unable to access the PDF file"@,
            r.internal_details is None,
    {
        Self::new(ErrorCode::PdfAccessDenied, "Unable to access the PDF file", None)
    }

    /// The file is not a valid document.
    pub fn pdf_invalid_format() -> (r: Self)
        ensures
            r.code == ErrorCode::PdfInvalidFormat,
            r.message@ == "The file is not a valid PDF"@,
            r.internal_details is None,
    {
        Self::new(ErrorCode::PdfInvalidFormat, "The file is not a valid PDF", None)
    }

    /// The document could not be loaded; the reason stays internal.
    pub fn pdf_load_failed(details: &str) -> (r: Self)
        ensures
            r.code == ErrorCode::PdfLoadFailed,
            r.message@ == "Unable to open the PDF file"@,
            (r.internal_details matches Some(d) && d@ == details@),
    {
        Self::new(ErrorCode::PdfLoadFailed, "Unable to open the PDF file", Some(details.to_owned()))
    }

    /// The requested page does not exist; the page number stays in the
    /// internal detail.
    pub fn pdf_page_not_found(page: u32) -> (r: Self)
        ensures
            r.code == ErrorCode::PdfPageNotFound,
            r.message@ == "The requested page does not exist"@,
            (r.internal_details matches Some(d) && d@ == "Requested page: "@
                + crate::spec_decimal(page as nat)),
    {
        let mut detail = "Requested page: ".to_owned();
        detail.append(crate::decimal_string(page).as_str());
        Self::new(ErrorCode::PdfPageNotFound, "The requested page does not exist", Some(detail))
    }

    /// Presenter mode is already active.
    pub fn presenter_already_open() -> (r: Self)
        ensures
            r.code == ErrorCode::PresenterAlreadyOpen,
            r.message@ == "Presenter mode is already active"@,
            r.internal_details is None,
    {
        Self::new(ErrorCode::PresenterAlreadyOpen, "Presenter mode is already active", None)
    }

    /// Presenter mode is not active.
    pub fn presenter_not_open() -> (r: Self)
        ensures
            r.code == ErrorCode::PresenterNotOpen,
            r.message@ == "Presenter mode is not active"@,
            r.internal_details is None,
    {
        Self::new(ErrorCode::PresenterNotOpen, "Presenter mode is not active", None)
    }

    /// The presenter configuration is invalid; the reason stays internal.
    pub fn presenter_config_invalid(details: &str) -> (r: Self)
        ensures
            r.code == ErrorCode::PresenterConfigInvalid,
            r.message@ == "Invalid presenter configuration"@,
            (r.internal_details matches Some(d) && d@ == details@),
    {
        Self::new(
            ErrorCode::PresenterConfigInvalid,
            "Invalid presenter configuration",
            Some(details.to_owned()),
        )
    }

    /// The listening endpoint is not running.
    pub fn websocket_not_running() -> (r: Self)
        ensures
            r.code == ErrorCode::WebSocketNotRunning,
            r.message@ == "WebSocket server is not running"@,
            r.internal_details is None,
    {
        Self::new(ErrorCode::WebSocketNotRunning, "WebSocket server is not running", None)
    }

    /// A state lock could not be taken; the reason stays internal.
    pub fn state_lock_failed(details: &str) -> (r: Self)
        ensures
            r.code == ErrorCode::StateLockFailed,
            r.message@ == "An internal error occurred"@,
            (r.internal_details matches Some(d) && d@ == details@),
    {
        Self::new(ErrorCode::StateLockFailed, "An internal error occurred", Some(details.to_owned()))
    }

    /// An unexpected error; the detail stays internal.
    pub fn internal(details: &str) -> (r: Self)
        ensures
            r.code == ErrorCode::InternalError,
            r.message@ == "An unexpected error occurred"@,
            (r.internal_details matches Some(d) && d@ == details@),
    {
        Self::new(ErrorCode::InternalError, "An unexpected error occurred", Some(details.to_owned()))
    }

    /// Input validation failed, with a message safe to show.
    pub fn validation_failed(message: &str) -> (r: Self)
        ensures
            r.code == ErrorCode::ValidationFailed,
            r.message@ == message@,
            r.internal_details is None,
    {
        Self::new(ErrorCode::ValidationFailed, message, None)
    }

    /// The operation is not permitted.
    pub fn operation_not_permitted() -> (r: Self)
        ensures
            r.code == ErrorCode::OperationNotPermitted,
            r.message@ == "This operation is not permitted"@,
            r.internal_details is None,
    {
        Self::new(ErrorCode::OperationNotPermitted, "This operation is not permitted", None)
    }
}

/// The operation error library entry points return. Causes that arise in
/// outside code travel as plain rendered strings.
#[derive(Debug)]
pub enum StreamSlateError {
    /// The document parser failed.
    Pdf(String),
    /// No file at the given path.
    FileNotFound(String),
    /// The file exists but is not a valid document.
    InvalidPdf(String),
    /// A state lock could not be taken.
    StateLock(String),
    /// The listening endpoint or a connection failed.
    WebSocket(String),
    /// An input/output failure.
    Io(String),
    /// A serialization failure.
    Json(String),
    /// A window operation failed.
    Window(String),
    /// Anything else.
    Other(String),
}

/// The rendered message of an operation error.
pub open spec fn spec_error_message(e: StreamSlateError) -> Seq<char> {
    match e {
        StreamSlateError::Pdf(s) => "PDF error: "@ + s@,
        StreamSlateError::FileNotFound(s) => "File not found: "@ + s@,
        StreamSlateError::InvalidPdf(s) => "Invalid PDF: "@ + s@,
        StreamSlateError::StateLock(s) => "State lock error: "@ + s@,
        StreamSlateError::WebSocket(s) => "WebSocket error: "@ + s@,
        StreamSlateError::Io(s) => "I/O error: "@ + s@,
        StreamSlateError::Json(s) => "JSON error: "@ + s@,
        StreamSlateError::Window(s) => "Window error: "@ + s@,
        StreamSlateError::Other(s) => s@,
    }
}

impl StreamSlateError {
    /// Render the error as the message a client may see.
    pub fn message(&self) -> (r: String)
        ensures
            r@ == spec_error_message(*self),
    {
        match self {
            StreamSlateError::Pdf(s) => {
                let mut m = "PDF error: ".to_owned();
                m.append(s.as_str());
                m
            },
            StreamSlateError::FileNotFound(s) => {
                let mut m = "File not found: ".to_owned();
                m.append(s.as_str());
                m
            },
            StreamSlateError::InvalidPdf(s) => {
                let mut m = "Invalid PDF: ".to_owned();
                m.append(s.as_str());
                m
            },
            StreamSlateError::StateLock(s) => {
                let mut m = "State lock error: ".to_owned();
                m.append(s.as_str());
                m
            },
            StreamSlateError::WebSocket(s) => {
                let mut m = "WebSocket error: ".to_owned();
                m.append(s.as_str());
                m
            },
            StreamSlateError::Io(s) => {
                let mut m = "I/O error: ".to_owned();
                m.append(s.as_str());
                m
            },
            StreamSlateError::Json(s) => {
                let mut m = "JSON error: ".to_owned();
                m.append(s.as_str());
                m
            },
            StreamSlateError::Window(s) => {
                let mut m = "Window error: ".to_owned();
                m.append(s.as_str());
                m
            },
            StreamSlateError::Other(s) => s.clone(),
        }
    }
}

} // verus!
