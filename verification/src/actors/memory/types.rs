//! Memory requests, responses and errors.
use vstd::prelude::*;
use vstd::string::*;
use crate::ieee::Real;
use crate::the_box::types::{uuid_text, Content, SalienceScore, Window, WindowId};
use crate::text::{decimal, push_decimal};

verus! {

/// Responses of the memory actor.
#[derive(Debug, Clone, PartialEq)]
pub enum MemoryResponse {
    /// A window was opened
    WindowOpened { window_id: WindowId },
    /// A window was closed
    WindowClosed { window_id: WindowId },
    /// Content was stored
    ContentStored { window_id: WindowId },
    /// Content recalled from memory
    ContentRecalled { contents: Vec<Content> },
    /// All windows
    WindowList { windows: Vec<Window> },
    /// Number of open windows
    WindowCount { count: usize },
    /// The operation failed
    Error { error: MemoryError },
}

/// Request to store content in a memory window.
#[derive(Debug, Clone, PartialEq)]
pub struct StoreRequest {
    /// Target window
    pub window_id: WindowId,
    /// Content to store
    pub content: Content,
    /// New salience for the window, if any
    pub salience: Option<SalienceScore>,
}

impl StoreRequest {
    /// A request to store content in a window, leaving its salience alone.
    pub fn new(window_id: WindowId, content: Content) -> (r: StoreRequest)
        ensures
            r == (StoreRequest { window_id, content, salience: None }),
    {
        StoreRequest { window_id, content, salience: None }
    }

    /// The request with a salience to set on the window.
    pub fn with_salience(self, salience: SalienceScore) -> (r: StoreRequest)
        ensures
            r == (StoreRequest { salience: Some(salience), ..self }),
    {
        StoreRequest { salience: Some(salience), ..self }
    }
}

/// Query to recall content from memory.
#[derive(Debug, Clone, Copy, PartialEq, Eq, Structural)]
pub struct RecallQuery {
    /// Only this window, if given (otherwise every open window)
    pub window_id: Option<WindowId>,
    /// Minimum composite salience of the windows recalled from, if given
    pub min_salience: Option<Real>,
    /// At most this many contents, if given
    pub limit: Option<usize>,
}

impl RecallQuery {
    /// Recall from every open window, with no filter.
    pub fn all() -> (q: RecallQuery)
        ensures
            q == (RecallQuery { window_id: None, min_salience: None, limit: None }),
    {
        RecallQuery { window_id: None, min_salience: None, limit: None }
    }

    /// Recall from one window.
    pub fn for_window(window_id: WindowId) -> (q: RecallQuery)
        ensures
            q == (RecallQuery { window_id: Some(window_id), min_salience: None, limit: None }),
    {
        RecallQuery { window_id: Some(window_id), min_salience: None, limit: None }
    }

    /// The query with a minimum salience.
    pub fn with_min_salience(self, min_salience: Real) -> (q: RecallQuery)
        ensures
            q == (RecallQuery { min_salience: Some(min_salience), ..self }),
    {
        RecallQuery { min_salience: Some(min_salience), ..self }
    }

    /// The query with a limit.
    pub fn with_limit(self, limit: usize) -> (q: RecallQuery)
        ensures
            q == (RecallQuery { limit: Some(limit), ..self }),
    {
        RecallQuery { limit: Some(limit), ..self }
    }
}

impl Default for RecallQuery {
    fn default() -> (q: RecallQuery)
        ensures
            q == (RecallQuery { window_id: None, min_salience: None, limit: None }),
    {
        RecallQuery::all()
    }
}

/// Memory errors.
#[derive(Debug, Clone, PartialEq)]
pub enum MemoryError {
    /// No window with this identifier
    WindowNotFound { window_id: WindowId },
    /// The window is closed
    WindowAlreadyClosed { window_id: WindowId },
    /// The maximum number of windows is already open
    BoundedMemoryExceeded { max: usize },
    /// Closing would leave fewer than the minimum number of windows open
    BoundedMemoryInsufficient { min: usize },
    /// The salience score is invalid
    InvalidSalience { reason: String },
}

/// The message text of a memory error.
pub open spec fn memory_error_text(e: MemoryError) -> Seq<char> {
    match e {
        MemoryError::WindowNotFound { window_id } => "Window not found: "@ + uuid_text(window_id.value()),
        MemoryError::WindowAlreadyClosed { window_id } => "Window already closed: "@ + uuid_text(window_id.value()),
        MemoryError::BoundedMemoryExceeded { max } => "Cannot open window: maximum "@ + decimal(max as nat) + " windows already open"@,
        MemoryError::BoundedMemoryInsufficient { min } => "Cannot close window: minimum "@ + decimal(min as nat) + " windows required"@,
        MemoryError::InvalidSalience { reason } => "Invalid salience score: "@ + reason@,
    }
}

impl MemoryError {
    /// The human-readable message of the error.
    pub fn to_string(&self) -> (s: String)
        ensures
            s@ == memory_error_text(*self),
    {
        match self {
            MemoryError::WindowNotFound { window_id } => {
                let mut s = String::from_str("Window not found: ");
                let id = window_id.to_string();
                s.append(id.as_str());
                s
            },
            MemoryError::WindowAlreadyClosed { window_id } => {
                let mut s = String::from_str("Window already closed: ");
                let id = window_id.to_string();
                s.append(id.as_str());
                s
            },
            MemoryError::BoundedMemoryExceeded { max } => {
                let mut s = String::from_str("Cannot open window: maximum ");
                push_decimal(&mut s, *max as u64);
                s.append(" windows already open");
                s
            },
            MemoryError::BoundedMemoryInsufficient { min } => {
                let mut s = String::from_str("Cannot close window: minimum ");
                push_decimal(&mut s, *min as u64);
                s.append(" windows required");
                s
            },
            MemoryError::InvalidSalience { reason } => {
                let mut s = String::from_str("Invalid salience score: ");
                s.append(reason.as_str());
                s
            },
        }
    }
}

} // verus!
