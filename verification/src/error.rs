//! The failures that are shown to the user.
use vstd::prelude::*;

verus! {

/// A failure of the application. Each variant holds the text of what went
/// wrong.
#[derive(Debug, Clone)]
pub enum AppError {
    /// The store failed; the text may name rows and columns.
    Database(String),
    Auth(String),
    /// A request failed; the text may name addresses.
    Network(String),
    /// Some other failure, with whatever text it came with.
    Anyhow(String),
    Calendar(String),
    Audio(String),
    InvalidInput(String),
    Config(String),
    OperationFailed(String),
    NotFound(String),
    PermissionDenied(String),
}

/// The result of an operation of the application.
pub type AppResult<T> = Result<T, AppError>;

impl AppError {
    /// The text that the error holds.
    pub open spec fn detail(&self) -> Seq<char> {
        match self {
            AppError::Database(text) => text@,
            AppError::Auth(text) => text@,
            AppError::Network(text) => text@,
            AppError::Anyhow(text) => text@,
            AppError::Calendar(text) => text@,
            AppError::Audio(text) => text@,
            AppError::InvalidInput(text) => text@,
            AppError::Config(text) => text@,
            AppError::OperationFailed(text) => text@,
            AppError::NotFound(text) => text@,
            AppError::PermissionDenied(text) => text@,
        }
    }

    /// What stands before the text in the full message.
    pub open spec fn label(&self) -> Seq<char> {
        match self {
            AppError::Database(_) => "Database error: "@,
            AppError::Auth(_) => "Authentication error: "@,
            AppError::Network(_) => "Network error: "@,
            AppError::Anyhow(_) => "Error: "@,
            AppError::Calendar(_) => "Calendar error: "@,
            AppError::Audio(_) => "Audio error: "@,
            AppError::InvalidInput(_) => "Invalid input: "@,
            AppError::Config(_) => "Configuration error: "@,
            AppError::OperationFailed(_) => "Operation failed: "@,
            AppError::NotFound(_) => "Not found: "@,
            AppError::PermissionDenied(_) => "Permission denied: "@,
        }
    }

    /// The full message.
    pub open spec fn message_text(&self) -> Seq<char> {
        self.label() + self.detail()
    }

    /// Whether the text was written by the application itself, so that it
    /// holds nothing of the user's data.
    pub open spec fn pii_safe(&self) -> bool {
        !(self is Database || self is Network || self is Anyhow)
    }

    /// The message that may be shown anywhere: the full message of an error
    /// whose text is safe, and a fixed text for every other.
    pub open spec fn safe_text(&self) -> Seq<char> {
        match self {
            AppError::Database(_) => "Database operation failed"@,
            AppError::Network(_) => "Network request failed"@,
            AppError::Anyhow(_) => "Operation failed"@,
            _ => self.message_text(),
        }
    }

    /// An authentication failure.
    pub fn auth(msg: &str) -> (e: Self)
        ensures
            e is Auth,
            e.detail() == msg@,
    {
        AppError::Auth(String::from_str(msg))
    }

    /// A failure of a calendar.
    pub fn calendar(msg: &str) -> (e: Self)
        ensures
            e is Calendar,
            e.detail() == msg@,
    {
        AppError::Calendar(String::from_str(msg))
    }

    /// A failure of the audio system.
    pub fn audio(msg: &str) -> (e: Self)
        ensures
            e is Audio,
            e.detail() == msg@,
    {
        AppError::Audio(String::from_str(msg))
    }

    /// An input that was refused.
    pub fn invalid_input(msg: &str) -> (e: Self)
        ensures
            e is InvalidInput,
            e.detail() == msg@,
    {
        AppError::InvalidInput(String::from_str(msg))
    }

    /// A failure of the configuration.
    pub fn config(msg: &str) -> (e: Self)
        ensures
            e is Config,
            e.detail() == msg@,
    {
        AppError::Config(String::from_str(msg))
    }

    /// An operation that failed.
    pub fn operation_failed(msg: &str) -> (e: Self)
        ensures
            e is OperationFailed,
            e.detail() == msg@,
    {
        AppError::OperationFailed(String::from_str(msg))
    }

    /// Something that was not found.
    pub fn not_found(msg: &str) -> (e: Self)
        ensures
            e is NotFound,
            e.detail() == msg@,
    {
        AppError::NotFound(String::from_str(msg))
    }

    /// Something that was not permitted.
    pub fn permission_denied(msg: &str) -> (e: Self)
        ensures
            e is PermissionDenied,
            e.detail() == msg@,
    {
        AppError::PermissionDenied(String::from_str(msg))
    }

    /// The full message.
    pub fn message(&self) -> (text: String)
        ensures
            text@ == self.message_text(),
    {
        let (label, detail) = match self {
            AppError::Database(text) => ("Database error: ", text),
            AppError::Auth(text) => ("Authentication error: ", text),
            AppError::Network(text) => ("Network error: ", text),
            AppError::Anyhow(text) => ("Error: ", text),
            AppError::Calendar(text) => ("Calendar error: ", text),
            AppError::Audio(text) => ("Audio error: ", text),
            AppError::InvalidInput(text) => ("Invalid input: ", text),
            AppError::Config(text) => ("Configuration error: ", text),
            AppError::OperationFailed(text) => ("Operation failed: ", text),
            AppError::NotFound(text) => ("Not found: ", text),
            AppError::PermissionDenied(text) => ("Permission denied: ", text),
        };
        let mut text = String::from_str(label);
        text.append(detail.as_str());
        text
    }

    /// Whether the error's text holds nothing of the user's data.
    pub fn is_pii_safe(&self) -> (b: bool)
        ensures
            b == self.pii_safe(),
    {
        match self {
            AppError::Database(_) | AppError::Network(_) | AppError::Anyhow(_) => false,
            _ => true,
        }
    }

    /// The message that may be shown anywhere.
    pub fn to_safe_string(&self) -> (text: String)
        ensures
            text@ == self.safe_text(),
    {
        match self {
            AppError::Database(_) => String::from_str("Database operation failed"),
            AppError::Network(_) => String::from_str("Network request failed"),
            AppError::Anyhow(_) => String::from_str("Operation failed"),
            _ => self.message(),
        }
    }
}

} // verus!
