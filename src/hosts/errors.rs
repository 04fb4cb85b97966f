//! The ways an upload can fail.
use vstd::prelude::*;
use vstd::string::StringExecFns;

verus! {

/// The file is larger than the host accepts.
#[derive(Debug, PartialEq, Eq, Structural)]
pub struct FileSizeLimitError;

impl FileSizeLimitError {
    pub fn message(&self) -> (r: String)
        ensures
            r@ == "file exceeds host's filesize limit"@,
    {
        String::from_str("file exceeds host's filesize limit")
    }
}

/// A host answered with a status other than success.
#[derive(Debug, PartialEq, Eq, Structural)]
pub struct BadAPIResponseError;

impl BadAPIResponseError {
    pub fn message(&self) -> (r: String)
        ensures
            r@ == "the api reported failure"@,
    {
        String::from_str("the api reported failure")
    }
}

/// A required config key is absent; holds the key.
pub struct SectionKeyMissingError {
    message: String,
}

impl SectionKeyMissingError {
    pub fn new(message: &str) -> (r: Self)
        ensures
            r.key() == message@,
    {
        SectionKeyMissingError { message: String::from_str(message) }
    }

    pub closed spec fn key(&self) -> Seq<char> {
        self.message@
    }

    /// The key that is missing.
    pub fn key_name(&self) -> (r: String)
        ensures
            r@ == self.key(),
    {
        self.message.clone()
    }

    pub fn message(&self) -> (r: String)
        ensures
            r@ == "required section key \""@ + self.key() + "\" is missing from the config file"@,
    {
        let r = String::from_str("required section key \"");
        let r = r.concat(self.message.as_str());
        r.concat("\" is missing from the config file")
    }
}

/// A required config key holds the empty string; holds the key.
pub struct SectionValueEmptyError {
    message: String,
}

impl SectionValueEmptyError {
    pub fn new(message: &str) -> (r: Self)
        ensures
            r.key() == message@,
    {
        SectionValueEmptyError { message: String::from_str(message) }
    }

    pub closed spec fn key(&self) -> Seq<char> {
        self.message@
    }

    /// The key whose value is empty.
    pub fn key_name(&self) -> (r: String)
        ensures
            r@ == self.key(),
    {
        self.message.clone()
    }

    pub fn message(&self) -> (r: String)
        ensures
            r@ == "required value for key \""@ + self.key() + "\" is empty in config file"@,
    {
        let r = String::from_str("required value for key \"");
        let r = r.concat(self.message.as_str());
        r.concat("\" is empty in config file")
    }
}

/// Every failure of an upload attempt, tagged by kind.
pub enum UploadError {
    FileSizeLimit(FileSizeLimitError),
    BadApiResponse(BadAPIResponseError),
    KeyMissing(SectionKeyMissingError),
    ValueEmpty(SectionValueEmptyError),
    /// The request could not be made, or the host answered with a non-2xx status.
    Transport(String),
    /// The answer could not be read: malformed JSON, or a pattern not found.
    Parse(String),
}

/// What an error says, as plain values.
pub enum ErrorView {
    FileSizeLimit,
    BadApiResponse,
    KeyMissing(Seq<char>),
    ValueEmpty(Seq<char>),
    Transport(Seq<char>),
    Parse(Seq<char>),
}

impl View for UploadError {
    type V = ErrorView;

    open spec fn view(&self) -> ErrorView {
        match self {
            UploadError::FileSizeLimit(_) => ErrorView::FileSizeLimit,
            UploadError::BadApiResponse(_) => ErrorView::BadApiResponse,
            UploadError::KeyMissing(e) => ErrorView::KeyMissing(e.key()),
            UploadError::ValueEmpty(e) => ErrorView::ValueEmpty(e.key()),
            UploadError::Transport(m) => ErrorView::Transport(m@),
            UploadError::Parse(m) => ErrorView::Parse(m@),
        }
    }
}

/// A missing or empty required config key ends the whole run; every other
/// failure ends only the current file.
pub open spec fn is_fatal_view(e: ErrorView) -> bool {
    e is KeyMissing || e is ValueEmpty
}

impl UploadError {
    pub fn is_fatal(&self) -> (r: bool)
        ensures
            r == is_fatal_view(self@),
    {
        match self {
            UploadError::KeyMissing(_) => true,
            UploadError::ValueEmpty(_) => true,
            _ => false,
        }
    }

    /// The text shown to the user for this failure.
    pub fn message(&self) -> (r: String)
        ensures
            self is FileSizeLimit ==> r@ == "file exceeds host's filesize limit"@,
            self is BadApiResponse ==> r@ == "the api reported failure"@,
            self matches UploadError::KeyMissing(e) ==> r@ == "required section key \""@ + e.key()
                + "\" is missing from the config file"@,
            self matches UploadError::ValueEmpty(e) ==> r@ == "required value for key \""@ + e.key()
                + "\" is empty in config file"@,
            self matches UploadError::Transport(m) ==> r@ == m@,
            self matches UploadError::Parse(m) ==> r@ == m@,
    {
        match self {
            UploadError::FileSizeLimit(e) => e.message(),
            UploadError::BadApiResponse(e) => e.message(),
            UploadError::KeyMissing(e) => e.message(),
            UploadError::ValueEmpty(e) => e.message(),
            UploadError::Transport(m) => m.clone(),
            UploadError::Parse(m) => m.clone(),
        }
    }
}

} // verus!
