use vstd::prelude::*;
use crate::error::{copy_text, text_of, AnyError, Error, ErrorRecord};
use crate::location::ErrorLocation;

verus! {

/// The broad class of an input/output failure.
#[derive(Clone, Copy, Debug, PartialEq, Eq)]
pub enum IoErrorKind {
    NotFound,
    PermissionDenied,
    EndOfFile,
    Other,
}

/// A low-level input/output failure, as plain values.
#[derive(Clone, Debug, PartialEq, Eq)]
pub struct IoError {
    pub kind: IoErrorKind,
    pub description: String,
    pub detail: Option<String>,
}

impl IoError {
    /// A failure of the given kind and description, with an optional detail.
    pub fn new(kind: IoErrorKind, description: String, detail: Option<String>) -> (r: IoError)
        ensures
            r.kind == kind,
            r.description@ == description@,
            text_of(r.detail) == text_of(detail),
    {
        IoError { kind, description, detail }
    }
}

impl Error for IoError {
    open spec fn id_spec() -> Seq<char> {
        "IoError"@
    }

    open spec fn name_spec(&self) -> Seq<char> {
        "IoError"@
    }

    open spec fn description_spec(&self) -> Seq<char> {
        self.description@
    }

    open spec fn detail_spec(&self) -> Option<Seq<char>> {
        text_of(self.detail)
    }

    open spec fn cause_spec(&self) -> Option<ErrorRecord> {
        None
    }

    open spec fn location_spec(&self) -> Option<(Seq<char>, u64, u64)> {
        None
    }

    fn type_id() -> (r: &'static str) {
        "IoError"
    }

    fn name(&self) -> (r: &str) {
        "IoError"
    }

    fn description(&self) -> (r: &str) {
        self.description.as_str()
    }

    fn detail(&self) -> (r: Option<String>) {
        copy_text(&self.detail)
    }

    fn cause(&self) -> (r: Option<&AnyError>) {
        None
    }

    fn location(&self) -> (r: Option<ErrorLocation>) {
        None
    }
}

} // verus!
