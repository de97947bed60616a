use vstd::prelude::*;
use crate::convert::{CommonErrorData, ConstructError, FromError};
use crate::error::{
    copy_location, copy_text, location_of, record_of, text_of, AnyError, Error, ErrorRecord,
};
use crate::io::IoError;
use crate::location::ErrorLocation;

verus! {

/// Why a lookup failed.
#[derive(Clone, Copy, Debug, PartialEq, Eq)]
pub enum LookupErrorKind {
    NotFound,
    NoPermission,
}

/// The failure of looking up an item of a command-line tool.
pub struct LookupError {
    pub data: Box<CommonErrorData<LookupErrorKind>>,
}

impl ConstructError<(LookupErrorKind, &'static str)> for LookupError {
    open spec fn constructs(
        args: (LookupErrorKind, &'static str),
        loc: Option<ErrorLocation>,
        r: LookupError,
    ) -> bool {
        &&& r.data.kind == args.0
        &&& r.data.description == args.1
        &&& r.data.detail is None
        &&& r.data.location == loc
    }

    fn construct_error(args: (LookupErrorKind, &'static str), loc: Option<ErrorLocation>) -> (r:
        LookupError) {
        LookupError { data: Box::new(CommonErrorData::new(args.0, args.1, loc)) }
    }
}

impl Error for LookupError {
    open spec fn id_spec() -> Seq<char> {
        "LookupError"@
    }

    open spec fn name_spec(&self) -> Seq<char> {
        "LookupError"@
    }

    open spec fn description_spec(&self) -> Seq<char> {
        self.data.description@
    }

    open spec fn detail_spec(&self) -> Option<Seq<char>> {
        text_of(self.data.detail)
    }

    open spec fn cause_spec(&self) -> Option<ErrorRecord> {
        None
    }

    open spec fn location_spec(&self) -> Option<(Seq<char>, u64, u64)> {
        location_of(self.data.location)
    }

    fn type_id() -> (r: &'static str) {
        "LookupError"
    }

    fn name(&self) -> (r: &str) {
        "LookupError"
    }

    fn description(&self) -> (r: &str) {
        self.data.description
    }

    fn detail(&self) -> (r: Option<String>) {
        copy_text(&self.data.detail)
    }

    fn cause(&self) -> (r: Option<&AnyError>) {
        None
    }

    fn location(&self) -> (r: Option<ErrorLocation>) {
        copy_location(&self.data.location)
    }
}

/// What went wrong in a command-line tool.
#[derive(Clone, Debug, PartialEq, Eq)]
pub enum CliErrorKind {
    NotFound,
    NoPermission,
    LookupFailed,
    InternalIoError(IoError),
}

/// The error of a command-line tool: common data, and the lower-level
/// error it was converted from, if any.
pub struct CliError {
    pub data: Box<CommonErrorData<CliErrorKind>>,
    pub cause: Option<Box<AnyError>>,
}

impl ConstructError<(CliErrorKind, &'static str)> for CliError {
    open spec fn constructs(
        args: (CliErrorKind, &'static str),
        loc: Option<ErrorLocation>,
        r: CliError,
    ) -> bool {
        &&& r.data.kind == args.0
        &&& r.data.description == args.1
        &&& r.data.detail is None
        &&& r.data.location == loc
        &&& r.cause is None
    }

    fn construct_error(args: (CliErrorKind, &'static str), loc: Option<ErrorLocation>) -> (r:
        CliError) {
        CliError { data: Box::new(CommonErrorData::new(args.0, args.1, loc)), cause: None }
    }
}

/// An input/output failure becomes the cause of a CLI error with a fixed
/// description.
impl FromError<IoError> for CliError {
    open spec fn converts(err: IoError, loc: Option<ErrorLocation>, r: CliError) -> bool {
        &&& r.data.kind == CliErrorKind::InternalIoError(err)
        &&& r.data.description@ == "an I/O error occurred"@
        &&& r.data.detail is None
        &&& r.data.location == loc
        &&& r.cause matches Some(c) && c.record() == record_of(&err)
    }

    fn from_error(err: IoError, loc: Option<ErrorLocation>) -> (r: CliError) {
        let cause = AnyError::of(&err);
        CliError {
            data: Box::new(
                CommonErrorData::new(
                    CliErrorKind::InternalIoError(err),
                    "an I/O error occurred",
                    loc,
                ),
            ),
            cause: Some(Box::new(cause)),
        }
    }
}

/// A failed lookup becomes the cause of a CLI error with a fixed
/// description.
impl FromError<LookupError> for CliError {
    open spec fn converts(err: LookupError, loc: Option<ErrorLocation>, r: CliError) -> bool {
        &&& r.data.kind == CliErrorKind::LookupFailed
        &&& r.data.description@ == "a lookup failed"@
        &&& r.data.detail is None
        &&& r.data.location == loc
        &&& r.cause matches Some(c) && c.record() == record_of(&err)
    }

    fn from_error(err: LookupError, loc: Option<ErrorLocation>) -> (r: CliError) {
        let cause = AnyError::of(&err);
        CliError {
            data: Box::new(
                CommonErrorData::new(CliErrorKind::LookupFailed, "a lookup failed", loc),
            ),
            cause: Some(Box::new(cause)),
        }
    }
}

impl Error for CliError {
    open spec fn id_spec() -> Seq<char> {
        "CliError"@
    }

    open spec fn name_spec(&self) -> Seq<char> {
        "CliError"@
    }

    open spec fn description_spec(&self) -> Seq<char> {
        self.data.description@
    }

    open spec fn detail_spec(&self) -> Option<Seq<char>> {
        text_of(self.data.detail)
    }

    open spec fn cause_spec(&self) -> Option<ErrorRecord> {
        match self.cause {
            Some(c) => Some(c.record()),
            None => None,
        }
    }

    open spec fn location_spec(&self) -> Option<(Seq<char>, u64, u64)> {
        location_of(self.data.location)
    }

    fn type_id() -> (r: &'static str) {
        "CliError"
    }

    fn name(&self) -> (r: &str) {
        "CliError"
    }

    fn description(&self) -> (r: &str) {
        self.data.description
    }

    fn detail(&self) -> (r: Option<String>) {
        copy_text(&self.data.detail)
    }

    fn cause(&self) -> (r: Option<&AnyError>) {
        match &self.cause {
            Some(c) => Some(&**c),
            None => None,
        }
    }

    fn location(&self) -> (r: Option<ErrorLocation>) {
        copy_location(&self.data.location)
    }
}

} // verus!
