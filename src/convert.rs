use vstd::prelude::*;
use crate::error::Error;
use crate::location::ErrorLocation;

verus! {

/// Data that most concrete error types share: a kind, a static description,
/// an optional detail and an optional location. A concrete type usually
/// keeps it behind one `Box`, so that the error itself stays one word.
pub struct CommonErrorData<K: Eq> {
    pub kind: K,
    pub description: &'static str,
    pub detail: Option<String>,
    pub location: Option<ErrorLocation>,
}

impl<K: Eq> CommonErrorData<K> {
    /// Common data with the given kind, description and location, and no
    /// detail.
    pub fn new(kind: K, description: &'static str, location: Option<ErrorLocation>) -> (r:
        CommonErrorData<K>)
        ensures
            r.kind == kind,
            r.description == description,
            r.detail is None,
            r.location == location,
    {
        CommonErrorData { kind, description, detail: None, location }
    }

    /// The same data with `detail` as its detail.
    pub fn with_detail(self, detail: String) -> (r: CommonErrorData<K>)
        ensures
            r.kind == self.kind,
            r.description == self.description,
            r.detail == Some(detail),
            r.location == self.location,
    {
        CommonErrorData { detail: Some(detail), ..self }
    }
}

/// Builds an error from arguments; `fail` goes through it.
///
/// The arguments come as a tuple, the location of the failure separately.
pub trait ConstructError<A>: Sized {
    /// Whether `r` is an error built from `args` at `loc`.
    spec fn constructs(args: A, loc: Option<ErrorLocation>, r: Self) -> bool;

    fn construct_error(args: A, loc: Option<ErrorLocation>) -> (r: Self)
        ensures
            Self::constructs(args, loc, r),
    ;
}

/// Converts an error of another type into this one; `propagate` goes
/// through it.
pub trait FromError<E>: Sized {
    /// Whether `r` is the error converted from `err` at `loc`.
    spec fn converts(err: E, loc: Option<ErrorLocation>, r: Self) -> bool;

    fn from_error(err: E, loc: Option<ErrorLocation>) -> (r: Self)
        ensures
            Self::converts(err, loc, r),
    ;
}

/// Each type converts to itself, unchanged; the location is ignored.
impl<E> FromError<E> for E {
    open spec fn converts(err: E, loc: Option<ErrorLocation>, r: E) -> bool {
        r == err
    }

    fn from_error(err: E, loc: Option<ErrorLocation>) -> (r: E) {
        err
    }
}

/// A single error as argument is converted with `FromError`.
impl<S: Error, E: FromError<S>> ConstructError<(S,)> for E {
    open spec fn constructs(args: (S,), loc: Option<ErrorLocation>, r: E) -> bool {
        E::converts(args.0, loc, r)
    }

    fn construct_error(args: (S,), loc: Option<ErrorLocation>) -> (r: E) {
        E::from_error(args.0, loc)
    }
}

/// Common data is built directly from a kind and a description, with no
/// detail.
impl<K: Eq> ConstructError<(K, &'static str)> for CommonErrorData<K> {
    open spec fn constructs(
        args: (K, &'static str),
        loc: Option<ErrorLocation>,
        r: CommonErrorData<K>,
    ) -> bool {
        &&& r.kind == args.0
        &&& r.description == args.1
        &&& r.detail is None
        &&& r.location == loc
    }

    fn construct_error(args: (K, &'static str), loc: Option<ErrorLocation>) -> (r: CommonErrorData<
        K,
    >) {
        CommonErrorData::new(args.0, args.1, loc)
    }
}

/// The location of a failure where capture is enabled, and none where it
/// is not.
pub fn capture_location(enabled: bool, file: String, line: u64, col: u64) -> (r: Option<
    ErrorLocation,
>)
    ensures
        r is Some <==> enabled,
        r matches Some(l) ==> l@ == (file@, line, col),
{
    if enabled {
        Some(ErrorLocation::new(file, line, col))
    } else {
        None
    }
}

/// Fails with an error built from `args` at `loc`.
pub fn fail<T, A, E: ConstructError<A>>(args: A, loc: Option<ErrorLocation>) -> (r: Result<T, E>)
    ensures
        r matches Err(e) && E::constructs(args, loc, e),
{
    Err(E::construct_error(args, loc))
}

/// Passes a success on, and converts a failure into the caller's error
/// type at `loc`.
pub fn propagate<T, S, E: FromError<S>>(res: Result<T, S>, loc: Option<ErrorLocation>) -> (r:
    Result<T, E>)
    ensures
        match res {
            Ok(v) => r == Ok::<T, E>(v),
            Err(s) => r matches Err(e) && E::converts(s, loc, e),
        },
{
    match res {
        Ok(v) => Ok(v),
        Err(s) => Err(E::from_error(s, loc)),
    }
}

} // verus!
