use vstd::prelude::*;
use crate::location::ErrorLocation;

verus! {

/// What can be observed of an error value: its type identity, name,
/// description, optional detail, optional location and optional cause.
pub struct ErrorRecord {
    pub id: Seq<char>,
    pub name: Seq<char>,
    pub description: Seq<char>,
    pub detail: Option<Seq<char>>,
    pub location: Option<(Seq<char>, u64, u64)>,
    pub cause: Option<Box<ErrorRecord>>,
}

/// The view of an optional text.
pub open spec fn text_of(s: Option<String>) -> Option<Seq<char>> {
    match s {
        Some(t) => Some(t@),
        None => None,
    }
}

/// The view of an optional location.
pub open spec fn location_of(l: Option<ErrorLocation>) -> Option<(Seq<char>, u64, u64)> {
    match l {
        Some(x) => Some(x@),
        None => None,
    }
}

/// The capability every error value has.
///
/// Each concrete error type has an identity of its own, `type_id`, which
/// the checked downcast compares; `cause` and `location` are absent unless
/// the type says otherwise.
pub trait Error: Sized {
    /// The identity of the implementing type.
    spec fn id_spec() -> Seq<char>;

    spec fn name_spec(&self) -> Seq<char>;

    spec fn description_spec(&self) -> Seq<char>;

    spec fn detail_spec(&self) -> Option<Seq<char>>;

    spec fn cause_spec(&self) -> Option<ErrorRecord>;

    spec fn location_spec(&self) -> Option<(Seq<char>, u64, u64)>;

    /// The runtime identity of the implementing type.
    fn type_id() -> (r: &'static str)
        ensures
            r@ == Self::id_spec(),
    ;

    /// The name of the error.
    fn name(&self) -> (r: &str)
        ensures
            r@ == self.name_spec(),
    ;

    /// The description of the error.
    fn description(&self) -> (r: &str)
        ensures
            r@ == self.description_spec(),
    ;

    /// A detailed description of the error, usually with dynamic information.
    fn detail(&self) -> (r: Option<String>)
        ensures
            text_of(r) == self.detail_spec(),
    ;

    /// The lower-level cause of this error, if any.
    fn cause(&self) -> (r: Option<&AnyError>)
        ensures
            r is Some <==> self.cause_spec() is Some,
            r matches Some(c) ==> c.record() == self.cause_spec().unwrap(),
    ;

    /// The location of this error, if available.
    fn location(&self) -> (r: Option<ErrorLocation>)
        ensures
            location_of(r) == self.location_spec(),
    ;
}

/// The record of a concrete error value, with the identity of its type.
pub open spec fn record_of<E: Error>(e: &E) -> ErrorRecord {
    ErrorRecord {
        id: E::id_spec(),
        name: e.name_spec(),
        description: e.description_spec(),
        detail: e.detail_spec(),
        location: e.location_spec(),
        cause: match e.cause_spec() {
            Some(c) => Some(Box::new(c)),
            None => None,
        },
    }
}

/// An error value seen through the common capability only.
///
/// It keeps the identity of the concrete type it was taken from, so that it
/// can be checked against a requested type later, and owns its cause.
pub struct AnyError {
    pub id: String,
    pub name: String,
    pub description: String,
    pub detail: Option<String>,
    pub location: Option<ErrorLocation>,
    pub cause: Option<Box<AnyError>>,
}

/// The result of downcasting a record to the type with identity `id`.
pub open spec fn cast_spec(r: ErrorRecord, id: Seq<char>) -> Option<ErrorRecord> {
    if r.id == id {
        Some(r)
    } else {
        None
    }
}

/// The number of links in a cause chain, the error itself included.
pub open spec fn chain_len(r: ErrorRecord) -> nat
    decreases r,
{
    match r.cause {
        Some(c) => 1 + chain_len(*c),
        None => 1,
    }
}

pub(crate) fn copy_text(s: &Option<String>) -> (r: Option<String>)
    ensures
        text_of(r) == text_of(*s),
{
    match s {
        Some(t) => Some(t.clone()),
        None => None,
    }
}

pub(crate) fn copy_location(l: &Option<ErrorLocation>) -> (r: Option<ErrorLocation>)
    ensures
        location_of(r) == location_of(*l),
{
    match l {
        Some(x) => Some(x.duplicate()),
        None => None,
    }
}

impl AnyError {
    /// What can be observed of this error.
    pub open spec fn record(&self) -> ErrorRecord
        decreases self,
    {
        ErrorRecord {
            id: self.id@,
            name: self.name@,
            description: self.description@,
            detail: text_of(self.detail),
            location: location_of(self.location),
            cause: match self.cause {
                Some(c) => Some(Box::new(c.record())),
                None => None,
            },
        }
    }

    /// Returns a copy of this error and its whole cause chain.
    pub fn duplicate(&self) -> (r: AnyError)
        ensures
            r.record() == self.record(),
        decreases self,
    {
        let cause = match &self.cause {
            Some(c) => Some(Box::new(c.duplicate())),
            None => None,
        };
        AnyError {
            id: self.id.clone(),
            name: self.name.clone(),
            description: self.description.clone(),
            detail: copy_text(&self.detail),
            location: copy_location(&self.location),
            cause,
        }
    }

    /// Takes the observable content of a concrete error value.
    pub fn of<E: Error>(e: &E) -> (r: AnyError)
        ensures
            r.record() == record_of(e),
    {
        let cause = match e.cause() {
            Some(c) => Some(Box::new(c.duplicate())),
            None => None,
        };
        AnyError {
            id: E::type_id().to_owned(),
            name: e.name().to_owned(),
            description: e.description().to_owned(),
            detail: e.detail(),
            location: e.location(),
            cause,
        }
    }

    /// The identity of the concrete type this error was taken from.
    pub fn error_type(&self) -> (r: &str)
        ensures
            r@ == self.record().id,
    {
        self.id.as_str()
    }

    /// The name of the error.
    pub fn name(&self) -> (r: &str)
        ensures
            r@ == self.record().name,
    {
        self.name.as_str()
    }

    /// The description of the error.
    pub fn description(&self) -> (r: &str)
        ensures
            r@ == self.record().description,
    {
        self.description.as_str()
    }

    /// The detail of the error, if any.
    pub fn detail(&self) -> (r: Option<String>)
        ensures
            text_of(r) == self.record().detail,
    {
        copy_text(&self.detail)
    }

    /// The lower-level cause of this error, if any.
    pub fn cause(&self) -> (r: Option<&AnyError>)
        ensures
            r is Some <==> self.record().cause is Some,
            r matches Some(c) ==> c.record() == *self.record().cause.unwrap(),
            r matches Some(c) ==> self.cause == Some(Box::new(*c)),
    {
        match &self.cause {
            Some(c) => Some(&**c),
            None => None,
        }
    }

    /// The location of the error, if any.
    pub fn location(&self) -> (r: Option<ErrorLocation>)
        ensures
            location_of(r) == self.record().location,
    {
        copy_location(&self.location)
    }
}

} // verus!

verus! {

/// Extra methods on abstract error references.
pub trait ErrorExt<'a>: Sized {
    /// What can be observed of the referenced error.
    spec fn observed(self) -> ErrorRecord;

    /// Recovers the referenced error as one of concrete type `E`: present
    /// exactly when it was taken from a value of type `E`.
    fn cast<E: Error>(self) -> (r: Option<&'a AnyError>)
        ensures
            r is Some <==> cast_spec(self.observed(), E::id_spec()) is Some,
            r matches Some(x) ==> cast_spec(self.observed(), E::id_spec()) == Some(x.record()),
    ;
}

impl<'a> ErrorExt<'a> for &'a AnyError {
    open spec fn observed(self) -> ErrorRecord {
        self.record()
    }

    fn cast<E: Error>(self) -> (r: Option<&'a AnyError>)
        ensures
            r matches Some(x) ==> x == self,
    {
        let wanted = E::type_id().to_owned();
        if self.id == wanted {
            Some(self)
        } else {
            None
        }
    }
}

} // verus!
