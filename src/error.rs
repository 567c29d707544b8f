//! The two ways a wire-to-domain conversion can fail, and the spec helpers
//! that say which failure a wire value meets first.
use vstd::prelude::*;

verus! {

/// The lower-level failure wrapped by a conversion error.
#[derive(Debug, Clone, Copy, PartialEq, Eq, Structural)]
pub enum SourceError {
    /// An integer did not fit the width or sign of its target.
    IntegerOutOfRange,
    /// A byte buffer that should hold text is not valid UTF-8.
    InvalidUtf8,
    /// A byte buffer for a fixed-length identifier has the wrong length.
    WrongLength,
}

/// What a conversion error means: a named field was absent, or a
/// lower-level conversion failed.
pub enum ConversionFailure {
    MissingField(Seq<char>),
    Source(SourceError),
}

#[derive(Debug, Clone, Copy)]
enum Failure {
    Missing(&'static str),
    Source(SourceError),
}

/// The error of every wire-to-domain conversion.
#[derive(Debug, Clone, Copy)]
pub struct TryFromProtoError {
    failure: Failure,
}

impl View for TryFromProtoError {
    type V = ConversionFailure;

    closed spec fn view(&self) -> ConversionFailure {
        match self.failure {
            Failure::Missing(f) => ConversionFailure::MissingField(f@),
            Failure::Source(s) => ConversionFailure::Source(s),
        }
    }
}

/// The failure for an absent field named `name`.
pub open spec fn missing(name: &str) -> Option<ConversionFailure> {
    Some(ConversionFailure::MissingField(name@))
}

/// The first of two checks that fails.
pub open spec fn either(first: Option<ConversionFailure>, then: Option<ConversionFailure>) -> Option<
    ConversionFailure,
> {
    if first is Some {
        first
    } else {
        then
    }
}

/// The failure of a field the domain needs: absent, or failing `error`.
pub open spec fn required<W>(
    field: Option<W>,
    name: &str,
    error: spec_fn(W) -> Option<ConversionFailure>,
) -> Option<ConversionFailure> {
    match field {
        None => missing(name),
        Some(w) => error(w),
    }
}

/// The failure of a field the domain may lack: only its content can fail.
pub open spec fn optional<W>(
    field: Option<W>,
    error: spec_fn(W) -> Option<ConversionFailure>,
) -> Option<ConversionFailure> {
    match field {
        None => None,
        Some(w) => error(w),
    }
}

impl TryFromProtoError {
    /// A required field, discriminant or timestamp named `field` was absent.
    pub fn missing(field: &'static str) -> (r: Self)
        ensures
            r@ == ConversionFailure::MissingField(field@),
    {
        TryFromProtoError { failure: Failure::Missing(field) }
    }

    /// A lower-level conversion failed with `error`.
    pub fn from_error(error: SourceError) -> (r: Self)
        ensures
            r@ == ConversionFailure::Source(error),
    {
        TryFromProtoError { failure: Failure::Source(error) }
    }

    /// The name of the absent field, when that is the failure.
    pub fn missing_field(&self) -> (r: Option<&'static str>)
        ensures
            match self@ {
                ConversionFailure::MissingField(f) => r matches Some(n) && n@ == f,
                ConversionFailure::Source(_) => r is None,
            },
    {
        match self.failure {
            Failure::Missing(f) => Some(f),
            Failure::Source(_) => None,
        }
    }

    /// The wrapped lower-level failure, when that is the failure.
    pub fn source(&self) -> (r: Option<SourceError>)
        ensures
            match self@ {
                ConversionFailure::MissingField(_) => r is None,
                ConversionFailure::Source(s) => r == Some(s),
            },
    {
        match self.failure {
            Failure::Missing(_) => None,
            Failure::Source(s) => Some(s),
        }
    }
}

} // verus!
