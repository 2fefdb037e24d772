//! Errors from the crates that Squire integrates with.

use std::rc::Rc;

use jiff::Error as JiffError;

use vstd::prelude::*;

verus! {

/// `jiff::Error`, an error from the `jiff` date and time crate.
#[verifier::external_type_specification]
#[verifier::external_body]
pub struct ExJiffError(JiffError);

/// `url::ParseError`, an error from parsing a URL with the `url` crate.
#[verifier::external_type_specification]
#[verifier::external_body]
pub struct ExUrlParseError(url::ParseError);

/// Trusted: `<jiff::Error as Clone>::clone`. `jiff::Error` derives `Clone`
/// over a single `Option<Arc<_>>` field, so the clone points at the same
/// shared error as the value cloned: the two are the same value.
pub assume_specification[ <JiffError as Clone>::clone ](error: &JiffError) -> (r: JiffError)
    ensures
        r == *error,
;

/// An error from a crate that Squire integrates with.
#[derive(Debug)]
pub enum IntegrationError {
    /// An error from the `jiff` crate.
    Jiff(JiffError),
    /// An error from the `url` crate.
    Url(url::ParseError),
}

impl Clone for IntegrationError {
    fn clone(&self) -> (r: Self)
        ensures
            r == *self,
    {
        match self {
            IntegrationError::Jiff(error) => IntegrationError::Jiff(error.clone()),
            IntegrationError::Url(error) => IntegrationError::Url(*error),
        }
    }
}

impl IntegrationError {
    /// `true` if this is a `jiff::Error`; `false` otherwise.
    pub fn is_jiff(&self) -> (r: bool)
        ensures
            r == (*self is Jiff),
    {
        match self {
            IntegrationError::Jiff(_) => true,
            _ => false,
        }
    }

    /// Access the `jiff::Error` contained in this [`IntegrationError`];
    /// `None` if this is not a `Jiff` error.
    pub fn as_jiff(&self) -> (r: Option<&JiffError>)
        ensures
            match *self {
                IntegrationError::Jiff(error) => r == Some(&error),
                _ => r is None,
            },
    {
        match self {
            IntegrationError::Jiff(error) => Some(error),
            _ => None,
        }
    }

    /// `true` if this is a `url::ParseError`; `false` otherwise.
    pub fn is_url(&self) -> (r: bool)
        ensures
            r == (*self is Url),
    {
        match self {
            IntegrationError::Url(_) => true,
            _ => false,
        }
    }

    /// Access the `url::ParseError` contained in this [`IntegrationError`];
    /// `None` if this is not a `Url` error.
    pub fn as_url(&self) -> (r: Option<&url::ParseError>)
        ensures
            match *self {
                IntegrationError::Url(error) => r == Some(&error),
                _ => r is None,
            },
    {
        match self {
            IntegrationError::Url(error) => Some(error),
            _ => None,
        }
    }
}

impl From<JiffError> for IntegrationError {
    fn from(error: JiffError) -> (r: Self) {
        IntegrationError::Jiff(error)
    }
}

impl vstd::std_specs::convert::FromSpecImpl<JiffError> for IntegrationError {
    open spec fn obeys_from_spec() -> bool {
        true
    }

    open spec fn from_spec(error: JiffError) -> Self {
        IntegrationError::Jiff(error)
    }
}

impl From<url::ParseError> for IntegrationError {
    fn from(error: url::ParseError) -> (r: Self) {
        IntegrationError::Url(error)
    }
}

impl vstd::std_specs::convert::FromSpecImpl<url::ParseError> for IntegrationError {
    open spec fn obeys_from_spec() -> bool {
        true
    }

    open spec fn from_spec(error: url::ParseError) -> Self {
        IntegrationError::Url(error)
    }
}

/// Wraps a member of an [`IntegrationError`] that is not cloneable in [`Rc`].
pub struct ErrorContainer<T>(pub Rc<T>);

impl<T> ErrorContainer<T> {
    /// Wrap an error in [`Rc`].
    pub fn new(error: T) -> (r: Self)
        ensures
            r.0 == error,
    {
        ErrorContainer(Rc::new(error))
    }
}

impl<T> AsRef<T> for ErrorContainer<T> {
    fn as_ref(&self) -> (r: &T)
        ensures
            *r == *self.0,
    {
        &*self.0
    }
}

impl<T> Clone for ErrorContainer<T> {
    fn clone(&self) -> (r: Self)
        ensures
            r == *self,
    {
        ErrorContainer(Rc::clone(&self.0))
    }
}

} // verus!
