use vstd::prelude::*;

verus! {

/// An error that can never happen: the type has no values.
///
/// It stands as the error type of an operation whose signature must be
/// fallible but which cannot fail. Its one field is of `Infallible`, which
/// has no values either, and is private: nothing can build one.
#[derive(Debug, Clone, Copy, PartialEq, Eq)]
pub struct NeverErr(core::convert::Infallible);

/// An error value tagged with how it is to be treated.
#[derive(Debug, PartialEq, Eq, Clone)]
pub enum FatalError<E> {
    /// Recoverable: the caller may continue, retry or fall back.
    Error(E),
    /// Terminal: the caller must propagate it and not try to recover.
    Fatal(E),
}

impl<E> FatalError<E> {
    /// The payload, whatever the tag.
    pub open spec fn inner(self) -> E {
        match self {
            FatalError::Error(x) => x,
            FatalError::Fatal(x) => x,
        }
    }

    /// The same payload, tagged fatal.
    pub open spec fn escalated(self) -> Self {
        FatalError::Fatal(self.inner())
    }

    /// The same payload, tagged recoverable.
    pub open spec fn deescalated(self) -> Self {
        FatalError::Error(self.inner())
    }

    /// Returns true if this error is not fatal.
    pub fn is_error(&self) -> (r: bool)
        ensures
            r == (*self is Error),
    {
        match self {
            FatalError::Error(_) => true,
            FatalError::Fatal(_) => false,
        }
    }

    /// Returns true if this error is fatal.
    pub fn is_fatal(&self) -> (r: bool)
        ensures
            r == (*self is Fatal),
    {
        match self {
            FatalError::Error(_) => false,
            FatalError::Fatal(_) => true,
        }
    }

    /// The word that names this error's severity when it is shown:
    /// `Error` or `Fatal Error`.
    pub fn severity_label(&self) -> (r: &'static str)
        ensures
            r@ == (if *self is Fatal { "Fatal Error"@ } else { "Error"@ }),
    {
        match self {
            FatalError::Error(_) => "Error",
            FatalError::Fatal(_) => "Fatal Error",
        }
    }

    /// Drops the tag and returns the payload.
    pub fn into_inner(self) -> (r: E)
        ensures
            r == self.inner(),
    {
        match self {
            FatalError::Error(x) => x,
            FatalError::Fatal(x) => x,
        }
    }

    /// Applies `f` to the payload and keeps the tag.
    pub fn map<E2, F>(self, f: F) -> (r: FatalError<E2>)
        where
            F: FnOnce(E) -> E2,
        requires
            f.requires((self.inner(),)),
        ensures
            (r is Fatal) == (self is Fatal),
            f.ensures((self.inner(),), r.inner()),
    {
        match self {
            FatalError::Error(x) => FatalError::Error(f(x)),
            FatalError::Fatal(x) => FatalError::Fatal(f(x)),
        }
    }

    /// Makes this error fatal.
    pub fn escalate(self) -> (r: Self)
        ensures
            r == self.escalated(),
    {
        FatalError::Fatal(self.into_inner())
    }

    /// Makes this error non fatal.
    pub fn deescalate(self) -> (r: Self)
        ensures
            r == self.deescalated(),
    {
        FatalError::Error(self.into_inner())
    }

    /// Returns `Ok` with the payload of a non fatal error, and a fatal error
    /// as it is in `Err`.
    pub fn fatality(self) -> (r: Result<E, Self>)
        ensures
            self is Error ==> r == Ok::<E, Self>(self.inner()),
            self is Fatal ==> r == Err::<E, Self>(self),
    {
        match self {
            FatalError::Error(x) => Ok(x),
            FatalError::Fatal(x) => Err(FatalError::Fatal(x)),
        }
    }

    /// Returns `Ok` with the payload of a non fatal error, and `Err` with the
    /// payload of a fatal one.
    pub fn recover(self) -> (r: Result<E, E>)
        ensures
            self is Error ==> r == Ok::<E, E>(self.inner()),
            self is Fatal ==> r == Err::<E, E>(self.inner()),
    {
        match self {
            FatalError::Error(x) => Ok(x),
            FatalError::Fatal(x) => Err(x),
        }
    }

    /// Recovers from a non fatal error with `f`; a fatal error is returned as
    /// it is, and `f` is not called.
    pub fn map_error<T, F>(self, f: F) -> (r: Result<T, Self>)
        where
            F: FnOnce(E) -> Result<T, Self>,
        requires
            self is Error ==> f.requires((self.inner(),)),
        ensures
            self is Error ==> f.ensures((self.inner(),), r),
            self is Fatal ==> r == Err::<T, Self>(self),
    {
        match self {
            FatalError::Error(x) => f(x),
            FatalError::Fatal(x) => Err(FatalError::Fatal(x)),
        }
    }

    /// Recovers from a fatal error with `f`; a non fatal error is returned as
    /// it is, and `f` is not called.
    pub fn map_fatal<T, F>(self, f: F) -> (r: Result<T, Self>)
        where
            F: FnOnce(E) -> Result<T, Self>,
        requires
            self is Fatal ==> f.requires((self.inner(),)),
        ensures
            self is Fatal ==> f.ensures((self.inner(),), r),
            self is Error ==> r == Err::<T, Self>(self),
    {
        match self {
            FatalError::Error(x) => Err(FatalError::Error(x)),
            FatalError::Fatal(x) => f(x),
        }
    }

    /// Handles the payload with `f` whatever the tag.
    pub fn and_then<T, F>(self, f: F) -> (r: Result<T, Self>)
        where
            F: FnOnce(E) -> Result<T, Self>,
        requires
            f.requires((self.inner(),)),
        ensures
            f.ensures((self.inner(),), r),
    {
        f(self.into_inner())
    }
}

} // verus!
