//! The errors that the library's decisions produce, and a conversion from an
//! optional value to a result.
use vstd::prelude::*;

verus! {

/// An error that the library decides on from plain values.
#[derive(Debug)]
pub enum Error {
    /// The directory to initialize a project in exists already.
    DirectoryAlreadyExists(String),
    /// A changed path could not be made relative to the project root.
    PathDiffFailed,
    /// The service answered with this HTTP status.
    ResponseStatus(u16),
    /// The session secrets expired at this time, in seconds since the epoch.
    SecretsExpired(i64),
    /// The session's role is too low.
    InsufficentAuthorization,
    /// The id given for key generation is invalid or names a package.
    InvalidKeyGenerationTarget,
    /// The service says the session is not logged in.
    NotLoggedIn,
    /// The user is banned, for the reason given if any.
    UserIsBanned { reason: Option<String> },
    /// The service reported an error of its own.
    FumosclubAPI(String),
}

/// Turns an optional value into a result.
pub trait Context<T, E>: Sized {
    /// The value held, where there is one.
    spec fn held(&self) -> Option<T>;

    /// The value held, or `error` where there is none.
    fn context(self, error: E) -> (r: Result<T, E>)
        ensures
            match self.held() {
                Some(v) => r == Ok::<T, E>(v),
                None => r == Err::<T, E>(error),
            },
    ;

    /// The value held, or the error that `f` makes where there is none.
    fn with_context<F: FnOnce() -> E>(self, f: F) -> (r: Result<T, E>)
        requires
            self.held().is_none() ==> f.requires(()),
        ensures
            match self.held() {
                Some(v) => r == Ok::<T, E>(v),
                None => exists|e: E| f.ensures((), e) && r == Err::<T, E>(e),
            },
    ;
}

impl<T, E> Context<T, E> for Option<T> {
    open spec fn held(&self) -> Option<T> {
        *self
    }

    fn context(self, error: E) -> (r: Result<T, E>) {
        match self {
            Some(value) => Ok(value),
            None => Err(error),
        }
    }

    fn with_context<F: FnOnce() -> E>(self, f: F) -> (r: Result<T, E>) {
        match self {
            Some(value) => Ok(value),
            None => Err(f()),
        }
    }
}

} // verus!
