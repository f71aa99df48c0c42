//! Errors of the settings domain, of its store and of its application layer.

use vstd::prelude::*;

verus! {

/// A rule of the settings domain was broken.
#[derive(Clone, Copy, Debug, PartialEq, Eq, Structural)]
pub enum DomainError {
    InvalidLocale,
}

/// The settings store failed; the text is the store's account of it.
#[derive(Clone, Debug)]
pub enum RepositoryError {
    Database(String),
}

/// Why a settings operation failed.
#[derive(Clone, Debug)]
pub enum ApplicationError {
    Forbidden,
    InvalidLocale,
    InvalidAccountId,
    Persistence(RepositoryError),
}

impl ApplicationError {
    /// How this error reads.
    pub fn message(&self) -> (r: &'static str)
        ensures
            r@ == (match self {
                ApplicationError::Forbidden => "Forbidden"@,
                ApplicationError::InvalidLocale => "Invalid locale"@,
                ApplicationError::InvalidAccountId => "Invalid account id"@,
                ApplicationError::Persistence(_) => "Persistence failure"@,
            }),
    {
        match self {
            ApplicationError::Forbidden => "Forbidden",
            ApplicationError::InvalidLocale => "Invalid locale",
            ApplicationError::InvalidAccountId => "Invalid account id",
            ApplicationError::Persistence(_) => "Persistence failure",
        }
    }
}

} // verus!
