//! The kinds of refusal that the library's errors fall into.

use vstd::prelude::*;
use crate::birthdays::BirthdayError;
use crate::economy::EconomyError;
use crate::suggestions::SuggestionError;

verus! {

/// What kind of refusal an error is. Every refusal is reported to the member
/// who asked, and none changes any state.
#[derive(Clone, Copy, Debug, PartialEq, Eq, Structural)]
pub enum ErrorKind {
    /// The request itself is wrong: a date that does not exist, a stake of
    /// zero or above the balance, a booster that is not on sale.
    Validation,
    /// The request comes too soon.
    Cooldown,
    /// The member may not do this.
    Permission,
    /// What the request is about is not there.
    NotFound,
}

/// The kind of an economy refusal.
pub fn economy_error_kind(error: EconomyError) -> (kind: ErrorKind)
    ensures
        kind == match error {
            EconomyError::Cooldown { .. } => ErrorKind::Cooldown,
            EconomyError::InsufficientFunds => ErrorKind::Validation,
            EconomyError::UnknownBooster => ErrorKind::Validation,
        },
{
    match error {
        EconomyError::Cooldown { .. } => ErrorKind::Cooldown,
        EconomyError::InsufficientFunds => ErrorKind::Validation,
        EconomyError::UnknownBooster => ErrorKind::Validation,
    }
}

/// The kind of a suggestion refusal; a second vote is a matter of
/// permission.
pub fn suggestion_error_kind(error: SuggestionError) -> (kind: ErrorKind)
    ensures
        kind == match error {
            SuggestionError::NotFound => ErrorKind::NotFound,
            SuggestionError::Permission => ErrorKind::Permission,
            SuggestionError::DuplicateVote => ErrorKind::Permission,
        },
{
    match error {
        SuggestionError::NotFound => ErrorKind::NotFound,
        SuggestionError::Permission => ErrorKind::Permission,
        SuggestionError::DuplicateVote => ErrorKind::Permission,
    }
}

/// The kind of a birthday refusal.
pub fn birthday_error_kind(error: BirthdayError) -> (kind: ErrorKind)
    ensures
        kind == match error {
            BirthdayError::InvalidDate => ErrorKind::Validation,
            BirthdayError::NotFound => ErrorKind::NotFound,
        },
{
    match error {
        BirthdayError::InvalidDate => ErrorKind::Validation,
        BirthdayError::NotFound => ErrorKind::NotFound,
    }
}

} // verus!
