//! Errors shared by the storage-facing operations.
use vstd::prelude::*;

verus! {

/// Why a storage operation failed.
#[derive(Debug, Clone, Copy, PartialEq, Eq, Structural)]
pub enum ModelError {
    /// No database connection could be had from the pool.
    PoolError,
    /// The database refused or failed a query.
    DieselError,
    /// A record that had to exist was absent.
    NotFound,
    /// A file handed in for storage does not exist.
    FileNotFoundError,
    /// The attachment store failed.
    AttachmentStorageError,
}

/// How a query for at most one row ended, as the database layer reports it.
#[derive(Debug, Clone, Copy, PartialEq, Eq, Structural)]
pub enum QueryFailure {
    /// The query matched no row.
    NotFound,
    /// The query failed.
    Failed,
}

/// Turns the database layer's "no row" failure into an empty result, so that
/// absence is an ordinary answer and only real failures are errors.
pub fn r_to_opt<T>(r: Result<T, QueryFailure>) -> (out: Result<Option<T>, ModelError>)
    ensures
        match r {
            Ok(t) => out == Ok::<Option<T>, ModelError>(Some(t)),
            Err(QueryFailure::NotFound) => out == Ok::<Option<T>, ModelError>(None),
            Err(QueryFailure::Failed) => out == Err::<Option<T>, ModelError>(ModelError::DieselError),
        },
{
    match r {
        Ok(t) => Ok(Some(t)),
        Err(QueryFailure::NotFound) => Ok(None),
        Err(QueryFailure::Failed) => Err(ModelError::DieselError),
    }
}

} // verus!

verus! {

/// Where a jam stands on its way to publication.
#[derive(Debug, Clone, Copy, PartialEq, Eq, Structural)]
pub enum ApprovalState {
    Draft,
    Submitted,
    Approved,
    Rejected,
}

/// A text that names no approval state.
pub enum ApprovalStateParseError {
    UnrecognizedApprovalState(String),
}

/// How an approval state is written for people.
pub open spec fn human_name(s: ApprovalState) -> Seq<char> {
    match s {
        ApprovalState::Draft => "Draft"@,
        ApprovalState::Submitted => "Submitted"@,
        ApprovalState::Approved => "Approved"@,
        ApprovalState::Rejected => "Rejected"@,
    }
}

/// How an approval state is stored.
pub open spec fn state_code(s: ApprovalState) -> i32 {
    match s {
        ApprovalState::Draft => 0,
        ApprovalState::Submitted => 2,
        ApprovalState::Approved => 4,
        ApprovalState::Rejected => 8,
    }
}

impl ApprovalState {
    /// Reads the name people use for a state; any other text is refused.
    pub fn from_human_str(s: &str) -> (r: Result<ApprovalState, ApprovalStateParseError>)
        ensures
            match r {
                Ok(a) => human_name(a) == s@,
                Err(ApprovalStateParseError::UnrecognizedApprovalState(t)) => t@ == s@ && (forall|
                    a: ApprovalState,
                | human_name(a) != s@),
            },
    {
        let text = String::from_str(s);
        if text == String::from_str("Draft") {
            Ok(ApprovalState::Draft)
        } else if text == String::from_str("Submitted") {
            Ok(ApprovalState::Submitted)
        } else if text == String::from_str("Approved") {
            Ok(ApprovalState::Approved)
        } else if text == String::from_str("Rejected") {
            Ok(ApprovalState::Rejected)
        } else {
            assert forall|a: ApprovalState| human_name(a) != s@ by {
                match a {
                    ApprovalState::Draft => {},
                    ApprovalState::Submitted => {},
                    ApprovalState::Approved => {},
                    ApprovalState::Rejected => {},
                }
            }
            Err(ApprovalStateParseError::UnrecognizedApprovalState(text))
        }
    }

    /// The name people use for the state.
    pub fn to_human_str(&self) -> (r: String)
        ensures
            r@ == human_name(*self),
    {
        match self {
            ApprovalState::Draft => String::from_str("Draft"),
            ApprovalState::Submitted => String::from_str("Submitted"),
            ApprovalState::Approved => String::from_str("Approved"),
            ApprovalState::Rejected => String::from_str("Rejected"),
        }
    }

    /// The stored code of the state.
    pub fn to_code(&self) -> (r: i32)
        ensures
            r == state_code(*self),
    {
        match self {
            ApprovalState::Draft => 0,
            ApprovalState::Submitted => 2,
            ApprovalState::Approved => 4,
            ApprovalState::Rejected => 8,
        }
    }

    /// The state a stored code denotes, if any.
    pub fn from_code(code: i32) -> (r: Option<ApprovalState>)
        ensures
            match r {
                Some(a) => state_code(a) == code,
                None => forall|a: ApprovalState| state_code(a) != code,
            },
    {
        if code == 0 {
            Some(ApprovalState::Draft)
        } else if code == 2 {
            Some(ApprovalState::Submitted)
        } else if code == 4 {
            Some(ApprovalState::Approved)
        } else if code == 8 {
            Some(ApprovalState::Rejected)
        } else {
            None
        }
    }
}

} // verus!
