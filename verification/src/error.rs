use vstd::prelude::*;

verus! {

/// The reasons for which a campaign refuses a request.
#[derive(Clone, Copy, Debug, PartialEq, Eq, Structural)]
pub enum Error {
    AlreadyInitialized,
    NotInitialized,
    DeadlinePassed,
    DeadlineNotPassed,
    GoalReached,
    GoalNotReached,
    Unauthorized,
    NoFundsToWithdraw,
    NoContribution,
}

/// The number by which an error is known on the ledger.
pub open spec fn error_code(e: Error) -> u32 {
    match e {
        Error::AlreadyInitialized => 1,
        Error::NotInitialized => 2,
        Error::DeadlinePassed => 3,
        Error::DeadlineNotPassed => 4,
        Error::GoalReached => 5,
        Error::GoalNotReached => 6,
        Error::Unauthorized => 7,
        Error::NoFundsToWithdraw => 8,
        Error::NoContribution => 9,
    }
}

impl Error {
    /// The ledger code of this error.
    pub fn code(&self) -> (c: u32)
        ensures
            c == error_code(*self),
    {
        match self {
            Error::AlreadyInitialized => 1,
            Error::NotInitialized => 2,
            Error::DeadlinePassed => 3,
            Error::DeadlineNotPassed => 4,
            Error::GoalReached => 5,
            Error::GoalNotReached => 6,
            Error::Unauthorized => 7,
            Error::NoFundsToWithdraw => 8,
            Error::NoContribution => 9,
        }
    }

    /// The error known on the ledger by `code`, if any.
    pub fn from_code(code: u32) -> (r: Option<Error>)
        ensures
            match r {
                Some(e) => error_code(e) == code,
                None => code < 1 || code > 9,
            },
    {
        match code {
            1 => Some(Error::AlreadyInitialized),
            2 => Some(Error::NotInitialized),
            3 => Some(Error::DeadlinePassed),
            4 => Some(Error::DeadlineNotPassed),
            5 => Some(Error::GoalReached),
            6 => Some(Error::GoalNotReached),
            7 => Some(Error::Unauthorized),
            8 => Some(Error::NoFundsToWithdraw),
            9 => Some(Error::NoContribution),
            _ => None,
        }
    }
}

} // verus!
