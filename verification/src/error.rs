//! The closed set of load failures and the numeric codes that the host sees.

use vstd::prelude::*;

verus! {

/// Why a load did not commit a policy set.
#[derive(Debug, Clone, Copy, PartialEq, Eq, Structural)]
pub enum Error {
    /// The text is valid UTF-8 but the policy engine rejects it.
    PolicyParsing(),
    /// The bytes before the terminator are not valid UTF-8.
    InvalidUtf8(),
    /// The store already holds a policy set.
    AlreadyLoaded(),
}

/// Code of a load that committed its policy set.
pub const CODE_SUCCESS: u32 = 0;

/// Code of [`Error::AlreadyLoaded`].
pub const CODE_ALREADY_LOADED: u32 = 1000;

/// Code of [`Error::InvalidUtf8`].
pub const CODE_INVALID_UTF8: u32 = 1001;

/// Code of [`Error::PolicyParsing`].
pub const CODE_POLICY_PARSING: u32 = 1002;

impl Error {
    /// The text that describes this failure.
    pub open spec fn message(self) -> Seq<char> {
        match self {
            Error::PolicyParsing() => "failed to parse policy"@,
            Error::InvalidUtf8() => "invalid utf-8 input"@,
            Error::AlreadyLoaded() => "policies already loaded"@,
        }
    }

    /// The code under which the host sees this failure.
    pub open spec fn code(self) -> u32 {
        match self {
            Error::AlreadyLoaded() => CODE_ALREADY_LOADED,
            Error::InvalidUtf8() => CODE_INVALID_UTF8,
            Error::PolicyParsing() => CODE_POLICY_PARSING,
        }
    }

    /// Describes the failure in words.
    pub fn to_string(&self) -> (text: String)
        ensures
            text@ == self.message(),
    {
        match self {
            Error::PolicyParsing() => "failed to parse policy".to_owned(),
            Error::InvalidUtf8() => "invalid utf-8 input".to_owned(),
            Error::AlreadyLoaded() => "policies already loaded".to_owned(),
        }
    }
}

/// The code that stands for the outcome of a load: zero for success, the
/// failure's own code otherwise.
pub open spec fn code_of(outcome: Result<(), Error>) -> u32 {
    match outcome {
        Ok(_) => CODE_SUCCESS,
        Err(e) => e.code(),
    }
}

/// Gives the code that is handed to the host for the outcome of a load.
pub fn status_code(outcome: &Result<(), Error>) -> (code: u32)
    ensures
        code == code_of(*outcome),
{
    match outcome {
        Ok(_) => 0,
        Err(Error::AlreadyLoaded()) => 1000,
        Err(Error::InvalidUtf8()) => 1001,
        Err(Error::PolicyParsing()) => 1002,
    }
}

/// No two outcomes share a code, and every code is one of the four that the
/// host knows.
pub proof fn lemma_codes_distinct(a: Result<(), Error>, b: Result<(), Error>)
    ensures
        code_of(a) == code_of(b) <==> a == b,
        code_of(a) == 0 <==> a is Ok,
        code_of(a) == 0 || code_of(a) == 1000 || code_of(a) == 1001 || code_of(a) == 1002,
{
    if a is Ok && b is Ok {
        assert(a->Ok_0 == b->Ok_0);
    }
}

} // verus!
