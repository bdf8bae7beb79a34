//! How a build ended.

use vstd::prelude::*;
use vstd::std_specs::convert::FromSpecImpl;
use vstd::string::*;

use crate::runner::Failure;

verus! {

/// The outcome of one build.
#[derive(Debug, PartialEq, Eq)]
pub enum Status {
    /// The build failed, and why.
    Fail(Failure),
    /// The commit was deployed.
    Success,
}

impl Clone for Status {
    fn clone(&self) -> (copy: Status)
        ensures
            copy == *self,
    {
        match self {
            Status::Fail(failure) => Status::Fail(failure.clone()),
            Status::Success => Status::Success,
        }
    }
}

impl Status {
    /// The text shown for this outcome: `completed` for a success, the
    /// failure's own text otherwise.
    pub open spec fn text(self) -> Seq<char> {
        match self {
            Status::Fail(failure) => failure.text(),
            Status::Success => "completed"@,
        }
    }

    /// The text shown for this outcome.
    pub fn message(&self) -> (text: String)
        ensures
            text@ == self.text(),
    {
        match self {
            Status::Fail(failure) => failure.message(),
            Status::Success => String::from_str("completed"),
        }
    }

    /// The text shown for this outcome with the cause of a failure.
    pub open spec fn detail_text(self) -> Seq<char> {
        match self {
            Status::Fail(failure) => failure.detail_text(),
            Status::Success => "completed"@,
        }
    }

    /// The text shown for this outcome with the cause of a failure.
    pub fn detail(&self) -> (text: String)
        ensures
            text@ == self.detail_text(),
    {
        match self {
            Status::Fail(failure) => failure.detail(),
            Status::Success => String::from_str("completed"),
        }
    }

    /// Whether the build failed.
    pub fn is_failure(&self) -> (failed: bool)
        ensures
            failed == (*self is Fail),
    {
        match self {
            Status::Fail(_) => true,
            Status::Success => false,
        }
    }
}

impl<T> From<Result<T, Failure>> for Status {
    /// The outcome of a build that returned `result`.
    fn from(result: Result<T, Failure>) -> (status: Status) {
        match result {
            Ok(_) => Status::Success,
            Err(failure) => Status::Fail(failure),
        }
    }
}

impl<T> FromSpecImpl<Result<T, Failure>> for Status {
    open spec fn obeys_from_spec() -> bool {
        true
    }

    open spec fn from_spec(result: Result<T, Failure>) -> Status {
        match result {
            Ok(_) => Status::Success,
            Err(failure) => Status::Fail(failure),
        }
    }
}

} // verus!
