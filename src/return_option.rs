use vstd::prelude::*;
use crate::return_::{SQL_ERROR, SQL_NO_DATA, SQL_SUCCESS, SQL_SUCCESS_WITH_INFO};

verus! {

/// Holds result and indicates the overall success or failure of a function, for functions for
/// which "nothing left" is an expected outcome rather than an error.
#[derive(Debug)]
#[must_use]
pub enum ReturnOption<T, E = ()> {
    /// The function has been executed successfully. Holds result.
    Success(T),
    /// The function has been executed successfully. There have been warnings. Holds result.
    Info(T),
    /// No more data was available
    NoData(E),
    /// An error occured.
    Error(E),
}

impl<T, E> ReturnOption<T, E> {
    /// The variant of `self` is the one the status code `code` stands for.
    pub open spec fn reflects(self, code: i16) -> bool {
        &&& (code == SQL_SUCCESS <==> self is Success)
        &&& (code == SQL_SUCCESS_WITH_INFO <==> self is Info)
        &&& (code == SQL_NO_DATA <==> self is NoData)
        &&& (code == SQL_ERROR <==> self is Error)
    }

    /// Maps a `ReturnOption<T,E>` to `ReturnOption<U,E>` by applying a function to a contained
    /// `Success` or `Info` value, leaving an `Error` or `NoData` value untouched.
    pub fn map<F, U>(self, f: F) -> (r: ReturnOption<U, E>)
        where
            F: FnOnce(T) -> U,
        requires
            self matches ReturnOption::Success(v) ==> f.requires((v,)),
            self matches ReturnOption::Info(v) ==> f.requires((v,)),
        ensures
            self matches ReturnOption::Success(v) ==> (r matches ReturnOption::Success(u) && f.ensures((v,), u)),
            self matches ReturnOption::Info(v) ==> (r matches ReturnOption::Info(u) && f.ensures((v,), u)),
            self matches ReturnOption::NoData(e) ==> r == ReturnOption::<U, E>::NoData(e),
            self matches ReturnOption::Error(e) ==> r == ReturnOption::<U, E>::Error(e),
    {
        match self {
            ReturnOption::Success(t) => ReturnOption::Success(f(t)),
            ReturnOption::Info(t) => ReturnOption::Info(f(t)),
            ReturnOption::NoData(e) => ReturnOption::NoData(e),
            ReturnOption::Error(e) => ReturnOption::Error(e),
        }
    }
}

impl ReturnOption<()> {
    /// The status codes a function reporting a `ReturnOption` may give back.
    pub open spec fn accepts(code: i16) -> bool {
        code == SQL_SUCCESS || code == SQL_SUCCESS_WITH_INFO || code == SQL_NO_DATA || code
            == SQL_ERROR
    }

    /// Whether `code` is one of the status codes a `ReturnOption` can stand for.
    pub fn is_return_code(code: i16) -> (r: bool)
        ensures
            r == Self::accepts(code),
    {
        code == SQL_SUCCESS || code == SQL_SUCCESS_WITH_INFO || code == SQL_NO_DATA || code
            == SQL_ERROR
    }

    /// Interprets the status code of a native call. Any other code than success, success with
    /// info, no data or error is a violation of the native call's contract.
    pub fn from_code(code: i16) -> (r: Self)
        requires
            Self::accepts(code),
        ensures
            r.reflects(code),
    {
        if code == SQL_SUCCESS {
            ReturnOption::Success(())
        } else if code == SQL_SUCCESS_WITH_INFO {
            ReturnOption::Info(())
        } else if code == SQL_NO_DATA {
            ReturnOption::NoData(())
        } else {
            ReturnOption::Error(())
        }
    }
}

} // verus!
