use vstd::prelude::*;

verus! {

/// Function completed successfully.
pub const SQL_SUCCESS: i16 = 0;

/// Function completed successfully, possibly with a nonfatal error (warning).
pub const SQL_SUCCESS_WITH_INFO: i16 = 1;

/// Function failed.
pub const SQL_ERROR: i16 = -1;

/// No more data was available.
pub const SQL_NO_DATA: i16 = 100;

/// Holds result and indicates the overall success or failure of a function.
#[derive(Debug)]
#[must_use]
pub enum Return<T, E = ()> {
    /// The function has been executed successfully. Holds result.
    Success(T),
    /// The function has been executed successfully. There have been warnings. Holds result.
    Info(T),
    /// An error occured.
    Error(E),
}

impl<T, E> Return<T, E> {
    /// The variant of `self` is the one the status code `code` stands for.
    pub open spec fn reflects(self, code: i16) -> bool {
        &&& (code == SQL_SUCCESS <==> self is Success)
        &&& (code == SQL_SUCCESS_WITH_INFO <==> self is Info)
        &&& (code == SQL_ERROR <==> self is Error)
    }

    /// Maps a `Return<T,E>` to `Return<U,E>` by applying a function to a contained `Success` or
    /// `Info` value, leaving an `Error` value untouched.
    pub fn map<F, U>(self, f: F) -> (r: Return<U, E>)
        where
            F: FnOnce(T) -> U,
        requires
            self matches Return::Success(v) ==> f.requires((v,)),
            self matches Return::Info(v) ==> f.requires((v,)),
        ensures
            self matches Return::Success(v) ==> (r matches Return::Success(u) && f.ensures((v,), u)),
            self matches Return::Info(v) ==> (r matches Return::Info(u) && f.ensures((v,), u)),
            self matches Return::Error(e) ==> r == Return::<U, E>::Error(e),
    {
        match self {
            Return::Success(v) => Return::Success(f(v)),
            Return::Info(v) => Return::Info(f(v)),
            Return::Error(e) => Return::Error(e),
        }
    }

    /// Maps a `Return<T,E>` to `Return<T,U>` by applying a function to a contained `Error`
    /// value, leaving a `Success` or an `Info` value untouched.
    pub fn map_error<F, U>(self, f: F) -> (r: Return<T, U>)
        where
            F: FnOnce(E) -> U,
        requires
            self matches Return::Error(e) ==> f.requires((e,)),
        ensures
            self matches Return::Success(v) ==> r == Return::<T, U>::Success(v),
            self matches Return::Info(v) ==> r == Return::<T, U>::Info(v),
            self matches Return::Error(e) ==> (r matches Return::Error(u) && f.ensures((e,), u)),
    {
        match self {
            Return::Success(v) => Return::Success(v),
            Return::Info(v) => Return::Info(v),
            Return::Error(e) => Return::Error(f(e)),
        }
    }

    /// Unwraps the result, yielding the content of `Success` or `Info`.
    ///
    /// An `Error` has nothing to yield; use diagnostics to learn more about it.
    pub fn unwrap(self) -> (r: T)
        requires
            !(self is Error),
        ensures
            self matches Return::Success(v) ==> r == v,
            self matches Return::Info(v) ==> r == v,
    {
        match self {
            Return::Success(v) => v,
            Return::Info(v) => v,
            Return::Error(_) => vstd::pervasive::unreached(),
        }
    }

    /// Transforms the `Return<T,E>` into a `Result<T,U>`, mapping `Success(v) | Info(v)` to
    /// `Ok(v)` and `Error(err)` to `Err(err.into())`.
    pub fn success<U: From<E>>(self) -> (r: Result<T, U>)
        ensures
            self matches Return::Success(v) ==> r == Result::<T, U>::Ok(v),
            self matches Return::Info(v) ==> r == Result::<T, U>::Ok(v),
            self matches Return::Error(e) ==> (r matches Result::Err(u) && call_ensures(
                U::from,
                (e,),
                u,
            )),
    {
        match self {
            Return::Success(v) => Ok(v),
            Return::Info(v) => Ok(v),
            Return::Error(e) => Err(U::from(e)),
        }
    }

    /// Indicates if this is `Error(e)` or `Success(v) | Info(v)`.
    pub fn is_err(&self) -> (r: bool)
        ensures
            r == (*self is Error),
    {
        match self {
            Return::Success(_) => false,
            Return::Info(_) => false,
            Return::Error(_) => true,
        }
    }
}

impl Return<()> {
    /// The status codes a function reporting a `Return` may give back.
    pub open spec fn accepts(code: i16) -> bool {
        code == SQL_SUCCESS || code == SQL_SUCCESS_WITH_INFO || code == SQL_ERROR
    }

    /// Whether `code` is one of the status codes a `Return` can stand for.
    pub fn is_return_code(code: i16) -> (r: bool)
        ensures
            r == Self::accepts(code),
    {
        code == SQL_SUCCESS || code == SQL_SUCCESS_WITH_INFO || code == SQL_ERROR
    }

    /// Interprets the status code of a native call. Any other code than success, success with
    /// info or error is a violation of the native call's contract.
    pub fn from_code(code: i16) -> (r: Self)
        requires
            Self::accepts(code),
        ensures
            r.reflects(code),
    {
        if code == SQL_SUCCESS {
            Return::Success(())
        } else if code == SQL_SUCCESS_WITH_INFO {
            Return::Info(())
        } else {
            Return::Error(())
        }
    }
}

} // verus!
