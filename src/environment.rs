use vstd::prelude::*;
use std::marker::PhantomData;
use crate::diagnostics::Diagnostics;
use crate::handles::{Handle, HandleRef, HEnv, SQL_HANDLE_ENV};
use crate::return_::Return;
use crate::return_option::ReturnOption;
use crate::version::{NoVersion, Odbc3, Odbc3m8, Version};

verus! {

/// An `Environment` is a global context, in which to access data.
///
/// Associated with an `Environment` is any information that is global in nature, such as:
///
/// * The `Environment`'s state
/// * The current environment-level diagnostics
/// * The handles of connections currently allocated on the environment
/// * The current stetting of each environment attribute
///
/// The type parameter records the declared ODBC version; connections can only be allocated once
/// a version is declared.
#[derive(Debug)]
pub struct Environment<V> {
    version: PhantomData<V>,
    /// Invariant: always a valid environment handle with version declared as `V`, or none
    /// declared for `NoVersion`.
    handle: HEnv,
}

/// The outcome of a query filling two buffers: on success the two lengths reported.
pub open spec fn reports_lengths(r: ReturnOption<(i16, i16)>, code: i16, first: i16, second: i16)
    -> bool {
    &&& r.reflects(code)
    &&& (r matches ReturnOption::Success(l) ==> l == (first, second))
    &&& (r matches ReturnOption::Info(l) ==> l == (first, second))
}

impl<V> Environment<V> {
    /// The raw environment handle.
    pub closed spec fn raw(&self) -> usize {
        self.handle.raw_handle()
    }

    /// Provides access to the raw environment handle.
    pub fn as_raw(&self) -> (r: usize)
        ensures
            r == self.raw(),
    {
        self.handle.as_raw()
    }

    /// Consumes the `Environment`, returning the raw handle for the native layer to release it.
    /// Connections allocated from it must be gone by then, which the borrow of each of them on
    /// the environment ensures.
    pub fn into_raw(self) -> (r: usize)
        ensures
            r == self.raw(),
    {
        self.handle.into_raw()
    }

    /// Express state transition
    fn transit<Other>(self) -> (r: Environment<Other>)
        ensures
            r.raw() == self.raw(),
    {
        Environment { version: PhantomData, handle: self.handle }
    }
}

impl<V: Version> Environment<V> {
    /// Used by the constructor of `DataSource`.
    pub(crate) fn as_henv(&self) -> (r: &HEnv)
        ensures
            r.raw_handle() == self.raw(),
    {
        &self.handle
    }

    /// Interprets one step of the enumeration of the available data sources: the status `code`
    /// of the native call and the lengths of the server name and of the description it reported.
    ///
    /// Returns `(server_name_length, description_length)`; `NoData` ends the enumeration.
    pub fn data_sources(&mut self, code: i16, server_name_length: i16, description_length: i16)
        -> (r: ReturnOption<(i16, i16)>)
        requires
            ReturnOption::<()>::accepts(code),
        ensures
            *final(self) == *old(self),
            reports_lengths(r, code, server_name_length, description_length),
    {
        ReturnOption::from_code(code).map(|u: ()| -> (l: (i16, i16))
            ensures
                l == (server_name_length, description_length),
            { (server_name_length, description_length) })
    }

    /// Interprets one step of the enumeration of the available drivers: the status `code` of the
    /// native call and the lengths of the description and of the attributes it reported.
    ///
    /// Returns `(description_length, attributes_length)`; `NoData` ends the enumeration.
    pub fn drivers(&mut self, code: i16, description_length: i16, attributes_length: i16) -> (r:
        ReturnOption<(i16, i16)>)
        requires
            ReturnOption::<()>::accepts(code),
        ensures
            *final(self) == *old(self),
            reports_lengths(r, code, description_length, attributes_length),
    {
        ReturnOption::from_code(code).map(|u: ()| -> (l: (i16, i16))
            ensures
                l == (description_length, attributes_length),
            { (description_length, attributes_length) })
    }
}

impl Environment<NoVersion> {
    /// Takes ownership of the environment handle a native allocation reported with status
    /// `code` in `out`. No version is declared yet.
    pub fn new(code: i16, out: usize) -> (r: Return<Self>)
        requires
            Return::<()>::accepts(code),
        ensures
            r.reflects(code),
            r matches Return::Success(e) ==> e.raw() == out,
            r matches Return::Info(e) ==> e.raw() == out,
    {
        let allocation = HEnv::allocate(code, out);
        match allocation {
            Return::Success(handle) => Return::Success(Environment { version: PhantomData, handle }),
            Return::Info(handle) => Return::Info(Environment { version: PhantomData, handle }),
            Return::Error(()) => Return::Error(()),
        }
    }

    /// Declares version `V` to the environment, given the status `code` of the native call that
    /// set the version attribute to `V::constant()`.
    ///
    /// On failure the version does not change: the undeclared environment is handed back.
    pub fn declare_version<V: Version>(self, code: i16) -> (r: Return<
        Environment<V>,
        Environment<NoVersion>,
    >)
        requires
            Return::<()>::accepts(code),
        ensures
            r.reflects(code),
            r matches Return::Success(e) ==> e.raw() == self.raw(),
            r matches Return::Info(e) ==> e.raw() == self.raw(),
            r matches Return::Error(e) ==> e.raw() == self.raw(),
    {
        let result = Return::from_code(code);
        match result {
            Return::Success(()) => Return::Success(self.transit()),
            Return::Info(()) => Return::Info(self.transit()),
            Return::Error(()) => Return::Error(self),
        }
    }

    /// Declares ODBC 3.8 behaviour; a shorthand for `declare_version::<Odbc3m8>`.
    pub fn declare_version_3_8(self, code: i16) -> (r: Return<
        Environment<Odbc3m8>,
        Environment<NoVersion>,
    >)
        requires
            Return::<()>::accepts(code),
        ensures
            r.reflects(code),
            r matches Return::Success(e) ==> e.raw() == self.raw(),
            r matches Return::Info(e) ==> e.raw() == self.raw(),
            r matches Return::Error(e) ==> e.raw() == self.raw(),
    {
        self.declare_version(code)
    }

    /// Declares ODBC 3 behaviour; a shorthand for `declare_version::<Odbc3>`.
    pub fn declare_version_3(self, code: i16) -> (r: Return<
        Environment<Odbc3>,
        Environment<NoVersion>,
    >)
        requires
            Return::<()>::accepts(code),
        ensures
            r.reflects(code),
            r matches Return::Success(e) ==> e.raw() == self.raw(),
            r matches Return::Info(e) ==> e.raw() == self.raw(),
            r matches Return::Error(e) ==> e.raw() == self.raw(),
    {
        self.declare_version(code)
    }
}

impl<V> Diagnostics for Environment<V> {
    open spec fn diag_handle(&self) -> HandleRef {
        HandleRef { handle_type: SQL_HANDLE_ENV, handle: self.raw() }
    }

    fn diagnostics_handle(&self) -> (r: HandleRef) {
        HandleRef { handle_type: HEnv::handle_type(), handle: self.as_raw() }
    }
}

} // verus!
