//! The first layer of abstraction around the raw handles of the native layer: one owner type per
//! handle kind. It ensures each handle is valid and released at most once, yet does nothing to
//! ensure that the operations invoked are valid for the handle's state; that is the typed layer's
//! task.
//!
//! A raw handle is carried as the address value the native layer gave out.
use vstd::prelude::*;
use std::marker::PhantomData;
use crate::return_::{Return, SQL_SUCCESS};

verus! {

/// Handle type tag of an environment handle.
pub const SQL_HANDLE_ENV: i16 = 1;

/// Handle type tag of a connection handle.
pub const SQL_HANDLE_DBC: i16 = 2;

/// Handle type tag of a statement handle.
pub const SQL_HANDLE_STMT: i16 = 3;

/// A raw handle together with its type tag: what the native diagnostics call takes.
#[derive(Debug, Clone, Copy, PartialEq, Eq, Structural)]
pub struct HandleRef {
    /// Type tag of the handle.
    pub handle_type: i16,
    /// The raw handle.
    pub handle: usize,
}

/// Basic functionality for all wrappers around native handles.
pub trait Handle {
    /// Type tag of the wrapped handle.
    spec fn tag() -> i16;

    /// The wrapped raw handle.
    spec fn raw_handle(&self) -> usize;

    /// Used to identify the type of the handle in the native calls.
    fn handle_type() -> (r: i16)
        ensures
            r == Self::tag(),
    ;

    /// Returns the wrapped raw handle.
    fn handle(&self) -> (r: usize)
        ensures
            r == self.raw_handle(),
    ;
}

/// Whether the status code of the native release call reports a released handle. Anything but
/// plain success means the native layer is in an inconsistent state.
pub fn is_released(code: i16) -> (r: bool)
    ensures
        r == (code == SQL_SUCCESS),
{
    code == SQL_SUCCESS
}

/// The outcome of a native allocation: the new handle on success, nothing on error.
pub open spec fn allocated<H: Handle>(r: Return<H>, code: i16, out: usize) -> bool {
    &&& r.reflects(code)
    &&& (r matches Return::Success(h) ==> h.raw_handle() == out)
    &&& (r matches Return::Info(h) ==> h.raw_handle() == out)
}

/// Owns an environment handle.
#[derive(Debug)]
pub struct HEnv {
    /// Invariant: always a valid environment handle.
    handle: usize,
}

impl Handle for HEnv {
    open spec fn tag() -> i16 {
        SQL_HANDLE_ENV
    }

    closed spec fn raw_handle(&self) -> usize {
        self.handle
    }

    fn handle_type() -> (r: i16) {
        SQL_HANDLE_ENV
    }

    fn handle(&self) -> (r: usize) {
        self.handle
    }
}

impl HEnv {
    /// Takes ownership of the environment handle a native allocation reported with status
    /// `code` in `out`.
    pub fn allocate(code: i16, out: usize) -> (r: Return<HEnv>)
        requires
            Return::<()>::accepts(code),
        ensures
            allocated(r, code, out),
    {
        Return::from_code(code).map(|u: ()| -> (h: HEnv)
            ensures
                h.handle == out,
            { HEnv { handle: out } })
    }

    /// Provides access to the raw environment handle.
    pub fn as_raw(&self) -> (r: usize)
        ensures
            r == self.raw_handle(),
    {
        self.handle
    }

    /// Gives up ownership of the raw handle, for the native layer to release it.
    pub fn into_raw(self) -> (r: usize)
        ensures
            r == self.raw_handle(),
    {
        self.handle
    }
}

/// Owns a connection handle, which may not outlive the environment it was allocated from.
#[derive(Debug)]
pub struct HDbc<'env> {
    /// Connection may not outlive the environment used to allocate it.
    parent: PhantomData<&'env HEnv>,
    /// Invariant: always a valid connection handle.
    handle: usize,
}

impl<'env> Handle for HDbc<'env> {
    open spec fn tag() -> i16 {
        SQL_HANDLE_DBC
    }

    closed spec fn raw_handle(&self) -> usize {
        self.handle
    }

    fn handle_type() -> (r: i16) {
        SQL_HANDLE_DBC
    }

    fn handle(&self) -> (r: usize) {
        self.handle
    }
}

impl<'env> HDbc<'env> {
    /// Takes ownership of the connection handle a native allocation on `parent` reported with
    /// status `code` in `out`.
    pub fn allocate(parent: &'env HEnv, code: i16, out: usize) -> (r: Return<HDbc<'env>>)
        requires
            Return::<()>::accepts(code),
        ensures
            allocated(r, code, out),
    {
        Return::from_code(code).map(|u: ()| -> (h: HDbc<'env>)
            ensures
                h.handle == out,
            { HDbc { parent: PhantomData, handle: out } })
    }

    /// Wraps a raw connection handle. The handle must be a valid connection handle that nothing
    /// else owns.
    ///
    /// Nothing here calls the native layer, so a wrapped value is only as good as the handle
    /// given: code issuing native calls must accept only handles it allocated itself.
    pub fn from_raw(raw: usize) -> (r: HDbc<'env>)
        ensures
            r.raw_handle() == raw,
    {
        HDbc { parent: PhantomData, handle: raw }
    }

    /// Provides access to the raw connection handle.
    pub fn as_raw(&self) -> (r: usize)
        ensures
            r == self.raw_handle(),
    {
        self.handle
    }

    /// Consumes the `HDbc`, returning the raw handle. The caller is responsible for releasing it.
    pub fn into_raw(self) -> (r: usize)
        ensures
            r == self.raw_handle(),
    {
        self.handle
    }
}

/// Owns a statement handle, which may not outlive the connection it was allocated from.
#[derive(Debug)]
pub struct HStmt<'con> {
    /// Statement may not outlive the connection used to allocate it.
    parent: PhantomData<&'con HDbc<'con>>,
    /// Invariant: always a valid statement handle.
    handle: usize,
}

impl<'con> Handle for HStmt<'con> {
    open spec fn tag() -> i16 {
        SQL_HANDLE_STMT
    }

    closed spec fn raw_handle(&self) -> usize {
        self.handle
    }

    fn handle_type() -> (r: i16) {
        SQL_HANDLE_STMT
    }

    fn handle(&self) -> (r: usize) {
        self.handle
    }
}

impl<'con> HStmt<'con> {
    /// Takes ownership of the statement handle a native allocation on `parent` reported with
    /// status `code` in `out`.
    pub fn allocate(parent: &'con HDbc<'con>, code: i16, out: usize) -> (r: Return<HStmt<'con>>)
        requires
            Return::<()>::accepts(code),
        ensures
            allocated(r, code, out),
    {
        Return::from_code(code).map(|u: ()| -> (h: HStmt<'con>)
            ensures
                h.handle == out,
            { HStmt { parent: PhantomData, handle: out } })
    }

    /// Provides access to the raw statement handle.
    pub fn as_raw(&self) -> (r: usize)
        ensures
            r == self.raw_handle(),
    {
        self.handle
    }

    /// Consumes the `HStmt`, returning the raw handle. The caller is responsible for releasing
    /// it.
    pub fn into_raw(self) -> (r: usize)
        ensures
            r == self.raw_handle(),
    {
        self.handle
    }
}

} // verus!
