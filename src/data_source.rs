use vstd::prelude::*;
use std::marker::PhantomData;
use crate::diagnostics::Diagnostics;
use crate::environment::Environment;
use crate::handles::{Handle, HandleRef, HDbc, SQL_HANDLE_DBC};
use crate::return_::{Return, SQL_ERROR, SQL_SUCCESS};
use crate::version::Version;

verus! {

/// Value of the autocommit connection attribute that switches autocommit off.
pub const SQL_AUTOCOMMIT_OFF: u32 = 0;

/// Value of the autocommit connection attribute that switches autocommit on.
pub const SQL_AUTOCOMMIT_ON: u32 = 1;

/// State used by `Connected`. Means that autocommit is enabled
#[derive(Debug)]
pub enum AutocommitOn {
    /// The one value of the state marker.
    Enabled,
}

/// State used by `Connected`. Means that autocommit is disabled
#[derive(Debug)]
pub enum AutocommitOff {
    /// The one value of the state marker.
    Disabled,
}

/// Marker trait for autocommit mode state types
pub trait AutocommitMode {}

impl AutocommitMode for AutocommitOn {}

impl AutocommitMode for AutocommitOff {}

/// Implemented by `Connected` and `Unconnected`: the states a `DataSource` can be in. Each owns
/// the connection handle.
pub trait HDbcWrapper<'env>: Sized {
    /// The raw connection handle owned.
    spec fn hdbc_raw(&self) -> usize;

    /// Release ownership of the internal connection handle.
    fn into_hdbc(self) -> (r: HDbc<'env>)
        ensures
            r.raw_handle() == self.hdbc_raw(),
    ;

    /// Construction from a connection handle.
    fn from_hdbc(handle: HDbc<'env>) -> (r: Self)
        ensures
            r.hdbc_raw() == handle.raw_handle(),
    ;

    /// Access to the internal connection handle.
    fn as_hdbc(&self) -> (r: &HDbc<'env>)
        ensures
            r.raw_handle() == self.hdbc_raw(),
    ;
}

/// An `HDbc` with the additional invariant of being 'allocated', but not 'connected'.
#[derive(Debug)]
pub struct Unconnected<'env>(HDbc<'env>);

impl<'env> HDbcWrapper<'env> for Unconnected<'env> {
    closed spec fn hdbc_raw(&self) -> usize {
        self.0.raw_handle()
    }

    fn into_hdbc(self) -> (r: HDbc<'env>) {
        self.0
    }

    fn from_hdbc(handle: HDbc<'env>) -> (r: Self) {
        Unconnected(handle)
    }

    fn as_hdbc(&self) -> (r: &HDbc<'env>) {
        &self.0
    }
}

/// An `HDbc` with the additional invariant of being 'connected'.
#[derive(Debug)]
pub struct Connected<'env, AC: AutocommitMode>(HDbc<'env>, PhantomData<AC>);

impl<'env, AC: AutocommitMode> HDbcWrapper<'env> for Connected<'env, AC> {
    closed spec fn hdbc_raw(&self) -> usize {
        self.0.raw_handle()
    }

    fn into_hdbc(self) -> (r: HDbc<'env>) {
        self.0
    }

    fn from_hdbc(handle: HDbc<'env>) -> (r: Self) {
        Connected(handle, PhantomData)
    }

    fn as_hdbc(&self) -> (r: &HDbc<'env>) {
        &self.0
    }
}

/// A `DataSource` is used to query and manipulate a data source.
///
/// * The state of the connection
/// * The current connection-level diagnostics
/// * The handles of statements and descriptors currently allocated on the connection
/// * The current settings of each connection attribute
///
/// A `DataSource` is in one of two states, `Connected` or `Unconnected`, modeled in its type.
/// Every new `DataSource` starts out as `Unconnected`. To execute a query it needs to be
/// `Connected`.
#[derive(Debug)]
pub struct DataSource<'env, S: HDbcWrapper<'env> = Unconnected<'env>> {
    /// Connection handle, in the state `S`.
    handle: S,
    env: PhantomData<&'env ()>,
}

/// `Connection` can be used as a shorthand for a `DataSource` in `Connected` state.
pub type Connection<'env, AC = AutocommitOn> = DataSource<'env, Connected<'env, AC>>;

/// The outcome of a transition of a data source with raw handle `raw`: which variant the status
/// code `code` stands for, the same handle in every variant.
pub open spec fn transits<'env, S: HDbcWrapper<'env>, T: HDbcWrapper<'env>>(
    r: Return<DataSource<'env, S>, DataSource<'env, T>>,
    code: i16,
    raw: usize,
) -> bool {
    &&& r.reflects(code)
    &&& (r matches Return::Success(d) ==> d.raw() == raw)
    &&& (r matches Return::Info(d) ==> d.raw() == raw)
    &&& (r matches Return::Error(d) ==> d.raw() == raw)
}

impl<'env, Any: HDbcWrapper<'env>> DataSource<'env, Any> {
    /// The raw connection handle.
    pub closed spec fn raw(&self) -> usize {
        self.handle.hdbc_raw()
    }

    /// Consumes the `DataSource`, returning the wrapped raw connection handle, for which the
    /// caller is then responsible.
    pub fn into_raw(self) -> (r: usize)
        ensures
            r == self.raw(),
    {
        self.handle.into_hdbc().into_raw()
    }

    /// Provides access to the raw connection handle.
    pub fn as_raw(&self) -> (r: usize)
        ensures
            r == self.raw(),
    {
        self.handle.as_hdbc().as_raw()
    }

    /// Wraps a raw connection handle. The handle must be a valid connection handle in the state
    /// `Any` that nothing else owns.
    ///
    /// Nothing here calls the native layer, so a wrapped value is only as good as the handle
    /// given: code issuing native calls must accept only handles it allocated itself.
    pub fn from_raw(raw: usize) -> (r: Self)
        ensures
            r.raw() == raw,
    {
        DataSource { handle: Any::from_hdbc(HDbc::from_raw(raw)), env: PhantomData }
    }

    /// Express state transition
    fn transit<Other: HDbcWrapper<'env>>(self) -> (r: DataSource<'env, Other>)
        ensures
            r.raw() == self.raw(),
    {
        DataSource { handle: Other::from_hdbc(self.handle.into_hdbc()), env: PhantomData }
    }

    /// Moves to the state the status `code` of a native call reports: `Other` on success, `Fail`
    /// on error.
    fn transit_on<Other: HDbcWrapper<'env>, Fail: HDbcWrapper<'env>>(self, code: i16) -> (r: Return<
        DataSource<'env, Other>,
        DataSource<'env, Fail>,
    >)
        requires
            Return::<()>::accepts(code),
        ensures
            transits(r, code, self.raw()),
    {
        match Return::from_code(code) {
            Return::Success(()) => Return::Success(self.transit()),
            Return::Info(()) => Return::Info(self.transit()),
            Return::Error(()) => Return::Error(self.transit()),
        }
    }
}

impl<'env> DataSource<'env, Unconnected<'env>> {
    /// Takes ownership of the connection handle a native allocation on `parent` reported with
    /// status `code` in `out`. A `DataSource` may not outlive its parent `Environment`, which
    /// must have declared its version.
    pub fn with_parent<V: Version>(parent: &'env Environment<V>, code: i16, out: usize) -> (r:
        Return<Self>)
        requires
            Return::<()>::accepts(code),
        ensures
            r.reflects(code),
            r matches Return::Success(d) ==> d.raw() == out,
            r matches Return::Info(d) ==> d.raw() == out,
    {
        match HDbc::allocate(parent.as_henv(), code, out) {
            Return::Success(h) => Return::Success(
                DataSource { handle: Unconnected::from_hdbc(h), env: PhantomData },
            ),
            Return::Info(h) => Return::Info(
                DataSource { handle: Unconnected::from_hdbc(h), env: PhantomData },
            ),
            Return::Error(()) => Return::Error(()),
        }
    }

    /// Connects to a data source by name and credentials, given the status `code` of the native
    /// connect call.
    ///
    /// On success the data source is `Connected`, with autocommit enabled (the native default).
    /// On failure the `Unconnected` value passed in is handed back, to retry or to inspect its
    /// diagnostics.
    pub fn connect(self, code: i16) -> (r: Return<Connection<'env, AutocommitOn>, Self>)
        requires
            Return::<()>::accepts(code),
        ensures
            transits(r, code, self.raw()),
    {
        self.transit_on(code)
    }

    /// Connects to a data source with a connection string, given the status `code` of the
    /// native driver-connect call. That call runs without prompting, and the completed
    /// connection string it may return is discarded.
    pub fn connect_with_connection_string(self, code: i16) -> (r: Return<
        Connection<'env, AutocommitOn>,
        Self,
    >)
        requires
            Return::<()>::accepts(code),
        ensures
            transits(r, code, self.raw()),
    {
        self.transit_on(code)
    }
}

impl<'env, AC: AutocommitMode> DataSource<'env, Connected<'env, AC>> {
    /// Used by the constructor of `Statement`.
    pub(crate) fn as_hdbc(&self) -> (r: &HDbc<'env>)
        ensures
            r.raw_handle() == self.raw(),
    {
        self.handle.as_hdbc()
    }

    /// Disconnects from the data source, given the status `code` of the native disconnect
    /// call. On success the handle is `Unconnected` again and can be connected anew; on failure
    /// it stays connected.
    pub fn disconnect(self, code: i16) -> (r: Return<DataSource<'env, Unconnected<'env>>, Self>)
        requires
            Return::<()>::accepts(code),
        ensures
            transits(r, code, self.raw()),
    {
        self.transit_on(code)
    }

    /// Whether the data source is in read only mode, given the status `code` of the native
    /// information query and the first byte of the one-character flag it wrote: `Y` or `N`.
    pub fn is_read_only(&mut self, code: i16, flag: u8) -> (r: Return<bool>)
        requires
            Return::<()>::accepts(code),
            code != SQL_ERROR ==> (flag == 0x59 || flag == 0x4e),
        ensures
            *final(self) == *old(self),
            r.reflects(code),
            r matches Return::Success(b) ==> b == (flag == 0x59),
            r matches Return::Info(b) ==> b == (flag == 0x59),
    {
        Return::from_code(code).map(|u: ()| -> (b: bool)
            ensures
                b == (flag == 0x59),
            { flag == 0x59 })
    }

    /// Tears down the connection, given the status codes of the native rollback of any pending
    /// transaction and of the native disconnect that follows it.
    ///
    /// Either step failing leaves the native layer in an inconsistent state: the outcome is then
    /// `Error`. Otherwise it is the `Unconnected` data source, `Info` if either step reported a
    /// warning.
    pub fn close(self, rollback: i16, disconnect: i16) -> (r: Return<
        DataSource<'env, Unconnected<'env>>,
    >)
        requires
            Return::<()>::accepts(rollback),
            Return::<()>::accepts(disconnect),
        ensures
            r is Error <==> (rollback == SQL_ERROR || disconnect == SQL_ERROR),
            r is Success <==> (rollback == SQL_SUCCESS && disconnect == SQL_SUCCESS),
            r matches Return::Success(d) ==> d.raw() == self.raw(),
            r matches Return::Info(d) ==> d.raw() == self.raw(),
    {
        if rollback == SQL_ERROR || disconnect == SQL_ERROR {
            Return::Error(())
        } else if rollback == SQL_SUCCESS && disconnect == SQL_SUCCESS {
            Return::Success(self.transit())
        } else {
            Return::Info(self.transit())
        }
    }
}

impl<'env> DataSource<'env, Connected<'env, AutocommitOn>> {
    /// Switches autocommit off, given the status `code` of the native call setting the
    /// autocommit attribute to `SQL_AUTOCOMMIT_OFF`. On failure autocommit stays on.
    pub fn disable_autocommit(self, code: i16) -> (r: Return<Connection<'env, AutocommitOff>, Self>)
        requires
            Return::<()>::accepts(code),
        ensures
            transits(r, code, self.raw()),
    {
        self.transit_on(code)
    }
}

impl<'env> DataSource<'env, Connected<'env, AutocommitOff>> {
    /// Switches autocommit back on, given the status `code` of the native call setting the
    /// autocommit attribute to `SQL_AUTOCOMMIT_ON`. On failure autocommit stays off.
    pub fn enable_autocommit(self, code: i16) -> (r: Return<Connection<'env, AutocommitOn>, Self>)
        requires
            Return::<()>::accepts(code),
        ensures
            transits(r, code, self.raw()),
    {
        self.transit_on(code)
    }
}

impl<'env, S: HDbcWrapper<'env>> Diagnostics for DataSource<'env, S> {
    open spec fn diag_handle(&self) -> HandleRef {
        HandleRef { handle_type: SQL_HANDLE_DBC, handle: self.raw() }
    }

    fn diagnostics_handle(&self) -> (r: HandleRef) {
        HandleRef { handle_type: HDbc::handle_type(), handle: self.as_raw() }
    }
}

} // verus!
