use vstd::prelude::*;
use std::cell::RefCell;
use std::marker::PhantomData;
use crate::c_data_type::CDataType;
use crate::data_source::{AutocommitMode, Connection};
use crate::data_type::DataType;
use crate::diagnostics::Diagnostics;
use crate::handles::{Handle, HandleRef, HStmt, SQL_HANDLE_STMT};
use crate::indicator::Indicator;
use crate::protocol::{after_fetch, CursorPosition};
use crate::return_::{Return, SQL_ERROR};
use crate::return_option::ReturnOption;

verus! {

/// Buffers bound to a statement are shared with the native layer through a `RefCell`; the
/// statement only holds references to them, which Verus carries without looking inside.
#[verifier::external_type_specification]
#[verifier::external_body]
#[verifier::reject_recursive_types(T)]
pub struct ExRefCell<T: ?Sized>(RefCell<T>);

/// A `Statement` is most easily thought of as an SQL statement, such as
/// `SELECT * FROM Employee`.
///
/// Two independent axes of its state are tracked in its type: the cursor (`NoCursor`, `Open`,
/// `Positioned`) and the access plan (`Unprepared`, `Prepared`). The parameters and columns bound
/// to it are part of its type as well, so that the statement can not outlive a bound buffer.
#[derive(Debug)]
pub struct Statement<'con, Params = (), Cols = (), C = NoCursor, A = Unprepared> {
    handle: HStmt<'con>,
    params: Params,
    cols: Cols,
    cursor: PhantomData<C>,
    access_plan: PhantomData<A>,
}

/// Cursor state of `Statement`. A statement is likely to enter this state after executing e.g a
/// `SELECT` query.
#[derive(Debug)]
pub struct Open;

/// Cursor state of `Statement`. A statement is likely to enter this state after executing e.g.
/// a `CREATE TABLE` statement.
#[derive(Debug)]
pub struct NoCursor;

/// Cursor state of `Statement`. A statement will enter this state after a successful call to
/// `fetch()`.
#[derive(Debug)]
pub struct Positioned;

/// Access plan state of `Statement`. A statement will enter this state after a successful call
/// to `prepare()`.
#[derive(Debug)]
pub struct Prepared;

/// Access plan state of `Statement`. Indicates that no access plan has been created, yet.
#[derive(Debug)]
pub struct Unprepared;

/// Implemented by the `Open` and `Positioned` states for `Statement`.
pub trait CursorState {}

impl CursorState for Open {}

impl CursorState for Positioned {}

/// Shorthand for `Statement`s in `Open` state.
pub type ResultSet<'con, Params, Cols, A> = Statement<'con, Params, Cols, Open, A>;

/// A parameter or column binding: the bound buffer, its optional length indicator, and the
/// bindings made before it.
pub type Binding<'b, T, Rest> = (&'b RefCell<T>, Option<&'b RefCell<i64>>, Rest);

/// `b` is `a` in another state: the same handle and the same bindings.
pub open spec fn same_statement<'con, P, Co, C1, A1, C2, A2>(
    a: Statement<'con, P, Co, C1, A1>,
    b: Statement<'con, P, Co, C2, A2>,
) -> bool {
    &&& b.raw() == a.raw()
    &&& b.params() == a.params()
    &&& b.cols() == a.cols()
}

/// The outcome of a transition of statement `s` on a native call reporting `code`.
pub open spec fn transits<'con, P, Co, C, A, C1, A1, C2, A2>(
    r: Return<Statement<'con, P, Co, C1, A1>, Statement<'con, P, Co, C2, A2>>,
    code: i16,
    s: Statement<'con, P, Co, C, A>,
) -> bool {
    &&& r.reflects(code)
    &&& (r matches Return::Success(t) ==> same_statement(s, t))
    &&& (r matches Return::Info(t) ==> same_statement(s, t))
    &&& (r matches Return::Error(t) ==> same_statement(s, t))
}

/// The outcome of a transition of statement `s` on a native call reporting `code`, for calls
/// that may report no data.
pub open spec fn transits_option<'con, P, Co, C, A, C1, A1, C2, A2>(
    r: ReturnOption<Statement<'con, P, Co, C1, A1>, Statement<'con, P, Co, C2, A2>>,
    code: i16,
    s: Statement<'con, P, Co, C, A>,
) -> bool {
    &&& r.reflects(code)
    &&& (r matches ReturnOption::Success(t) ==> same_statement(s, t))
    &&& (r matches ReturnOption::Info(t) ==> same_statement(s, t))
    &&& (r matches ReturnOption::NoData(t) ==> same_statement(s, t))
    &&& (r matches ReturnOption::Error(t) ==> same_statement(s, t))
}

/// The outcome of a query on statement `s` reporting `code` and the value `v`.
pub open spec fn reports<T>(r: Return<T>, code: i16, v: T) -> bool {
    &&& r.reflects(code)
    &&& (r matches Return::Success(x) ==> x == v)
    &&& (r matches Return::Info(x) ==> x == v)
}

impl<'con, Params, Cols, C, A> Statement<'con, Params, Cols, C, A> {
    /// The raw statement handle.
    pub closed spec fn raw(self) -> usize {
        self.handle.raw_handle()
    }

    /// The bound parameters, the last bound first.
    pub closed spec fn params(self) -> Params {
        self.params
    }

    /// The bound columns, the last bound first.
    pub closed spec fn cols(self) -> Cols {
        self.cols
    }

    /// Provides access to the raw statement handle.
    pub fn as_raw(&self) -> (r: usize)
        ensures
            r == self.raw(),
    {
        self.handle.as_raw()
    }

    /// The bound parameters, the last bound first.
    pub fn parameters(&self) -> (r: &Params)
        ensures
            *r == self.params(),
    {
        &self.params
    }

    /// The bound columns, the last bound first.
    pub fn columns(&self) -> (r: &Cols)
        ensures
            *r == self.cols(),
    {
        &self.cols
    }

    /// Consumes the `Statement`, returning the raw handle for the native layer to release it.
    pub fn into_raw(self) -> (r: usize)
        ensures
            r == self.raw(),
    {
        self.handle.into_raw()
    }

    /// Binds a parameter to a parameter marker, given the status `code` of the native bind call
    /// that passed `value` (and `indicator`, if any) as the parameter's buffer.
    ///
    /// On success the statement is replaced by one which may not outlive the bound buffers, so it
    /// can never read a buffer that is gone. Use `reset_parameters` to unbind them.
    pub fn bind_input_parameter<'p, T: CDataType>(
        self,
        value: &'p RefCell<T>,
        indicator: Option<&'p RefCell<i64>>,
        code: i16,
    ) -> (r: Return<Statement<'con, Binding<'p, T, Params>, Cols, C, A>, Self>)
        requires
            Return::<()>::accepts(code),
        ensures
            r.reflects(code),
            r matches Return::Success(s) ==> s.raw() == self.raw() && s.params() == (value, indicator, self.params()) && s.cols() == self.cols(),
            r matches Return::Info(s) ==> s.raw() == self.raw() && s.params() == (value, indicator, self.params()) && s.cols() == self.cols(),
            r matches Return::Error(s) ==> s == self,
    {
        match Return::from_code(code) {
            Return::Success(()) => Return::Success(self.transit_with_param(value, indicator)),
            Return::Info(()) => Return::Info(self.transit_with_param(value, indicator)),
            Return::Error(()) => Return::Error(self),
        }
    }

    /// Binds a buffer and an indicator to a result set column, given the status `code` of the
    /// native bind call that passed them.
    ///
    /// On success the statement is replaced by one which may not outlive the bound buffers. Use
    /// `reset_columns` to unbind them.
    pub fn bind_col<'c, T: CDataType>(
        self,
        value: &'c RefCell<T>,
        indicator: Option<&'c RefCell<i64>>,
        code: i16,
    ) -> (r: Return<Statement<'con, Params, Binding<'c, T, Cols>, C, A>, Self>)
        requires
            Return::<()>::accepts(code),
        ensures
            r.reflects(code),
            r matches Return::Success(s) ==> s.raw() == self.raw() && s.params() == self.params() && s.cols() == (value, indicator, self.cols()),
            r matches Return::Info(s) ==> s.raw() == self.raw() && s.params() == self.params() && s.cols() == (value, indicator, self.cols()),
            r matches Return::Error(s) ==> s == self,
    {
        match Return::from_code(code) {
            Return::Success(()) => Return::Success(self.transit_with_col(value, indicator)),
            Return::Info(()) => Return::Info(self.transit_with_col(value, indicator)),
            Return::Error(()) => Return::Error(self),
        }
    }

    /// Unbinds the parameters from the parameter markers, given the status `code` of the native
    /// reset call. A failing reset is a violation of the native contract.
    pub fn reset_parameters(self, code: i16) -> (r: Statement<'con, (), Cols, C, A>)
        requires
            Return::<()>::accepts(code),
            code != SQL_ERROR,
        ensures
            r.raw() == self.raw(),
            r.cols() == self.cols(),
    {
        Statement {
            handle: self.handle,
            params: (),
            cols: self.cols,
            cursor: PhantomData,
            access_plan: PhantomData,
        }
    }

    /// Unbinds the column buffers from the result set, given the status `code` of the native
    /// reset call. A failing reset is a violation of the native contract.
    pub fn reset_columns(self, code: i16) -> (r: Statement<'con, Params, (), C, A>)
        requires
            Return::<()>::accepts(code),
            code != SQL_ERROR,
        ensures
            r.raw() == self.raw(),
            r.params() == self.params(),
    {
        Statement {
            handle: self.handle,
            params: self.params,
            cols: (),
            cursor: PhantomData,
            access_plan: PhantomData,
        }
    }

    /// Express state transition
    fn transit<C2, A2>(self) -> (r: Statement<'con, Params, Cols, C2, A2>)
        ensures
            same_statement(self, r),
    {
        Statement {
            handle: self.handle,
            params: self.params,
            cols: self.cols,
            cursor: PhantomData,
            access_plan: PhantomData,
        }
    }

    fn transit_with_param<'p, T>(
        self,
        new_param: &'p RefCell<T>,
        new_ind: Option<&'p RefCell<i64>>,
    ) -> (r: Statement<'con, Binding<'p, T, Params>, Cols, C, A>)
        ensures
            r.raw() == self.raw(),
            r.params() == (new_param, new_ind, self.params()),
            r.cols() == self.cols(),
    {
        Statement {
            handle: self.handle,
            params: (new_param, new_ind, self.params),
            cols: self.cols,
            cursor: PhantomData,
            access_plan: PhantomData,
        }
    }

    fn transit_with_col<'c, T>(
        self,
        new_col: &'c RefCell<T>,
        new_ind: Option<&'c RefCell<i64>>,
    ) -> (r: Statement<'con, Params, Binding<'c, T, Cols>, C, A>)
        ensures
            r.raw() == self.raw(),
            r.params() == self.params(),
            r.cols() == (new_col, new_ind, self.cols()),
    {
        Statement {
            handle: self.handle,
            params: self.params,
            cols: (new_col, new_ind, self.cols),
            cursor: PhantomData,
            access_plan: PhantomData,
        }
    }

    /// Moves to the state the status `code` of a native call reports: `(C1, A1)` on success,
    /// `(C2, A2)` on error.
    fn transit_on<C1, A1, C2, A2>(self, code: i16) -> (r: Return<
        Statement<'con, Params, Cols, C1, A1>,
        Statement<'con, Params, Cols, C2, A2>,
    >)
        requires
            Return::<()>::accepts(code),
        ensures
            transits(r, code, self),
    {
        match Return::from_code(code) {
            Return::Success(()) => Return::Success(self.transit()),
            Return::Info(()) => Return::Info(self.transit()),
            Return::Error(()) => Return::Error(self.transit()),
        }
    }

    /// Moves to the state the status `code` of a native call reports: `(C1, A1)` on success,
    /// `(C2, A2)` on no data or error.
    fn transit_on_option<C1, A1, C2, A2>(self, code: i16) -> (r: ReturnOption<
        Statement<'con, Params, Cols, C1, A1>,
        Statement<'con, Params, Cols, C2, A2>,
    >)
        requires
            ReturnOption::<()>::accepts(code),
        ensures
            transits_option(r, code, self),
    {
        match ReturnOption::from_code(code) {
            ReturnOption::Success(()) => ReturnOption::Success(self.transit()),
            ReturnOption::Info(()) => ReturnOption::Info(self.transit()),
            ReturnOption::NoData(()) => ReturnOption::NoData(self.transit()),
            ReturnOption::Error(()) => ReturnOption::Error(self.transit()),
        }
    }

    /// The column description reported by the native describe call.
    fn describe(code: i16, data_type: i16, column_size: u64, decimal_digits: i16) -> (r: Return<
        Option<DataType>,
    >)
        requires
            Return::<()>::accepts(code),
        ensures
            reports(r, code, DataType::described(data_type, column_size, decimal_digits)),
    {
        Return::from_code(code).map(|u: ()| -> (t: Option<DataType>)
            ensures
                t == DataType::described(data_type, column_size, decimal_digits),
            { DataType::new(data_type, column_size, decimal_digits) })
    }
}

impl<'con, Params, Cols, C: CursorState, A> Statement<'con, Params, Cols, C, A> {
    /// The number of columns of the result set, given the status `code` of the native call and
    /// the count it reported.
    pub fn num_result_cols(&self, code: i16, count: i16) -> (r: Return<i16>)
        requires
            Return::<()>::accepts(code),
        ensures
            reports(r, code, count),
    {
        Return::from_code(code).map(|u: ()| -> (n: i16)
            ensures
                n == count,
            { count })
    }

    /// Advances the cursor to the next row, given the status `code` of the native fetch.
    ///
    /// A row fetched positions the cursor on it. No data means the result set is exhausted: the
    /// statement has no cursor any more, as it has after an error.
    pub fn fetch(self, code: i16) -> (r: ReturnOption<
        Statement<'con, Params, Cols, Positioned, A>,
        Statement<'con, Params, Cols, NoCursor, A>,
    >)
        requires
            ReturnOption::<()>::accepts(code),
        ensures
            transits_option(r, code, self),
            (r is Success || r is Info) <==> after_fetch(code) == CursorPosition::Positioned,
    {
        self.transit_on_option(code)
    }

    /// Closes the cursor, given the status `code` of the native close call. Cursors only need to
    /// be closed explicitly if the statement is to be reused before its result set is consumed.
    pub fn close_cursor(self, code: i16) -> (r: Return<
        Statement<'con, Params, Cols, NoCursor, A>,
        Self,
    >)
        requires
            Return::<()>::accepts(code),
        ensures
            transits(r, code, self),
    {
        self.transit_on(code)
    }

    /// Information about a result set column: given the status `code` of the native describe
    /// call and the type code, column size and decimal digits it reported. `None` means the
    /// driver reports an unknown type, or one this library does not describe.
    pub fn describe_col(&mut self, code: i16, data_type: i16, column_size: u64, decimal_digits: i16)
        -> (r: Return<Option<DataType>>)
        requires
            Return::<()>::accepts(code),
        ensures
            *final(self) == *old(self),
            reports(r, code, DataType::described(data_type, column_size, decimal_digits)),
    {
        Self::describe(code, data_type, column_size, decimal_digits)
    }
}

impl<'con> Statement<'con, (), (), NoCursor, Unprepared> {
    /// Takes ownership of the statement handle a native allocation on the connection `parent`
    /// reported with status `code` in `out`. The statement has no cursor, no access plan and
    /// nothing bound.
    pub fn with_parent<'env, AC: AutocommitMode>(
        parent: &'con Connection<'env, AC>,
        code: i16,
        out: usize,
    ) -> (r: Return<Self>)
        requires
            Return::<()>::accepts(code),
        ensures
            r.reflects(code),
            r matches Return::Success(s) ==> s.raw() == out,
            r matches Return::Info(s) ==> s.raw() == out,
    {
        match HStmt::allocate(parent.as_hdbc(), code, out) {
            Return::Success(handle) => Return::Success(
                Statement {
                    handle,
                    params: (),
                    cols: (),
                    cursor: PhantomData,
                    access_plan: PhantomData,
                },
            ),
            Return::Info(handle) => Return::Info(
                Statement {
                    handle,
                    params: (),
                    cols: (),
                    cursor: PhantomData,
                    access_plan: PhantomData,
                },
            ),
            Return::Error(()) => Return::Error(()),
        }
    }
}

impl<'con, Params, Cols> Statement<'con, Params, Cols, NoCursor, Unprepared> {
    /// Prepares the statement for execution by creating an access plan, given the status `code`
    /// of the native prepare call. On failure the unprepared statement is handed back.
    pub fn prepare(self, code: i16) -> (r: Return<
        Statement<'con, Params, Cols, NoCursor, Prepared>,
        Statement<'con, Params, Cols, NoCursor, Unprepared>,
    >)
        requires
            Return::<()>::accepts(code),
        ensures
            transits(r, code, self),
    {
        self.transit_on(code)
    }

    /// Executes a statement directly from its text, using the current values of the bound
    /// parameters, given the status `code` of the native call.
    ///
    /// On success a cursor is open on the result set; on no data or error there is none.
    pub fn exec_direct(self, code: i16) -> (r: ReturnOption<
        ResultSet<'con, Params, Cols, Unprepared>,
        Statement<'con, Params, Cols, NoCursor, Unprepared>,
    >)
        requires
            ReturnOption::<()>::accepts(code),
        ensures
            transits_option(r, code, self),
    {
        self.transit_on_option(code)
    }
}

impl<'con, Params, Cols> Statement<'con, Params, Cols, NoCursor, Prepared> {
    /// Information about a column of the result set the prepared statement will produce; see
    /// `describe_col` of an open statement.
    pub fn describe_col(&mut self, code: i16, data_type: i16, column_size: u64, decimal_digits: i16)
        -> (r: Return<Option<DataType>>)
        requires
            Return::<()>::accepts(code),
        ensures
            *final(self) == *old(self),
            reports(r, code, DataType::described(data_type, column_size, decimal_digits)),
    {
        Self::describe(code, data_type, column_size, decimal_digits)
    }

    /// Executes the prepared statement, using the current values of the bound parameters, given
    /// the status `code` of the native call. On no data or error the prepared statement is
    /// handed back, ready to be executed again.
    pub fn execute(self, code: i16) -> (r: ReturnOption<
        ResultSet<'con, Params, Cols, Prepared>,
        Self,
    >)
        requires
            ReturnOption::<()>::accepts(code),
        ensures
            transits_option(r, code, self),
    {
        self.transit_on_option(code)
    }
}

impl<'con, Params, Cols, A> Statement<'con, Params, Cols, Positioned, A> {
    /// Retrieves data for a single column or output parameter of the current row, given the
    /// status `code` of the native call and the length or indicator value it wrote.
    pub fn get_data(&mut self, code: i16, str_len_or_ind: i64) -> (r: ReturnOption<Indicator>)
        requires
            ReturnOption::<()>::accepts(code),
        ensures
            *final(self) == *old(self),
            r.reflects(code),
            r matches ReturnOption::Success(i) ==> i == Indicator::of(str_len_or_ind),
            r matches ReturnOption::Info(i) ==> i == Indicator::of(str_len_or_ind),
    {
        ReturnOption::from_code(code).map(|u: ()| -> (i: Indicator)
            ensures
                i == Indicator::of(str_len_or_ind),
            { Indicator::from(str_len_or_ind) })
    }
}

impl<'con, Params, Cols, C, A> Diagnostics for Statement<'con, Params, Cols, C, A> {
    open spec fn diag_handle(&self) -> HandleRef {
        HandleRef { handle_type: SQL_HANDLE_STMT, handle: self.raw() }
    }

    fn diagnostics_handle(&self) -> (r: HandleRef) {
        HandleRef { handle_type: HStmt::handle_type(), handle: self.as_raw() }
    }
}

} // verus!
