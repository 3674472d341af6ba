use std::cell::RefCell;

use odbc_safe::c_data_type::{SQL_C_BINARY, SQL_C_SBIGINT, SQL_C_SLONG, SQL_C_UTINYINT};
use odbc_safe::data_type::{
    SQL_CHAR, SQL_DECIMAL, SQL_DOUBLE, SQL_FLOAT, SQL_INTEGER, SQL_NUMERIC, SQL_REAL,
    SQL_SMALLINT, SQL_UNKNOWN_TYPE, SQL_VARCHAR,
};
use odbc_safe::diagnostics::{diag_result, message_buffer_len};
use odbc_safe::handles::{is_released, SQL_HANDLE_ENV, SQL_HANDLE_STMT};
use odbc_safe::indicator::{SQL_NO_TOTAL, SQL_NULL_DATA};
use odbc_safe::version::{SQL_OV_ODBC3, SQL_OV_ODBC3_80};
use odbc_safe::{
    CDataType, DataSource, DataType, DiagResult, Diagnostics, Environment, HandleRef, Indicator,
    Odbc3, Odbc3m8, OutputBuffer, Return, ReturnOption, SqlStr, Statement, Version, SQL_ERROR,
    SQL_NO_DATA, SQL_SUCCESS, SQL_SUCCESS_WITH_INFO,
};

fn record(text_length: i16) -> DiagResult {
    DiagResult { state: *b"01004\0", native_error: 7, text_length }
}

#[test]
fn return_codes_map_to_variants() {
    assert!(matches!(Return::from_code(SQL_SUCCESS), Return::Success(())));
    assert!(matches!(Return::from_code(SQL_SUCCESS_WITH_INFO), Return::Info(())));
    assert!(matches!(Return::from_code(SQL_ERROR), Return::Error(())));
    assert!(Return::is_return_code(SQL_ERROR));
    assert!(!Return::is_return_code(SQL_NO_DATA));
    assert!(!Return::is_return_code(-2));
    assert!(matches!(ReturnOption::from_code(SQL_NO_DATA), ReturnOption::NoData(())));
    assert!(matches!(ReturnOption::from_code(SQL_ERROR), ReturnOption::Error(())));
    assert!(matches!(ReturnOption::from_code(SQL_SUCCESS_WITH_INFO), ReturnOption::Info(())));
    assert!(ReturnOption::is_return_code(SQL_NO_DATA));
    assert!(!ReturnOption::is_return_code(99));
}

#[test]
fn return_combinators_keep_the_variant() {
    let r: Return<i32, &str> = Return::Info(20);
    assert!(matches!(r.map(|v| v + 1), Return::Info(21)));
    let r: Return<i32, &str> = Return::Error("bad");
    assert!(matches!(r.map(|v| v + 1), Return::Error("bad")));
    let r: Return<i32, i32> = Return::Error(3);
    assert!(matches!(r.map_error(|e| e * 2), Return::Error(6)));
    let r: Return<i32, i32> = Return::Success(3);
    assert!(matches!(r.map_error(|e| e * 2), Return::Success(3)));
    let r: Return<i32, i32> = Return::Info(4);
    assert_eq!(r.success::<i32>(), Ok(4));
    let r: Return<i32, i32> = Return::Error(5);
    assert!(r.is_err());
    assert_eq!(r.success::<i64>(), Err(5i64));
    let r: Return<i32, i32> = Return::Info(9);
    assert!(!r.is_err());
    assert_eq!(r.unwrap(), 9);
    let r: ReturnOption<i32, ()> = ReturnOption::NoData(());
    assert!(matches!(r.map(|v| v * 10), ReturnOption::NoData(())));
    let r: ReturnOption<i32, ()> = ReturnOption::Success(2);
    assert!(matches!(r.map(|v| v * 10), ReturnOption::Success(20)));
}

#[test]
fn indicator_values() {
    assert_eq!(Indicator::from(SQL_NO_TOTAL), Indicator::NoTotal);
    assert_eq!(Indicator::from(SQL_NULL_DATA), Indicator::Null);
    assert_eq!(Indicator::from(0), Indicator::Length(0));
    assert_eq!(Indicator::from(21), Indicator::Length(21));
    assert_eq!(Indicator::from(-7), Indicator::Length(-7));
}

#[test]
fn data_type_from_triplet() {
    assert_eq!(DataType::new(SQL_CHAR, 12, 3), Some(DataType::Char(12)));
    assert_eq!(DataType::new(SQL_NUMERIC, 10, 2), Some(DataType::Numeric(10, 2)));
    assert_eq!(DataType::new(SQL_DECIMAL, 8, 4), Some(DataType::Decimal(8, 4)));
    assert_eq!(DataType::new(SQL_INTEGER, 99, 9), Some(DataType::Integer));
    assert_eq!(DataType::new(SQL_SMALLINT, 0, 0), Some(DataType::SmallInt));
    assert_eq!(DataType::new(SQL_FLOAT, 0, 0), Some(DataType::Float));
    assert_eq!(DataType::new(SQL_REAL, 0, 0), Some(DataType::Real));
    assert_eq!(DataType::new(SQL_DOUBLE, 0, 0), Some(DataType::Double));
    assert_eq!(DataType::new(SQL_VARCHAR, 255, 0), Some(DataType::Varchar(255)));
    assert_eq!(DataType::new(SQL_UNKNOWN_TYPE, 255, 0), None);
    // Types this library does not describe (datetime, timestamp, wide text) are no error.
    assert_eq!(DataType::new(9, 10, 0), None);
    assert_eq!(DataType::new(93, 23, 3), None);
    assert_eq!(DataType::new(-9, 40, 0), None);
    assert!(DataType::is_described(SQL_UNKNOWN_TYPE));
    assert!(!DataType::is_described(9));
}

#[test]
fn data_type_triplet_components() {
    assert_eq!(DataType::Numeric(10, 2).sql_data_type(), SQL_NUMERIC);
    assert_eq!(DataType::Numeric(10, 2).column_size(), 10);
    assert_eq!(DataType::Numeric(10, 2).decimal_digits(), 2);
    assert_eq!(DataType::Decimal(6, 1).decimal_digits(), 1);
    assert_eq!(DataType::Integer.column_size(), 10);
    assert_eq!(DataType::Integer.decimal_digits(), 0);
    assert_eq!(DataType::SmallInt.column_size(), 5);
    assert_eq!(DataType::SmallInt.decimal_digits(), 5);
    assert_eq!(DataType::Float.column_size(), 15);
    assert_eq!(DataType::Double.column_size(), 15);
    assert_eq!(DataType::Real.column_size(), 7);
    assert_eq!(DataType::Char(40).column_size(), 40);
    assert_eq!(DataType::Varchar(80).sql_data_type(), SQL_VARCHAR);
    assert_eq!(DataType::Varchar(80).decimal_digits(), 0);
}

#[test]
fn buffer_lengths_are_clamped() {
    let empty: Vec<u8> = Vec::new();
    let small = vec![0u8; 10];
    let exact = vec![0u8; 32767];
    let large = vec![0u8; 40000];
    assert_eq!(empty[..].buf_len::<i16>(), 0);
    assert!(empty[..].passes_null_pointer());
    assert!(!small[..].passes_null_pointer());
    assert_eq!(small[..].buf_len::<i16>(), 10);
    assert_eq!(exact[..].buf_len::<i16>(), 32767);
    assert_eq!(large[..].buf_len::<i16>(), 32767);
    assert_eq!(large[..].buf_len::<i64>(), 40000);
    assert_eq!(message_buffer_len(&large), 32767);
    assert_eq!(message_buffer_len(&small), 10);
}

#[test]
fn text_lengths() {
    assert_eq!("DoesntExist".text_length(), 11);
    assert_eq!("".text_length(), 0);
    assert_eq!("DSN=PostgreSQL;UID=postgres".text_length_int(), 27);
    assert_eq!(b"abc"[..].text_length(), 3);
    assert_eq!("ä".text_length(), 2);
}

#[test]
fn c_data_types() {
    let buffer = [0u8; 6];
    assert_eq!(<[u8] as CDataType>::c_data_type(), SQL_C_BINARY);
    assert_eq!(buffer[..].buffer_len(), 6);
    assert_eq!(<i32 as CDataType>::c_data_type(), SQL_C_SLONG);
    assert_eq!(5i32.buffer_len(), 4);
    assert_eq!(<i64 as CDataType>::c_data_type(), SQL_C_SBIGINT);
    assert_eq!(5i64.buffer_len(), 8);
    assert_eq!(<u8 as CDataType>::c_data_type(), SQL_C_UTINYINT);
    assert_eq!(5u8.buffer_len(), 1);
    assert_eq!(5i16.buffer_len(), 2);
}

#[test]
fn versions() {
    assert_eq!(Odbc3::constant(), SQL_OV_ODBC3);
    assert_eq!(Odbc3m8::constant(), SQL_OV_ODBC3_80);
}

#[test]
fn release_status() {
    assert!(is_released(SQL_SUCCESS));
    assert!(!is_released(SQL_SUCCESS_WITH_INFO));
    assert!(!is_released(SQL_ERROR));
}

#[test]
fn diagnostic_record_outcomes() {
    let state = *b"08001\0";
    match diag_result(SQL_SUCCESS_WITH_INFO, state, -5, 300) {
        ReturnOption::Info(d) => {
            assert_eq!(d.state, state);
            assert_eq!(d.native_error, -5);
            assert_eq!(d.text_length, 300);
        }
        _ => panic!("a truncated record is reported as info"),
    }
    assert!(matches!(diag_result(SQL_NO_DATA, state, 0, 0), ReturnOption::NoData(())));
    assert!(matches!(diag_result(SQL_ERROR, state, 0, 0), ReturnOption::Error(())));
}

#[test]
fn diagnostic_truncation_boundaries() {
    let d = record(10);
    // N = 0: nothing stored.
    assert_eq!(d.message_len(0), 0);
    assert!(d.is_truncated(0));
    // N = 1: room for the terminating zero only.
    assert_eq!(d.message_len(1), 0);
    assert!(d.is_truncated(1));
    // N = exact message length: the terminating zero takes the last byte.
    assert_eq!(d.message_len(10), 9);
    assert!(d.is_truncated(10));
    // N = message length + 1: fits whole.
    assert_eq!(d.message_len(11), 10);
    assert!(!d.is_truncated(11));
    assert_eq!(d.message_len(512), 10);
    // The reported length is the untruncated one, whatever the buffer.
    assert_eq!(d.text_length, 10);
    let long = record(32767);
    assert_eq!(long.message_len(100000), 32766);
    // A buffer of exactly the message length plus one holds it whole.
    let near_limit = record(32766);
    assert_eq!(near_limit.message_len(32767), 32766);
    assert!(!near_limit.is_truncated(32767));
}

#[test]
fn fetch_exhaustion_of_three_rows() {
    let env = Environment::new(SQL_SUCCESS, 1).unwrap();
    let env: Environment<Odbc3> = env.declare_version(SQL_SUCCESS).unwrap();
    let dbc = DataSource::with_parent(&env, SQL_SUCCESS, 2).unwrap();
    let dbc = dbc.connect(SQL_SUCCESS).unwrap();
    let stmt = Statement::with_parent(&dbc, SQL_SUCCESS, 3).unwrap();
    let stmt = match stmt.exec_direct(SQL_SUCCESS) {
        ReturnOption::Success(s) => s,
        _ => panic!("no result set"),
    };
    let codes = [SQL_SUCCESS, SQL_SUCCESS_WITH_INFO, SQL_SUCCESS, SQL_NO_DATA];
    let mut positioned = 0;
    let mut stmt = match stmt.fetch(codes[0]) {
        ReturnOption::Success(s) | ReturnOption::Info(s) => s,
        _ => panic!("first row missing"),
    };
    positioned += 1;
    let mut i = 1;
    let ended = loop {
        stmt = match stmt.fetch(codes[i]) {
            ReturnOption::Success(s) | ReturnOption::Info(s) => s,
            ReturnOption::NoData(s) => break s,
            ReturnOption::Error(_) => panic!("fetch failed"),
        };
        positioned += 1;
        i += 1;
    };
    assert_eq!(positioned, 3);
    assert_eq!(i, 3);
    assert_eq!(ended.as_raw(), 3);
    // The exhausted statement has no cursor: it can run a new statement.
    assert!(matches!(ended.exec_direct(SQL_NO_DATA), ReturnOption::NoData(_)));
}

#[test]
fn failed_connect_can_be_retried() {
    let env = Environment::new(SQL_SUCCESS, 1).unwrap();
    let env: Environment<Odbc3> = env.declare_version(SQL_SUCCESS).unwrap();
    let dbc = DataSource::with_parent(&env, SQL_SUCCESS, 2).unwrap();
    let dbc = match dbc.connect(SQL_ERROR) {
        Return::Error(d) => d,
        _ => panic!("connect must fail"),
    };
    let connected = dbc.connect(SQL_SUCCESS).unwrap();
    let again = connected.disconnect(SQL_SUCCESS).unwrap();
    let connected = again.connect(SQL_SUCCESS_WITH_INFO).unwrap();
    match connected.disconnect(SQL_ERROR) {
        Return::Error(c) => assert_eq!(c.as_raw(), 2),
        _ => panic!("a failed disconnect stays connected"),
    }
}

#[test]
fn missing_data_source_scenario() {
    let env = Environment::new(SQL_SUCCESS, 11).unwrap();
    let env: Environment<Odbc3> = env.declare_version_3(SQL_SUCCESS).unwrap();
    let dbc = DataSource::with_parent(&env, SQL_SUCCESS, 12).unwrap();
    let outcome = dbc.connect(SQL_ERROR);
    assert!(outcome.is_err());
    // Diagnostics of the outcome are those of the connection handle.
    assert_eq!(outcome.diagnostics_handle(), HandleRef { handle_type: 2, handle: 12 });
    let message = "[unixODBC][Driver Manager]Data source name not found, and no default driver specified";
    match diag_result(SQL_SUCCESS, *b"IM002\0", 0, message.len() as i16) {
        ReturnOption::Success(d) => assert_eq!(d.message_len(512), message.len()),
        _ => panic!("record missing"),
    }
}

#[test]
fn diagnostics_of_handles() {
    let env = Environment::new(SQL_SUCCESS, 21).unwrap();
    assert_eq!(env.diagnostics_handle(), HandleRef { handle_type: SQL_HANDLE_ENV, handle: 21 });
    let env: Environment<Odbc3m8> = env.declare_version_3_8(SQL_SUCCESS).unwrap();
    let dbc = DataSource::with_parent(&env, SQL_SUCCESS, 22).unwrap();
    let dbc = dbc.connect(SQL_SUCCESS).unwrap();
    let stmt = Statement::with_parent(&dbc, SQL_SUCCESS, 23).unwrap();
    assert_eq!(stmt.diagnostics_handle(), HandleRef { handle_type: SQL_HANDLE_STMT, handle: 23 });
    let prepared = stmt.prepare(SQL_ERROR);
    assert_eq!(prepared.diagnostics_handle(), HandleRef { handle_type: SQL_HANDLE_STMT, handle: 23 });
}

#[test]
fn allocation_failures() {
    assert!(matches!(Environment::new(SQL_ERROR, 0), Return::Error(())));
    let env = Environment::new(SQL_SUCCESS_WITH_INFO, 5).unwrap();
    let env: Environment<Odbc3> = env.declare_version(SQL_SUCCESS_WITH_INFO).unwrap();
    assert!(matches!(DataSource::with_parent(&env, SQL_ERROR, 0), Return::Error(())));
    let dbc = DataSource::with_parent(&env, SQL_SUCCESS, 6).unwrap();
    let dbc = dbc.connect(SQL_SUCCESS).unwrap();
    assert!(matches!(Statement::with_parent(&dbc, SQL_ERROR, 0), Return::Error(())));
}

#[test]
fn enumeration_of_data_sources() {
    let env = Environment::new(SQL_SUCCESS, 1).unwrap();
    let mut env: Environment<Odbc3> = env.declare_version(SQL_SUCCESS).unwrap();
    assert!(matches!(env.data_sources(SQL_SUCCESS, 10, 20), ReturnOption::Success((10, 20))));
    assert!(matches!(env.data_sources(SQL_NO_DATA, 10, 20), ReturnOption::NoData(())));
    assert!(matches!(env.drivers(SQL_ERROR, 1, 2), ReturnOption::Error(())));
}

#[test]
fn statement_transitions() {
    let env = Environment::new(SQL_SUCCESS, 1).unwrap();
    let env: Environment<Odbc3> = env.declare_version(SQL_SUCCESS).unwrap();
    let dbc = DataSource::with_parent(&env, SQL_SUCCESS, 2).unwrap();
    let dbc = dbc.connect(SQL_SUCCESS).unwrap();
    let stmt = Statement::with_parent(&dbc, SQL_SUCCESS, 3).unwrap();
    let stmt = match stmt.prepare(SQL_ERROR) {
        Return::Error(s) => s,
        _ => panic!("prepare must fail"),
    };
    let mut stmt = stmt.prepare(SQL_SUCCESS).unwrap();
    assert_eq!(stmt.describe_col(SQL_SUCCESS, SQL_INTEGER, 10, 0).unwrap(), Some(DataType::Integer));
    assert!(stmt.describe_col(SQL_ERROR, 0, 0, 0).is_err());
    assert!(matches!(stmt.describe_col(SQL_SUCCESS, 93, 23, 3), Return::Success(None)));
    let stmt = match stmt.execute(SQL_NO_DATA) {
        ReturnOption::NoData(s) => s,
        _ => panic!("execute without result"),
    };
    let open = match stmt.execute(SQL_SUCCESS) {
        ReturnOption::Success(s) => s,
        _ => panic!("execute failed"),
    };
    let open = match open.close_cursor(SQL_ERROR) {
        Return::Error(s) => s,
        _ => panic!("close must fail"),
    };
    let mut positioned = match open.fetch(SQL_SUCCESS) {
        ReturnOption::Success(s) => s,
        _ => panic!("fetch failed"),
    };
    assert!(matches!(positioned.get_data(SQL_SUCCESS, SQL_NULL_DATA), ReturnOption::Success(Indicator::Null)));
    assert!(matches!(positioned.get_data(SQL_SUCCESS_WITH_INFO, SQL_NO_TOTAL), ReturnOption::Info(Indicator::NoTotal)));
    assert!(matches!(positioned.get_data(SQL_NO_DATA, 0), ReturnOption::NoData(())));
    let closed = positioned.close_cursor(SQL_SUCCESS).unwrap();
    assert_eq!(closed.into_raw(), 3);
}

#[test]
fn bindings_and_resets() {
    let env = Environment::new(SQL_SUCCESS, 1).unwrap();
    let env: Environment<Odbc3> = env.declare_version(SQL_SUCCESS).unwrap();
    let dbc = DataSource::with_parent(&env, SQL_SUCCESS, 2).unwrap();
    let dbc = dbc.connect(SQL_SUCCESS).unwrap();
    let value = RefCell::new(7i64);
    let indicator = RefCell::new(8i64);
    let stmt = Statement::with_parent(&dbc, SQL_SUCCESS, 3).unwrap();
    let stmt = match stmt.bind_input_parameter(&value, Some(&indicator), SQL_ERROR) {
        Return::Error(s) => s,
        _ => panic!("bind must fail"),
    };
    let stmt = stmt.bind_input_parameter(&value, Some(&indicator), SQL_SUCCESS).unwrap();
    let stmt = stmt.bind_col(&value, None, SQL_SUCCESS_WITH_INFO).unwrap();
    let stmt = stmt.reset_parameters(SQL_SUCCESS);
    let stmt = stmt.reset_columns(SQL_SUCCESS_WITH_INFO);
    let stmt: Statement<'_> = stmt;
    assert_eq!(stmt.as_raw(), 3);
}

#[test]
fn connection_modes_and_teardown() {
    let env = Environment::new(SQL_SUCCESS, 1).unwrap();
    let env: Environment<Odbc3> = env.declare_version(SQL_SUCCESS).unwrap();
    let dbc = DataSource::with_parent(&env, SQL_SUCCESS, 2).unwrap();
    let mut dbc = dbc.connect(SQL_SUCCESS).unwrap();
    assert!(dbc.is_read_only(SQL_SUCCESS_WITH_INFO, b'Y').unwrap());
    assert!(dbc.is_read_only(SQL_ERROR, 0).is_err());
    let manual = dbc.disable_autocommit(SQL_SUCCESS).unwrap();
    let auto = manual.enable_autocommit(SQL_SUCCESS).unwrap();
    let manual = auto.disable_autocommit(SQL_SUCCESS).unwrap();
    assert!(matches!(manual.close(SQL_SUCCESS_WITH_INFO, SQL_SUCCESS), Return::Info(_)));
    let dbc = DataSource::with_parent(&env, SQL_SUCCESS, 3).unwrap();
    let dbc = dbc.connect(SQL_SUCCESS).unwrap();
    assert!(matches!(dbc.close(SQL_ERROR, SQL_SUCCESS), Return::Error(())));
    let dbc = DataSource::with_parent(&env, SQL_SUCCESS, 4).unwrap();
    let dbc = dbc.connect(SQL_SUCCESS).unwrap();
    assert!(matches!(dbc.close(SQL_SUCCESS, SQL_ERROR), Return::Error(())));
    let raw = DataSource::<'_, odbc_safe::Unconnected<'_>>::from_raw(9).into_raw();
    assert_eq!(raw, 9);
}
