//! Safe, verified bindings to the ODBC call protocol.
//!
//! Every transition of the ODBC state machine (allocate, declare a version, connect, prepare,
//! execute, fetch, disconnect) is modelled in the type system, so that a call sequence error can
//! not be written down. The native layer itself is not called from here: each operation takes the
//! status code (and any output values) the native call produced and decides which state the
//! handle is in afterwards. These decisions are proved against their contracts.
pub mod c_data_type;
pub mod data_source;
pub mod data_type;
pub mod diagnostics;
pub mod environment;
pub mod handles;
pub mod indicator;
pub mod output_buffer;
pub mod protocol;
pub mod return_;
pub mod return_option;
pub mod sql_str;
pub mod statement;
pub mod version;

pub use c_data_type::CDataType;
pub use data_source::{
    AutocommitMode, AutocommitOff, AutocommitOn, Connected, Connection, DataSource, HDbcWrapper,
    Unconnected,
};
pub use data_type::DataType;
pub use diagnostics::{DiagResult, Diagnostics};
pub use environment::Environment;
pub use handles::{Handle, HandleRef, HDbc, HEnv, HStmt};
pub use indicator::Indicator;
pub use output_buffer::{BufferLength, OutputBuffer};
pub use return_::{Return, SQL_ERROR, SQL_NO_DATA, SQL_SUCCESS, SQL_SUCCESS_WITH_INFO};
pub use return_option::ReturnOption;
pub use sql_str::SqlStr;
pub use statement::{
    Binding, CursorState, NoCursor, Open, Positioned, Prepared, ResultSet, Statement, Unprepared,
};
pub use version::{NoVersion, Odbc3, Odbc3m8, Version, VersionOption};
