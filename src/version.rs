use vstd::prelude::*;

verus! {

/// Value of the environment attribute declaring ODBC 3.x behaviour.
pub const SQL_OV_ODBC3: i32 = 3;

/// Value of the environment attribute declaring ODBC 3.8 behaviour.
pub const SQL_OV_ODBC3_80: i32 = 380;

/// Implemented by every version marker of an `Environment`, declared or not.
pub trait VersionOption {}

/// Type indicates a declared ODBC Version.
pub trait Version: VersionOption {
    /// The version attribute value this marker declares.
    spec fn attribute() -> i32;

    /// The `SQL_ATTR_ODBC_VERSION` value to declare with the native layer.
    fn constant() -> (r: i32)
        ensures
            r == Self::attribute(),
    ;
}

/// Used to indicate that the ODBC environments version is not yet declared
#[derive(Debug, Clone, Copy)]
pub struct NoVersion;

/// Used to declare ODBC 3 specifications.
#[derive(Debug, Clone, Copy)]
pub struct Odbc3;

/// Used to declare ODBC 3.8 specifications.
#[derive(Debug, Clone, Copy)]
pub struct Odbc3m8;

impl VersionOption for NoVersion {}

impl VersionOption for Odbc3 {}

impl VersionOption for Odbc3m8 {}

impl Version for Odbc3 {
    open spec fn attribute() -> i32 {
        SQL_OV_ODBC3
    }

    fn constant() -> (r: i32) {
        SQL_OV_ODBC3
    }
}

impl Version for Odbc3m8 {
    open spec fn attribute() -> i32 {
        SQL_OV_ODBC3_80
    }

    fn constant() -> (r: i32) {
        SQL_OV_ODBC3_80
    }
}

} // verus!
