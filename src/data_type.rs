use vstd::prelude::*;

verus! {

/// SQL type code: the driver does not know the type.
pub const SQL_UNKNOWN_TYPE: i16 = 0;
/// SQL type code of fixed sized single byte character data.
pub const SQL_CHAR: i16 = 1;
/// SQL type code of exact numerical data.
pub const SQL_NUMERIC: i16 = 2;
/// SQL type code of exact numerical data.
pub const SQL_DECIMAL: i16 = 3;
/// SQL type code of 32 bit integers.
pub const SQL_INTEGER: i16 = 4;
/// SQL type code of 16 bit integers.
pub const SQL_SMALLINT: i16 = 5;
/// SQL type code of approximate numerical data.
pub const SQL_FLOAT: i16 = 6;
/// SQL type code of approximate numerical data with precision 7.
pub const SQL_REAL: i16 = 7;
/// SQL type code of approximate numerical data with precision 15.
pub const SQL_DOUBLE: i16 = 8;
/// SQL type code of variadic sized single byte character data.
pub const SQL_VARCHAR: i16 = 12;

/// Describes a column or parameter type.
#[derive(Debug, Clone, Copy, PartialEq, Eq, Structural)]
pub enum DataType {
    /// Fixed sized single byte character data
    Char(u64),
    /// Exact numerical, with (Precision, Scale)
    Numeric(u64, i16),
    /// Exact numerical, with (Precision, Scale)
    Decimal(u64, i16),
    /// Integer numerical with precision 10
    Integer,
    /// Small integer numerical with precision 5
    SmallInt,
    /// Approximate numerical with precision 15
    Float,
    /// Approximate numerical with precison 7
    Real,
    /// Approximate numerical with precision 15
    Double,
    /// Variadic sized single byte character data
    Varchar(u64),
}

/// The SQL type codes this library knows: the supported types and the unknown type.
pub open spec fn is_described_type(code: i16) -> bool {
    code == SQL_UNKNOWN_TYPE || code == SQL_CHAR || code == SQL_NUMERIC || code == SQL_DECIMAL
        || code == SQL_INTEGER || code == SQL_SMALLINT || code == SQL_FLOAT || code == SQL_REAL
        || code == SQL_DOUBLE || code == SQL_VARCHAR
}

impl DataType {
    /// The type a (type code, column size, decimal digits) triplet describes; `None` for the
    /// unknown type.
    pub open spec fn described(data_type: i16, column_size: u64, decimal_digits: i16) -> Option<
        DataType,
    > {
        if data_type == SQL_CHAR {
            Some(DataType::Char(column_size))
        } else if data_type == SQL_NUMERIC {
            Some(DataType::Numeric(column_size, decimal_digits))
        } else if data_type == SQL_DECIMAL {
            Some(DataType::Decimal(column_size, decimal_digits))
        } else if data_type == SQL_INTEGER {
            Some(DataType::Integer)
        } else if data_type == SQL_SMALLINT {
            Some(DataType::SmallInt)
        } else if data_type == SQL_FLOAT {
            Some(DataType::Float)
        } else if data_type == SQL_REAL {
            Some(DataType::Real)
        } else if data_type == SQL_DOUBLE {
            Some(DataType::Double)
        } else if data_type == SQL_VARCHAR {
            Some(DataType::Varchar(column_size))
        } else {
            None
        }
    }

    /// SQL type code of this type.
    pub open spec fn type_code(self) -> i16 {
        match self {
            DataType::Char(_) => SQL_CHAR,
            DataType::Numeric(_, _) => SQL_NUMERIC,
            DataType::Decimal(_, _) => SQL_DECIMAL,
            DataType::Integer => SQL_INTEGER,
            DataType::SmallInt => SQL_SMALLINT,
            DataType::Float => SQL_FLOAT,
            DataType::Real => SQL_REAL,
            DataType::Double => SQL_DOUBLE,
            DataType::Varchar(_) => SQL_VARCHAR,
        }
    }

    /// Column size of this type.
    pub open spec fn size(self) -> u64 {
        match self {
            DataType::Numeric(precision, _) => precision,
            DataType::Decimal(precision, _) => precision,
            DataType::Integer => 10,
            DataType::SmallInt => 5,
            DataType::Float => 15,
            DataType::Double => 15,
            DataType::Real => 7,
            DataType::Char(len) => len,
            DataType::Varchar(len) => len,
        }
    }

    /// Decimal digits of this type.
    pub open spec fn digits(self) -> i16 {
        match self {
            DataType::Numeric(_, scale) => scale,
            DataType::Decimal(_, scale) => scale,
            DataType::SmallInt => 5,
            _ => 0,
        }
    }

    /// Creates a `DataType` from a triplet. `column_size` and `decimal_digits` are ignored where
    /// the type does not require them. The unknown type, and any type code outside the supported
    /// ones, gives `None`: the driver reports a type this enumeration does not describe, which is
    /// not an error.
    pub fn new(data_type: i16, column_size: u64, decimal_digits: i16) -> (r: Option<DataType>)
        ensures
            r == DataType::described(data_type, column_size, decimal_digits),
            r is None <==> !(is_described_type(data_type) && data_type != SQL_UNKNOWN_TYPE),
    {
        if data_type == SQL_CHAR {
            Some(DataType::Char(column_size))
        } else if data_type == SQL_NUMERIC {
            Some(DataType::Numeric(column_size, decimal_digits))
        } else if data_type == SQL_DECIMAL {
            Some(DataType::Decimal(column_size, decimal_digits))
        } else if data_type == SQL_INTEGER {
            Some(DataType::Integer)
        } else if data_type == SQL_SMALLINT {
            Some(DataType::SmallInt)
        } else if data_type == SQL_FLOAT {
            Some(DataType::Float)
        } else if data_type == SQL_REAL {
            Some(DataType::Real)
        } else if data_type == SQL_DOUBLE {
            Some(DataType::Double)
        } else if data_type == SQL_VARCHAR {
            Some(DataType::Varchar(column_size))
        } else {
            None
        }
    }

    /// Whether `DataType::new` can describe the SQL type code `data_type`.
    pub fn is_described(data_type: i16) -> (r: bool)
        ensures
            r == is_described_type(data_type),
    {
        data_type == SQL_UNKNOWN_TYPE || data_type == SQL_CHAR || data_type == SQL_NUMERIC
            || data_type == SQL_DECIMAL || data_type == SQL_INTEGER || data_type == SQL_SMALLINT
            || data_type == SQL_FLOAT || data_type == SQL_REAL || data_type == SQL_DOUBLE
            || data_type == SQL_VARCHAR
    }

    /// SQL type code of this type.
    pub fn sql_data_type(&self) -> (r: i16)
        ensures
            r == self.type_code(),
    {
        match *self {
            DataType::Char(_) => SQL_CHAR,
            DataType::Numeric(_, _) => SQL_NUMERIC,
            DataType::Decimal(_, _) => SQL_DECIMAL,
            DataType::Integer => SQL_INTEGER,
            DataType::SmallInt => SQL_SMALLINT,
            DataType::Float => SQL_FLOAT,
            DataType::Real => SQL_REAL,
            DataType::Double => SQL_DOUBLE,
            DataType::Varchar(_) => SQL_VARCHAR,
        }
    }

    /// Column size: the precision of numeric types, the length of character types.
    pub fn column_size(&self) -> (r: u64)
        ensures
            r == self.size(),
    {
        match *self {
            DataType::Numeric(precision, _) => precision,
            DataType::Decimal(precision, _) => precision,
            DataType::Integer => 10,
            DataType::SmallInt => 5,
            DataType::Float => 15,
            DataType::Double => 15,
            DataType::Real => 7,
            DataType::Char(len) => len,
            DataType::Varchar(len) => len,
        }
    }

    /// Decimal digits: the scale of exact numeric types.
    pub fn decimal_digits(&self) -> (r: i16)
        ensures
            r == self.digits(),
    {
        match *self {
            DataType::Char(_) => 0,
            DataType::Integer => 0,
            DataType::Float => 0,
            DataType::Real => 0,
            DataType::Double => 0,
            DataType::Varchar(_) => 0,
            DataType::Numeric(_, scale) => scale,
            DataType::Decimal(_, scale) => scale,
            DataType::SmallInt => 5,
        }
    }
}

/// A type built from a triplet reports the type code, and for the types that carry them the
/// column size and decimal digits, it was built from.
pub proof fn lemma_data_type_round_trip(data_type: i16, column_size: u64, decimal_digits: i16)
    requires
        is_described_type(data_type),
        data_type != SQL_UNKNOWN_TYPE,
    ensures
        DataType::described(data_type, column_size, decimal_digits) matches Some(t) && {
            &&& t.type_code() == data_type
            &&& (data_type == SQL_CHAR || data_type == SQL_VARCHAR || data_type == SQL_NUMERIC
                || data_type == SQL_DECIMAL) ==> t.size() == column_size
            &&& (data_type == SQL_NUMERIC || data_type == SQL_DECIMAL) ==> t.digits()
                == decimal_digits
        },
{
}

} // verus!
