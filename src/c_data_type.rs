use vstd::prelude::*;
use crate::output_buffer::clamped;

verus! {

/// C type code of a byte buffer.
pub const SQL_C_BINARY: i16 = -2;
/// C type code of a signed 16 bit integer.
pub const SQL_C_SSHORT: i16 = -15;
/// C type code of an unsigned 16 bit integer.
pub const SQL_C_USHORT: i16 = -17;
/// C type code of a signed 32 bit integer.
pub const SQL_C_SLONG: i16 = -16;
/// C type code of an unsigned 32 bit integer.
pub const SQL_C_ULONG: i16 = -18;
/// C type code of a signed 8 bit integer.
pub const SQL_C_STINYINT: i16 = -26;
/// C type code of an unsigned 8 bit integer.
pub const SQL_C_UTINYINT: i16 = -28;
/// C type code of a signed 64 bit integer.
pub const SQL_C_SBIGINT: i16 = -25;
/// C type code of an unsigned 64 bit integer.
pub const SQL_C_UBIGINT: i16 = -27;

/// A host value the native layer can read (parameter binding) or write (column binding, get
/// data): its C type code and the length of its buffer in bytes.
///
/// Implemented for a closed set of integer types and for byte buffers.
pub trait CDataType {
    /// C type code of this type.
    spec fn type_tag() -> i16;

    /// Length in bytes of the buffer of `self`.
    spec fn byte_len(&self) -> int;

    /// C data type of the buffer.
    fn c_data_type() -> (r: i16)
        ensures
            r == Self::type_tag(),
    ;

    /// Length of the buffer in bytes.
    fn buffer_len(&self) -> (r: i64)
        ensures
            r as int == self.byte_len(),
    ;
}

impl CDataType for [u8] {
    open spec fn type_tag() -> i16 {
        SQL_C_BINARY
    }

    /// The slice length, clamped to the largest length the native layer can take.
    open spec fn byte_len(&self) -> int {
        clamped::<i64>(self@.len())
    }

    fn c_data_type() -> (r: i16) {
        SQL_C_BINARY
    }

    fn buffer_len(&self) -> (r: i64) {
        let len = self.len() as u64;
        if len <= 0x7fff_ffff_ffff_ffff {
            len as i64
        } else {
            0x7fff_ffff_ffff_ffff
        }
    }
}

impl CDataType for i16 {
    open spec fn type_tag() -> i16 {
        SQL_C_SSHORT
    }

    open spec fn byte_len(&self) -> int {
        2
    }

    fn c_data_type() -> (r: i16) {
        SQL_C_SSHORT
    }

    fn buffer_len(&self) -> (r: i64) {
        2
    }
}

impl CDataType for u16 {
    open spec fn type_tag() -> i16 {
        SQL_C_USHORT
    }

    open spec fn byte_len(&self) -> int {
        2
    }

    fn c_data_type() -> (r: i16) {
        SQL_C_USHORT
    }

    fn buffer_len(&self) -> (r: i64) {
        2
    }
}

impl CDataType for i32 {
    open spec fn type_tag() -> i16 {
        SQL_C_SLONG
    }

    open spec fn byte_len(&self) -> int {
        4
    }

    fn c_data_type() -> (r: i16) {
        SQL_C_SLONG
    }

    fn buffer_len(&self) -> (r: i64) {
        4
    }
}

impl CDataType for u32 {
    open spec fn type_tag() -> i16 {
        SQL_C_ULONG
    }

    open spec fn byte_len(&self) -> int {
        4
    }

    fn c_data_type() -> (r: i16) {
        SQL_C_ULONG
    }

    fn buffer_len(&self) -> (r: i64) {
        4
    }
}

impl CDataType for i8 {
    open spec fn type_tag() -> i16 {
        SQL_C_STINYINT
    }

    open spec fn byte_len(&self) -> int {
        1
    }

    fn c_data_type() -> (r: i16) {
        SQL_C_STINYINT
    }

    fn buffer_len(&self) -> (r: i64) {
        1
    }
}

impl CDataType for u8 {
    open spec fn type_tag() -> i16 {
        SQL_C_UTINYINT
    }

    open spec fn byte_len(&self) -> int {
        1
    }

    fn c_data_type() -> (r: i16) {
        SQL_C_UTINYINT
    }

    fn buffer_len(&self) -> (r: i64) {
        1
    }
}

impl CDataType for i64 {
    open spec fn type_tag() -> i16 {
        SQL_C_SBIGINT
    }

    open spec fn byte_len(&self) -> int {
        8
    }

    fn c_data_type() -> (r: i16) {
        SQL_C_SBIGINT
    }

    fn buffer_len(&self) -> (r: i64) {
        8
    }
}

impl CDataType for u64 {
    open spec fn type_tag() -> i16 {
        SQL_C_UBIGINT
    }

    open spec fn byte_len(&self) -> int {
        8
    }

    fn c_data_type() -> (r: i16) {
        SQL_C_UBIGINT
    }

    fn buffer_len(&self) -> (r: i64) {
        8
    }
}

} // verus!
