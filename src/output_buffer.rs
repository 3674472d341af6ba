use vstd::prelude::*;

verus! {

/// A fixed-width integer type the native layer takes buffer lengths in.
pub trait BufferLength: Sized {
    /// Largest length this type can express.
    spec fn max_len() -> nat;

    /// The length `self` stands for.
    spec fn len_value(&self) -> int;

    /// Largest length this type can express.
    fn max_value() -> (r: u64)
        ensures
            r as nat == Self::max_len(),
    ;

    /// Converts a length that fits into this type.
    fn from_u64(len: u64) -> (r: Self)
        requires
            len as nat <= Self::max_len(),
        ensures
            r.len_value() == len as int,
    ;
}

impl BufferLength for i16 {
    open spec fn max_len() -> nat {
        0x7fff
    }

    open spec fn len_value(&self) -> int {
        *self as int
    }

    fn max_value() -> (r: u64) {
        0x7fff
    }

    fn from_u64(len: u64) -> (r: Self) {
        len as i16
    }
}

impl BufferLength for i64 {
    open spec fn max_len() -> nat {
        0x7fff_ffff_ffff_ffff
    }

    open spec fn len_value(&self) -> int {
        *self as int
    }

    fn max_value() -> (r: u64) {
        0x7fff_ffff_ffff_ffff
    }

    fn from_u64(len: u64) -> (r: Self) {
        len as i64
    }
}

/// `len` clamped to what the length type `T` can express.
pub open spec fn clamped<T: BufferLength>(len: nat) -> int {
    if len <= T::max_len() {
        len as int
    } else {
        T::max_len() as int
    }
}

/// A buffer the native layer writes into.
///
/// The length passed along with it is clamped, not wrapped, to the largest value of the length
/// type: a buffer declared too small is harmless, a wrapped length is not. An empty buffer is
/// passed as a null pointer.
pub trait OutputBuffer {
    /// Size of the buffer in bytes.
    spec fn buf_size(&self) -> nat;

    /// Length to declare for this buffer in a native call.
    fn buf_len<T: BufferLength>(&self) -> (r: T)
        ensures
            r.len_value() == clamped::<T>(self.buf_size()),
    ;

    /// Whether this buffer is to be passed as a null pointer.
    fn passes_null_pointer(&self) -> (r: bool)
        ensures
            r == (self.buf_size() == 0),
    ;
}

impl OutputBuffer for [u8] {
    open spec fn buf_size(&self) -> nat {
        self@.len()
    }

    fn buf_len<T: BufferLength>(&self) -> (r: T) {
        let max = T::max_value();
        let len = self.len() as u64;
        if len <= max {
            T::from_u64(len)
        } else {
            T::from_u64(max)
        }
    }

    fn passes_null_pointer(&self) -> (r: bool) {
        self.len() == 0
    }
}

} // verus!
