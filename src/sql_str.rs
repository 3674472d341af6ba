use vstd::prelude::*;
use vstd::string::StringSliceAdditionalSpecFns;

verus! {

/// A string argument of a native call, passed as single byte characters with an explicit
/// length, without a terminating zero.
pub trait SqlStr {
    /// Length of the text in bytes.
    spec fn text_len(&self) -> nat;

    /// Text length as the 16 bit length of most native calls. Lengths beyond that can not be
    /// passed.
    fn text_length(&self) -> (r: i16)
        requires
            self.text_len() <= i16::MAX,
        ensures
            r as int == self.text_len(),
    ;

    /// Text length as the 32 bit length of statement texts. Lengths beyond that can not be
    /// passed.
    fn text_length_int(&self) -> (r: i32)
        requires
            self.text_len() <= i32::MAX,
        ensures
            r as int == self.text_len(),
    ;
}

impl SqlStr for [u8] {
    open spec fn text_len(&self) -> nat {
        self@.len()
    }

    fn text_length(&self) -> (r: i16) {
        self.len() as i16
    }

    fn text_length_int(&self) -> (r: i32) {
        self.len() as i32
    }
}

impl SqlStr for str {
    open spec fn text_len(&self) -> nat {
        self.spec_bytes().len()
    }

    fn text_length(&self) -> (r: i16) {
        self.len() as i16
    }

    fn text_length_int(&self) -> (r: i32) {
        self.len() as i32
    }
}

} // verus!
