use vstd::prelude::*;
use crate::handles::{Handle, HandleRef};
use crate::output_buffer::{clamped, OutputBuffer};
use crate::return_::Return;
use crate::return_option::ReturnOption;

verus! {

/// Result of a diagnostics query.
#[derive(Debug, Clone, Copy)]
pub struct DiagResult {
    /// A five-character SQLSTATE code (and terminating NULL) for the diagnostic record. The first
    /// two characters indicate the class; the next three indicate the subclass.
    pub state: [u8; 6],
    /// Native error code specific to the data source.
    pub native_error: i32,
    /// The total number of characters (excluding the terminating NULL) available to return in
    /// the message text, whatever the size of the buffer supplied.
    pub text_length: i16,
}

/// How many bytes of a message of `text_length` characters a message buffer of `buffer_len`
/// bytes holds, not counting the terminating zero.
///
/// The buffer is declared to the native layer with its length clamped to 16 bits. A message that
/// fits entirely (terminating zero included) is stored whole; a longer one is truncated so that
/// the terminating zero still fits, and an empty buffer holds nothing.
pub open spec fn stored_len(text_length: int, buffer_len: nat) -> int {
    let declared = clamped::<i16>(buffer_len);
    if text_length < declared {
        if text_length < 0 {
            0
        } else {
            text_length
        }
    } else if declared == 0 {
        0
    } else {
        declared - 1
    }
}

impl DiagResult {
    /// Whether the message did not fit a buffer of `buffer_len` bytes, terminating zero included.
    pub fn is_truncated(&self, buffer_len: usize) -> (r: bool)
        ensures
            r == (stored_len(self.text_length as int, buffer_len as nat) < self.text_length),
    {
        self.text_length as i64 >= 0 && (self.text_length as usize) > self.message_len(buffer_len)
    }

    /// Number of message bytes a buffer of `buffer_len` bytes holds after the query that
    /// produced `self`, not counting the terminating zero.
    pub fn message_len(&self, buffer_len: usize) -> (r: usize)
        ensures
            r as int == stored_len(self.text_length as int, buffer_len as nat),
    {
        let declared: usize = if buffer_len <= 0x7fff {
            buffer_len
        } else {
            0x7fff
        };
        if self.text_length < 0 {
            0
        } else if (self.text_length as usize) < declared {
            self.text_length as usize
        } else if declared == 0 {
            0
        } else {
            declared - 1
        }
    }
}

/// Length to declare to the native layer for a message buffer.
pub fn message_buffer_len(message_text: &[u8]) -> (r: i16)
    ensures
        r as int == clamped::<i16>(message_text@.len()),
{
    message_text.buf_len()
}

/// Interprets what the native diagnostics query reported: the status `code`, and the state,
/// native error and total message length it wrote.
///
/// `Success` and `Info` (the message buffer was too small) carry the record; `NoData` means there
/// is no record of that number; `Error` means the record number was not positive.
pub fn diag_result(code: i16, state: [u8; 6], native_error: i32, text_length: i16) -> (r:
    ReturnOption<DiagResult>)
    requires
        ReturnOption::<()>::accepts(code),
    ensures
        r.reflects(code),
        r matches ReturnOption::Success(d) ==> d == (DiagResult { state, native_error, text_length }),
        r matches ReturnOption::Info(d) ==> d == (DiagResult { state, native_error, text_length }),
{
    let result = DiagResult { state, native_error, text_length };
    ReturnOption::from_code(code).map(|u: ()| -> (d: DiagResult)
        ensures
            d == result,
        { result })
}

/// A type implementing this trait is able to provide diagnostic information regarding the last
/// operation on it: it names the handle whose diagnostic records describe it.
pub trait Diagnostics {
    /// The handle to ask for diagnostic records.
    spec fn diag_handle(&self) -> HandleRef;

    /// The handle to ask for diagnostic records.
    fn diagnostics_handle(&self) -> (r: HandleRef)
        ensures
            r == self.diag_handle(),
    ;
}

impl<H: Handle> Diagnostics for H {
    open spec fn diag_handle(&self) -> HandleRef {
        HandleRef { handle_type: H::tag(), handle: self.raw_handle() }
    }

    fn diagnostics_handle(&self) -> (r: HandleRef) {
        HandleRef { handle_type: H::handle_type(), handle: self.handle() }
    }
}

impl<S: Diagnostics, E: Diagnostics> Diagnostics for Return<S, E> {
    open spec fn diag_handle(&self) -> HandleRef {
        match self {
            Return::Success(s) => s.diag_handle(),
            Return::Info(s) => s.diag_handle(),
            Return::Error(e) => e.diag_handle(),
        }
    }

    fn diagnostics_handle(&self) -> (r: HandleRef) {
        match self {
            Return::Success(s) => s.diagnostics_handle(),
            Return::Info(s) => s.diagnostics_handle(),
            Return::Error(e) => e.diagnostics_handle(),
        }
    }
}

impl<S: Diagnostics, E: Diagnostics> Diagnostics for ReturnOption<S, E> {
    open spec fn diag_handle(&self) -> HandleRef {
        match self {
            ReturnOption::Success(s) => s.diag_handle(),
            ReturnOption::Info(s) => s.diag_handle(),
            ReturnOption::NoData(e) => e.diag_handle(),
            ReturnOption::Error(e) => e.diag_handle(),
        }
    }

    fn diagnostics_handle(&self) -> (r: HandleRef) {
        match self {
            ReturnOption::Success(s) => s.diagnostics_handle(),
            ReturnOption::Info(s) => s.diagnostics_handle(),
            ReturnOption::NoData(e) => e.diagnostics_handle(),
            ReturnOption::Error(e) => e.diagnostics_handle(),
        }
    }
}

} // verus!
