//! Laws of the protocol the typed layer enforces, stated over the contracts of its transitions.
use vstd::prelude::*;
use crate::data_source::{transits, AutocommitOn, Connection, DataSource, Unconnected};
use crate::diagnostics::{stored_len, Diagnostics};
use crate::handles::{HandleRef, SQL_HANDLE_DBC};
use crate::return_::{Return, SQL_ERROR, SQL_NO_DATA, SQL_SUCCESS, SQL_SUCCESS_WITH_INFO};

verus! {

/// Where the cursor of a statement stands.
pub enum CursorPosition {
    /// No result set is pending.
    NoCursor,
    /// A row of the result set is current.
    Positioned,
}

/// Where the cursor stands after a fetch reporting `code`: on a row if one was fetched, nowhere
/// after no data or an error.
pub open spec fn after_fetch(code: i16) -> CursorPosition {
    if code == SQL_SUCCESS || code == SQL_SUCCESS_WITH_INFO {
        CursorPosition::Positioned
    } else {
        CursorPosition::NoCursor
    }
}

/// Positions of the cursor over a run of fetches reporting `codes`, one after the other, on an
/// open cursor. The run ends with the first fetch that leaves no cursor, since a statement
/// without a cursor can not fetch.
pub open spec fn fetch_run(codes: Seq<i16>) -> Seq<CursorPosition>
    decreases codes.len(),
{
    if codes.len() == 0 {
        seq![]
    } else if after_fetch(codes[0]) == CursorPosition::NoCursor {
        seq![CursorPosition::NoCursor]
    } else {
        seq![CursorPosition::Positioned] + fetch_run(codes.drop_first())
    }
}

/// Fetch exhaustion: on a result set of `rows` rows, whose fetches report a row `rows` times and
/// then no data, the cursor is positioned after each of the first `rows` fetches and gone after
/// the last one, and no further fetch is possible.
pub proof fn lemma_fetch_exhaustion(rows: nat, codes: Seq<i16>)
    requires
        codes.len() == rows + 1,
        forall|i: int| 0 <= i < rows ==> #[trigger] codes[i] == SQL_SUCCESS || codes[i] == SQL_SUCCESS_WITH_INFO,
        codes[rows as int] == SQL_NO_DATA,
    ensures
        fetch_run(codes).len() == rows + 1,
        forall|i: int| 0 <= i < rows ==> #[trigger] fetch_run(codes)[i] == CursorPosition::Positioned,
        fetch_run(codes)[rows as int] == CursorPosition::NoCursor,
    decreases rows,
{
    if rows == 0 {
        assert(fetch_run(codes) == seq![CursorPosition::NoCursor]);
    } else {
        let rest = codes.drop_first();
        assert forall|i: int| 0 <= i < rows - 1 implies #[trigger] rest[i] == SQL_SUCCESS || rest[i]
            == SQL_SUCCESS_WITH_INFO by {
            assert(rest[i] == codes[i + 1]);
        }
        assert(codes[0] == SQL_SUCCESS || codes[0] == SQL_SUCCESS_WITH_INFO);
        lemma_fetch_exhaustion((rows - 1) as nat, rest);
        assert(fetch_run(codes) == seq![CursorPosition::Positioned] + fetch_run(rest));
    }
}

/// Connect and disconnect: a connect reported successful gives a connection on the same handle,
/// and a disconnect of it reported successful gives back an unconnected data source on that
/// handle, from which one can connect again. A failed connect hands back the same data
/// source, whose diagnostics are those of its connection handle.
pub proof fn lemma_connect_disconnect_round_trip<'env>(
    source: DataSource<'env, Unconnected<'env>>,
    connect_code: i16,
    connected: Return<Connection<'env, AutocommitOn>, DataSource<'env, Unconnected<'env>>>,
    disconnect_code: i16,
    disconnected: Return<DataSource<'env, Unconnected<'env>>, Connection<'env, AutocommitOn>>,
)
    requires
        Return::<()>::accepts(connect_code),
        Return::<()>::accepts(disconnect_code),
        transits(connected, connect_code, source.raw()),
        connected matches Return::Success(c) ==> transits(disconnected, disconnect_code, c.raw()),
        connected matches Return::Info(c) ==> transits(disconnected, disconnect_code, c.raw()),
    ensures
        connect_code == SQL_ERROR ==> (connected matches Return::Error(s) && s.raw() == source.raw()
            && s.diag_handle() == (HandleRef { handle_type: SQL_HANDLE_DBC, handle: source.raw() })),
        (connect_code != SQL_ERROR && disconnect_code != SQL_ERROR) ==> (disconnected matches Return::Success(
            s,
        ) && s.raw() == source.raw()) || (disconnected matches Return::Info(s) && s.raw()
            == source.raw()),
{
}

/// Diagnostic truncation: the message text of `text_length` bytes is stored whole in a buffer of
/// `buffer_len` bytes when it fits with its terminating zero (a buffer of exactly
/// `text_length + 1` bytes included); otherwise the buffer holds its first `buffer_len - 1` bytes,
/// and nothing when it is empty. The buffer length is declared in 16 bits, so a message of the
/// largest length `i16::MAX` never fits whole: at most `i16::MAX - 1` bytes of it are stored.
pub proof fn lemma_diagnostic_truncation(text_length: i16, buffer_len: nat)
    requires
        text_length >= 0,
    ensures
        (buffer_len > text_length && text_length < i16::MAX) ==> stored_len(
            text_length as int,
            buffer_len,
        ) == text_length,
        (text_length < i16::MAX && buffer_len == text_length + 1) ==> stored_len(
            text_length as int,
            buffer_len,
        ) == text_length,
        (buffer_len <= text_length && buffer_len > 0) ==> stored_len(text_length as int, buffer_len)
            == buffer_len - 1,
        buffer_len == 0 ==> stored_len(text_length as int, buffer_len) == 0,
        (text_length == i16::MAX && buffer_len > text_length) ==> stored_len(
            text_length as int,
            buffer_len,
        ) == i16::MAX - 1,
{
}

} // verus!
