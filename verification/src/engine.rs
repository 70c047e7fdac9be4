//! The calls the library makes on the WiredTiger engine, and the engine's replies.
//!
//! The library decides what to ask of the engine and what to make of its answer; the
//! caller performs the call (a C function or a method of a handle's method table) and
//! hands the reply back. Handles are the engine's handle addresses, as numbers.
use vstd::prelude::*;

use crate::error::{description_view, engine_error, Error, ErrorView, Result};

verus! {

/// A call on the engine.
#[derive(Debug)]
pub enum Call {
    /// `wiredtiger_open(home, NULL, config, &connection)`.
    Open { home: Vec<u8>, config: Vec<u8> },
    /// `connection->open_session(connection, NULL, NULL, &session)`.
    OpenSession { connection: u64 },
    /// `session->create(session, uri, config)`.
    Create { session: u64, uri: Vec<u8>, config: Vec<u8> },
    /// `session->open_cursor(session, uri, NULL, NULL, &cursor)`.
    OpenCursor { session: u64, uri: Vec<u8> },
    /// `cursor->reset(cursor)`.
    Reset { cursor: u64 },
    /// `cursor->next(cursor)`.
    Next { cursor: u64 },
    /// `cursor->insert(cursor)`.
    Insert { cursor: u64 },
    /// `cursor->get_key(cursor, &key)`.
    GetKey { cursor: u64 },
    /// `cursor->get_value(cursor, &value)`.
    GetValue { cursor: u64 },
    /// `cursor->set_key(cursor, key)`; the key's bytes must outlive the cursor's use of them.
    SetKey { cursor: u64, key: Vec<u8> },
    /// `cursor->set_value(cursor, value)`; the value's bytes must outlive the cursor's use of them.
    SetValue { cursor: u64, value: Vec<u8> },
    /// `connection->close(connection, NULL)`, whose result is ignored.
    CloseConnection { connection: u64 },
    /// `session->close(session, NULL)`, whose result is ignored.
    CloseSession { session: u64 },
    /// `cursor->close(cursor)`, whose result is ignored.
    CloseCursor { cursor: u64 },
}

/// A call on the engine, with its byte strings as sequences.
pub enum CallView {
    Open { home: Seq<u8>, config: Seq<u8> },
    OpenSession { connection: u64 },
    Create { session: u64, uri: Seq<u8>, config: Seq<u8> },
    OpenCursor { session: u64, uri: Seq<u8> },
    Reset { cursor: u64 },
    Next { cursor: u64 },
    Insert { cursor: u64 },
    GetKey { cursor: u64 },
    GetValue { cursor: u64 },
    SetKey { cursor: u64, key: Seq<u8> },
    SetValue { cursor: u64, value: Seq<u8> },
    CloseConnection { connection: u64 },
    CloseSession { session: u64 },
    CloseCursor { cursor: u64 },
}

impl View for Call {
    type V = CallView;

    open spec fn view(&self) -> CallView {
        match self {
            Call::Open { home, config } => CallView::Open { home: home@, config: config@ },
            Call::OpenSession { connection } => CallView::OpenSession { connection: *connection },
            Call::Create { session, uri, config } => CallView::Create { session: *session, uri: uri@, config: config@ },
            Call::OpenCursor { session, uri } => CallView::OpenCursor { session: *session, uri: uri@ },
            Call::Reset { cursor } => CallView::Reset { cursor: *cursor },
            Call::Next { cursor } => CallView::Next { cursor: *cursor },
            Call::Insert { cursor } => CallView::Insert { cursor: *cursor },
            Call::GetKey { cursor } => CallView::GetKey { cursor: *cursor },
            Call::GetValue { cursor } => CallView::GetValue { cursor: *cursor },
            Call::SetKey { cursor, key } => CallView::SetKey { cursor: *cursor, key: key@ },
            Call::SetValue { cursor, value } => CallView::SetValue { cursor: *cursor, value: value@ },
            Call::CloseConnection { connection } => CallView::CloseConnection { connection: *connection },
            Call::CloseSession { session } => CallView::CloseSession { session: *session },
            Call::CloseCursor { cursor } => CallView::CloseCursor { cursor: *cursor },
        }
    }
}

/// `r` is the call or error `s`, both taken by their views.
pub open spec fn request_is(r: Result<Call>, s: core::result::Result<CallView, ErrorView>) -> bool {
    match (r, s) {
        (Ok(c), Ok(v)) => c@ == v,
        (Err(e), Err(f)) => e@ == f,
        _ => false,
    }
}

/// The engine's reply to a call whose output is a `T`.
#[derive(Debug)]
pub enum Reply<T> {
    /// The handle's method table has no such method (its function pointer is null).
    Missing,
    /// The call returned `code`. `output` is what it wrote through its out-pointer, which
    /// counts only where `code` is 0 (a method that returns nothing reports 0);
    /// `description` is the engine's text for `code` (`wiredtiger_strerror`), if it has one.
    Returned { code: i32, output: T, description: Option<String> },
}

/// The error for a method that the handle's method table lacks.
pub open spec fn missing_method(method: Seq<char>) -> ErrorView {
    ErrorView::Placeholder("no "@ + method + " function pointer"@)
}

/// What the library makes of a reply to a call of `method`: the output where the call
/// returned 0, else the error for the code, or for the missing method.
pub open spec fn reply_outcome<T>(method: Seq<char>, reply: Reply<T>) -> core::result::Result<T, ErrorView> {
    match reply {
        Reply::Missing => Err(missing_method(method)),
        Reply::Returned { code, output, description } => returned_outcome(code, output, description),
    }
}

/// What the library makes of a call that returned `code`, wrote `output` and whose code
/// the engine describes as `description`: the output where `code` is 0, else the error.
pub open spec fn returned_outcome<T>(code: i32, output: T, description: Option<String>) -> core::result::Result<T, ErrorView> {
    if code == 0 {
        Ok(output)
    } else {
        Err(engine_error(code, description_view(description)))
    }
}

/// `r` is `s`, with the error taken by its view.
pub open spec fn result_is<T>(r: Result<T>, s: core::result::Result<T, ErrorView>) -> bool {
    match (r, s) {
        (Ok(a), Ok(b)) => a == b,
        (Err(e), Err(f)) => e@ == f,
        _ => false,
    }
}

/// A reply counts as success exactly where the call returned 0.
pub proof fn lemma_success_iff_zero<T>(method: Seq<char>, reply: Reply<T>)
    ensures
        reply_outcome(method, reply) is Ok <==> (reply matches Reply::Returned { code, .. } && code == 0),
{
}

/// What each reply comes to: a missing method is an error that names it; a call that
/// returned 0 gives its output; any other code is an error carrying the engine's text
/// for it, or, where the engine has none, the code itself.
pub proof fn lemma_reply_outcome<T>(method: Seq<char>, reply: Reply<T>)
    ensures
        match reply {
            Reply::Missing => reply_outcome(method, reply) == Err::<T, ErrorView>(
                ErrorView::Placeholder("no "@ + method + " function pointer"@),
            ),
            Reply::Returned { code, output, description } => reply_outcome(method, reply) == if code == 0 {
                Ok::<T, ErrorView>(output)
            } else {
                match description {
                    Some(d) => Err::<T, ErrorView>(ErrorView::Placeholder(d@)),
                    None => Err::<T, ErrorView>(ErrorView::Unknown { errno: code }),
                }
            },
        },
{
}

/// What the library makes of the reply `reply` to a call of `method`.
pub fn outcome<T>(method: &str, reply: Reply<T>) -> (r: Result<T>)
    ensures
        result_is(r, reply_outcome(method@, reply)),
        match reply {
            Reply::Missing => r matches Err(e) && e@ == ErrorView::Placeholder(
                "no "@ + method@ + " function pointer"@,
            ),
            Reply::Returned { code, output, description } => if code == 0 {
                r == Ok::<T, Error>(output)
            } else {
                match description {
                    Some(d) => r matches Err(e) && e@ == ErrorView::Placeholder(d@),
                    None => r matches Err(e) && e@ == (ErrorView::Unknown { errno: code }),
                }
            },
        },
{
    match reply {
        Reply::Missing => {
            let message = String::from_str("no ").concat(method).concat(" function pointer");
            Err(Error::Placeholder(message))
        },
        Reply::Returned { code, output, description } => returned(code, output, description),
    }
}

/// What the library makes of a call that returned `code` and wrote `output`, given the
/// engine's description of `code`.
pub fn returned<T>(code: i32, output: T, description: Option<String>) -> (r: Result<T>)
    ensures
        result_is(r, returned_outcome(code, output, description)),
{
    if code == 0 {
        Ok(output)
    } else {
        Err(Error::from_wt(code, description))
    }
}

} // verus!
