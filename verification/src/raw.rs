//! Handles on the engine's connections, sessions and cursors, one step above its C API:
//! each operation is a call, which the handle prepares, and a reply, which it reads.
use vstd::prelude::*;

use crate::engine::{
    outcome, reply_outcome, request_is, result_is, returned, returned_outcome, Call, CallView,
    Reply,
};
use crate::error::{ErrorView, Result};
use crate::text::{
    ascii, decimal, first_nul, lemma_ascii_literal, lemma_c_string_fails_iff_nul,
    lemma_c_string_rejects_first_nul, lemma_table_uri_keeps_name, lemma_table_uri_nul,
    lemma_table_uri_nul_free, nul_message,
    c_string, c_string_result, connection_config, connection_config_bytes, nul_free, table_schema,
    table_schema_bytes, table_uri, table_uri_bytes,
};
use vstd::string::StringSliceAdditionalSpecFns;

verus! {

/// The call that opens a connection to the database at `home`.
pub open spec fn open_request(home: Seq<u8>) -> core::result::Result<CallView, ErrorView> {
    match c_string_result(home) {
        Ok(h) => Ok(CallView::Open { home: h, config: connection_config() }),
        Err(e) => Err(e),
    }
}

/// The call with which session `session` creates the table `name`.
pub open spec fn create_request(session: u64, name: Seq<u8>) -> core::result::Result<CallView, ErrorView> {
    match c_string_result(table_uri(name)) {
        Ok(uri) => Ok(CallView::Create { session, uri, config: table_schema() }),
        Err(e) => Err(e),
    }
}

/// The call with which session `session` opens a cursor on the table `name`.
pub open spec fn open_cursor_request(session: u64, name: Seq<u8>) -> core::result::Result<CallView, ErrorView> {
    match c_string_result(table_uri(name)) {
        Ok(uri) => Ok(CallView::OpenCursor { session, uri }),
        Err(e) => Err(e),
    }
}

/// Opening at a home without a NUL byte hands the engine exactly that home, byte for
/// byte, with the configuration `create,statistics=(all)`.
pub proof fn lemma_open_hands_home_unchanged(home: Seq<u8>)
    requires
        nul_free(home),
    ensures
        open_request(home) == Ok::<CallView, ErrorView>(
            CallView::Open { home, config: "create,statistics=(all)".spec_bytes() },
        ),
{
    reveal_strlit("create,statistics=(all)");
    lemma_ascii_literal("create,statistics=(all)");
    lemma_c_string_fails_iff_nul(home);
}

/// Opening at a home whose first NUL byte is at position `p` is refused, and the error
/// names that position.
pub proof fn lemma_open_refuses_nul(home: Seq<u8>, p: int)
    requires
        first_nul(home, p),
    ensures
        open_request(home) == Err::<CallView, ErrorView>(ErrorView::Placeholder(
            "nul byte found in provided data at position: "@ + decimal(p as nat),
        )),
{
    lemma_c_string_rejects_first_nul(home, p);
}

/// A table is created under the URI `table:` followed by its name's bytes, unchanged,
/// with string keys and string values whatever its name; the call fails exactly where
/// the name holds a NUL byte, and then names the byte's position in the URI.
pub proof fn lemma_create_request(session: u64, name: Seq<u8>)
    ensures
        create_request(session, name) is Ok <==> nul_free(name),
        nul_free(name) ==> create_request(session, name) == Ok::<CallView, ErrorView>(
            CallView::Create {
                session,
                uri: "table:".spec_bytes() + name,
                config: "key_format=S,value_format=S".spec_bytes(),
            },
        ),
        forall|i: int| #[trigger] first_nul(name, i) ==> create_request(session, name) == Err::<CallView, ErrorView>(
            ErrorView::Placeholder("nul byte found in provided data at position: "@ + decimal((i + 6) as nat)),
        ),
{
    reveal_strlit("key_format=S,value_format=S");
    lemma_ascii_literal("key_format=S,value_format=S");
    lemma_table_uri_keeps_name(name);
    lemma_table_uri_nul_free(name);
    lemma_c_string_fails_iff_nul(table_uri(name));
    assert forall|i: int| #[trigger] first_nul(name, i) implies create_request(session, name) == Err::<CallView, ErrorView>(
        ErrorView::Placeholder("nul byte found in provided data at position: "@ + decimal((i + 6) as nat)),
    ) by {
        lemma_table_uri_nul(name, i);
        lemma_c_string_rejects_first_nul(table_uri(name), i + 6);
    }
}

/// A cursor is opened on the URI `table:` followed by the table name's bytes,
/// unchanged; the call fails exactly where the name holds a NUL byte, and then names the
/// byte's position in the URI.
pub proof fn lemma_open_cursor_request(session: u64, name: Seq<u8>)
    ensures
        open_cursor_request(session, name) is Ok <==> nul_free(name),
        nul_free(name) ==> open_cursor_request(session, name) == Ok::<CallView, ErrorView>(
            CallView::OpenCursor { session, uri: "table:".spec_bytes() + name },
        ),
        forall|i: int| #[trigger] first_nul(name, i) ==> open_cursor_request(session, name) == Err::<CallView, ErrorView>(
            ErrorView::Placeholder("nul byte found in provided data at position: "@ + decimal((i + 6) as nat)),
        ),
{
    lemma_table_uri_keeps_name(name);
    lemma_table_uri_nul_free(name);
    lemma_c_string_fails_iff_nul(table_uri(name));
    assert forall|i: int| #[trigger] first_nul(name, i) implies open_cursor_request(session, name) == Err::<CallView, ErrorView>(
        ErrorView::Placeholder("nul byte found in provided data at position: "@ + decimal((i + 6) as nat)),
    ) by {
        lemma_table_uri_nul(name, i);
        lemma_c_string_rejects_first_nul(table_uri(name), i + 6);
    }
}

/// A cursor opened on a table name addresses the table that creating a table of that
/// name makes: both calls name the same URI, or both fail with the same error.
pub proof fn lemma_cursor_opens_created_table(session: u64, name: Seq<u8>)
    ensures
        match (create_request(session, name), open_cursor_request(session, name)) {
            (Ok(CallView::Create { uri: a, .. }), Ok(CallView::OpenCursor { uri: b, .. })) => a == b,
            (Err(e), Err(f)) => e == f,
            _ => false,
        },
{
}

/// A table name with its first NUL byte at position `i` is refused, and the error
/// names position `i` plus the length of the URI's `table:` prefix.
pub proof fn lemma_table_name_nul_position(session: u64, name: Seq<u8>, i: int)
    requires
        first_nul(name, i),
    ensures
        create_request(session, name) == Err::<CallView, ErrorView>(ErrorView::Placeholder(nul_message((i + 6) as nat))),
        open_cursor_request(session, name) == Err::<CallView, ErrorView>(ErrorView::Placeholder(nul_message((i + 6) as nat))),
{
    reveal_strlit("table:");
    let uri = table_uri(name);
    assert(ascii("table:"@).len() == 6);
    assert(first_nul(uri, i + 6)) by {
        assert forall|j: int| 0 <= j < i + 6 implies uri[j] != 0 by {
            if j >= 6 {
                assert(uri[j] == name[j - 6]);
            }
        }
    }
    lemma_c_string_rejects_first_nul(uri, i + 6);
}

/// `r` holds a handle that is `s`'s output, or the error that is `s`'s.
pub open spec fn handle_is<H>(r: Result<H>, s: core::result::Result<u64, ErrorView>, handle: spec_fn(H) -> u64) -> bool {
    match (r, s) {
        (Ok(h), Ok(a)) => handle(h) == a,
        (Err(e), Err(f)) => e@ == f,
        _ => false,
    }
}

/// A connection to a WiredTiger database.
/// The connection may be opened within the same address space as the caller or accessed over a socket connection.
/// Most applications will open a single connection to a database for each process. The first process to open a connection to a database will access the database in its own address space. Subsequent connections (if allowed) will communicate with the first process over a socket connection to perform their operations.
/// Thread safety: A WT_CONNECTION handle may be shared between threads. See Multithreading for more information.
pub struct Connection {
    handle: u64,
}

impl Connection {
    /// The engine's handle of this connection.
    pub closed spec fn handle(self) -> u64 {
        self.handle
    }

    /// The call that opens a connection to the database at `home` (a directory, by the
    /// bytes of its path), creating it if it does not exist: fails where `home` holds a
    /// NUL byte.
    pub fn open_call(home: &[u8]) -> (r: Result<Call>)
        ensures
            request_is(r, open_request(home@)),
            nul_free(home@) ==> r is Ok,
            r matches Ok(c) ==> c@ == (CallView::Open {
                home: home@,
                config: "create,statistics=(all)".spec_bytes(),
            }),
    {
        proof {
            lemma_c_string_fails_iff_nul(home@);
            if nul_free(home@) {
                lemma_open_hands_home_unchanged(home@);
            }
        }
        let home = c_string(home)?;
        Ok(Call::Open { home, config: connection_config_bytes() })
    }

    /// The connection that `wiredtiger_open` gave, where it returned `code` and wrote
    /// `connection`; `description` is the engine's text for `code`.
    pub fn open(code: i32, connection: u64, description: Option<String>) -> (r: Result<Connection>)
        ensures
            handle_is(r, returned_outcome(code, connection, description), |c: Connection| c.handle()),
    {
        let handle = returned(code, connection, description)?;
        Ok(Connection { handle })
    }

    /// The call that opens a session on this connection.
    pub fn open_session_call(&self) -> (c: Call)
        ensures
            c@ == (CallView::OpenSession { connection: self.handle() }),
    {
        Call::OpenSession { connection: self.handle }
    }

    /// The session that the engine opened on this connection, given its reply.
    pub fn open_session(&mut self, reply: Reply<u64>) -> (r: Result<Session>)
        ensures
            *final(self) == *old(self),
            handle_is(r, reply_outcome("open_session"@, reply), |s: Session| s.handle()),
    {
        let handle = outcome("open_session", reply)?;
        Ok(Session { handle })
    }

    /// The call that closes this connection.
    pub fn close_call(&self) -> (c: Call)
        ensures
            c@ == (CallView::CloseConnection { connection: self.handle() }),
    {
        Call::CloseConnection { connection: self.handle }
    }
}

/// All data operations are performed in the context of a WT_SESSION.
/// This encapsulates the thread and transactional context of the operation.
/// Thread safety: A WT_SESSION handle is not usually shared between threads, see Multithreading for more information.
pub struct Session {
    handle: u64,
}

impl Session {
    /// The engine's handle of this session.
    pub closed spec fn handle(self) -> u64 {
        self.handle
    }

    /// The call that creates the table `table_name`, whose keys and values are strings:
    /// fails where the table's URI holds a NUL byte.
    pub fn create_table_call(&self, table_name: &str) -> (r: Result<Call>)
        ensures
            request_is(r, create_request(self.handle(), table_name.spec_bytes())),
            nul_free(table_name.spec_bytes()) ==> r is Ok,
            r matches Ok(c) ==> c@ == (CallView::Create {
                session: self.handle(),
                uri: "table:".spec_bytes() + table_name.spec_bytes(),
                config: "key_format=S,value_format=S".spec_bytes(),
            }),
    {
        proof {
            lemma_create_request(self.handle(), table_name.spec_bytes());
        }
        let uri = table_uri_bytes(table_name)?;
        Ok(Call::Create { session: self.handle, uri, config: table_schema_bytes() })
    }

    /// What creating a table came to, given the engine's reply.
    pub fn create_table(&mut self, reply: Reply<()>) -> (r: Result<()>)
        ensures
            *final(self) == *old(self),
            result_is(r, reply_outcome("create"@, reply)),
    {
        outcome("create", reply)
    }

    /// The call that opens a cursor on the table `table_name`: fails where the table's
    /// URI holds a NUL byte.
    pub fn open_cursor_call(&self, table_name: &str) -> (r: Result<Call>)
        ensures
            request_is(r, open_cursor_request(self.handle(), table_name.spec_bytes())),
            nul_free(table_name.spec_bytes()) ==> r is Ok,
            r matches Ok(c) ==> c@ == (CallView::OpenCursor {
                session: self.handle(),
                uri: "table:".spec_bytes() + table_name.spec_bytes(),
            }),
    {
        proof {
            lemma_open_cursor_request(self.handle(), table_name.spec_bytes());
        }
        let uri = table_uri_bytes(table_name)?;
        Ok(Call::OpenCursor { session: self.handle, uri })
    }

    /// The cursor that the engine opened, given its reply. The cursor has no key and no
    /// value set.
    pub fn open_cursor(&mut self, reply: Reply<u64>) -> (r: Result<Cursor>)
        ensures
            *final(self) == *old(self),
            handle_is(r, reply_outcome("open_cursor"@, reply), |c: Cursor| c.handle()),
            r matches Ok(c) ==> !c.key_set() && !c.value_set(),
    {
        let handle = outcome("open_cursor", reply)?;
        Ok(Cursor { handle, key_set: Ghost(false), value_set: Ghost(false) })
    }

    /// The call that closes this session.
    pub fn close_call(&self) -> (c: Call)
        ensures
            c@ == (CallView::CloseSession { session: self.handle() }),
    {
        Call::CloseSession { session: self.handle }
    }
}

/// Cursors allow data to be searched, iterated and modified, implementing the CRUD (create, read, update and delete) operations. Cursors are opened in the context of a session. If a transaction is started, cursors operate in the context of the transaction until the transaction is resolved.
/// Raw data is represented by key/value pairs of WT_ITEM structures, but cursors can also provide access to fields within the key and value if the formats are described in the WT_SESSION::create method.
/// In the common case, a cursor is used to access records in a table. However, cursors can be used on subsets of tables (such as a single column or a projection of multiple columns), as an interface to statistics, configuration data or application-specific data sources. See WT_SESSION::open_cursor for more information.
/// Thread safety: A WT_CURSOR handle is not usually shared between threads. See Multithreading for more information.
///
/// The cursor keeps track of whether a key and a value have been set on it since it was
/// opened, reset, moved or last inserted through: an insert needs both.
pub struct Cursor {
    handle: u64,
    key_set: Ghost<bool>,
    value_set: Ghost<bool>,
}

impl Cursor {
    /// The engine's handle of this cursor.
    pub closed spec fn handle(self) -> u64 {
        self.handle
    }

    /// A key has been set on this cursor and is still in force.
    pub closed spec fn key_set(self) -> bool {
        self.key_set@
    }

    /// A value has been set on this cursor and is still in force.
    pub closed spec fn value_set(self) -> bool {
        self.value_set@
    }

    /// The engine's handle of this cursor.
    pub(crate) fn handle_id(&self) -> (h: u64)
        ensures
            h == self.handle(),
    {
        self.handle
    }

    /// The call that resets this cursor.
    pub fn reset_call(&self) -> (c: Call)
        ensures
            c@ == (CallView::Reset { cursor: self.handle() }),
    {
        Call::Reset { cursor: self.handle }
    }

    /// What resetting came to, given the engine's reply. Afterwards no key and no value
    /// count as set.
    pub fn reset(&mut self, reply: Reply<()>) -> (r: Result<()>)
        ensures
            final(self).handle() == old(self).handle(),
            !final(self).key_set() && !final(self).value_set(),
            result_is(r, reply_outcome("reset"@, reply)),
    {
        self.forget_key_and_value();
        outcome("reset", reply)
    }

    /// The call that moves this cursor to the next record.
    pub fn advance_call(&self) -> (c: Call)
        ensures
            c@ == (CallView::Next { cursor: self.handle() }),
    {
        Call::Next { cursor: self.handle }
    }

    /// What moving to the next record came to, given the engine's reply. A missing method
    /// is reported under the name `reset`. Afterwards no key and no value count as set.
    pub fn advance(&mut self, reply: Reply<()>) -> (r: Result<()>)
        ensures
            final(self).handle() == old(self).handle(),
            !final(self).key_set() && !final(self).value_set(),
            result_is(r, reply_outcome("reset"@, reply)),
    {
        self.forget_key_and_value();
        outcome("reset", reply)
    }

    /// The call that inserts the record whose key and value are set on this cursor.
    pub fn insert_call(&self) -> (c: Call)
        requires
            self.key_set(),
            self.value_set(),
        ensures
            c@ == (CallView::Insert { cursor: self.handle() }),
    {
        Call::Insert { cursor: self.handle }
    }

    /// What inserting came to, given the engine's reply. Afterwards no key and no value
    /// count as set.
    pub fn insert(&mut self, reply: Reply<()>) -> (r: Result<()>)
        ensures
            final(self).handle() == old(self).handle(),
            !final(self).key_set() && !final(self).value_set(),
            result_is(r, reply_outcome("insert"@, reply)),
    {
        self.forget_key_and_value();
        outcome("insert", reply)
    }

    /// The call that reads the key of the record the cursor is on.
    pub fn get_key_call(&self) -> (c: Call)
        ensures
            c@ == (CallView::GetKey { cursor: self.handle() }),
    {
        Call::GetKey { cursor: self.handle }
    }

    /// The key the engine read, given its reply: its bytes, unchanged.
    pub fn get_key(&mut self, reply: Reply<Vec<u8>>) -> (r: Result<Vec<u8>>)
        ensures
            *final(self) == *old(self),
            result_is(r, reply_outcome("get_key"@, reply)),
    {
        outcome("get_key", reply)
    }

    /// The call that reads the value of the record the cursor is on.
    pub fn get_value_call(&self) -> (c: Call)
        ensures
            c@ == (CallView::GetValue { cursor: self.handle() }),
    {
        Call::GetValue { cursor: self.handle }
    }

    /// The value the engine read, given its reply: its bytes, unchanged.
    pub fn get_value(&mut self, reply: Reply<Vec<u8>>) -> (r: Result<Vec<u8>>)
        ensures
            *final(self) == *old(self),
            result_is(r, reply_outcome("get_value"@, reply)),
    {
        outcome("get_value", reply)
    }

    /// The call that sets `key` as this cursor's key.
    pub fn set_key_call(&self, key: &[u8]) -> (c: Call)
        requires
            nul_free(key@),
        ensures
            c@ == (CallView::SetKey { cursor: self.handle(), key: key@ }),
    {
        Call::SetKey { cursor: self.handle, key: vstd::slice::slice_to_vec(key) }
    }

    /// What setting the key came to, given the engine's reply: where it succeeded, a key
    /// is set.
    pub fn set_key(&mut self, reply: Reply<()>) -> (r: Result<()>)
        ensures
            final(self).handle() == old(self).handle(),
            final(self).value_set() == old(self).value_set(),
            final(self).key_set() == (old(self).key_set() || r is Ok),
            result_is(r, reply_outcome("set_key"@, reply)),
    {
        let r = outcome("set_key", reply);
        if r.is_ok() {
            self.key_set = Ghost(true);
        }
        r
    }

    /// The call that sets `value` as this cursor's value.
    pub fn set_value_call(&self, value: &[u8]) -> (c: Call)
        requires
            nul_free(value@),
        ensures
            c@ == (CallView::SetValue { cursor: self.handle(), value: value@ }),
    {
        Call::SetValue { cursor: self.handle, value: vstd::slice::slice_to_vec(value) }
    }

    /// What setting the value came to, given the engine's reply: where it succeeded, a
    /// value is set.
    pub fn set_value(&mut self, reply: Reply<()>) -> (r: Result<()>)
        ensures
            final(self).handle() == old(self).handle(),
            final(self).key_set() == old(self).key_set(),
            final(self).value_set() == (old(self).value_set() || r is Ok),
            result_is(r, reply_outcome("set_value"@, reply)),
    {
        let r = outcome("set_value", reply);
        if r.is_ok() {
            self.value_set = Ghost(true);
        }
        r
    }

    /// The call that closes this cursor.
    pub fn close_call(&self) -> (c: Call)
        ensures
            c@ == (CallView::CloseCursor { cursor: self.handle() }),
    {
        Call::CloseCursor { cursor: self.handle }
    }

    fn forget_key_and_value(&mut self)
        ensures
            final(self).handle() == old(self).handle(),
            !final(self).key_set() && !final(self).value_set(),
    {
        self.key_set = Ghost(false);
        self.value_set = Ghost(false);
    }
}

} // verus!
