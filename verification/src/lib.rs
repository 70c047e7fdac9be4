//! Connections, sessions and cursors on a WiredTiger database.
//!
//! Every operation on the engine comes in two halves: a `..._call` function that says
//! what to ask of the engine, and a function that reads the engine's reply (see
//! [`engine`]). Whoever holds the engine performs the call in between.
use vstd::prelude::*;

pub mod engine;
pub mod error;
pub mod raw;
pub mod text;
pub mod version;

use crate::engine::{reply_outcome, request_is, result_is, returned_outcome, Call, CallView, Reply};
pub use crate::error::{Error, Result};
use crate::raw::{create_request, handle_is, open_cursor_request, open_request};
use crate::text::nul_free;
use core::marker::PhantomData;
use vstd::string::StringSliceAdditionalSpecFns;

verus! {

/// A connection to a WiredTiger database.
pub struct Connection {
    inner: raw::Connection,
}

impl Connection {
    /// The engine's handle of this connection.
    pub closed spec fn handle(self) -> u64 {
        self.inner.handle()
    }

    /// The call that opens a connection to the database at `home` (a directory, by the
    /// bytes of its path), creating it if it does not exist: fails where `home` holds a
    /// NUL byte.
    pub fn open_call(home: &[u8]) -> (r: Result<Call>)
        ensures
            request_is(r, open_request(home@)),
            nul_free(home@) ==> r is Ok,
            r matches Ok(c) ==> c@ == (CallView::Open {
                home: home@,
                config: "create,statistics=(all)".spec_bytes(),
            }),
    {
        raw::Connection::open_call(home)
    }

    /// The connection that `wiredtiger_open` gave, where it returned `code` and wrote
    /// `connection`; `description` is the engine's text for `code`.
    pub fn open(code: i32, connection: u64, description: Option<String>) -> (r: Result<Connection>)
        ensures
            handle_is(r, returned_outcome(code, connection, description), |c: Connection| c.handle()),
    {
        Ok(Connection { inner: raw::Connection::open(code, connection, description)? })
    }

    /// The call that opens a session on this connection.
    pub fn open_session_call(&self) -> (c: Call)
        ensures
            c@ == (CallView::OpenSession { connection: self.handle() }),
    {
        self.inner.open_session_call()
    }

    /// The session that the engine opened on this connection, given its reply.
    pub fn open_session(&mut self, reply: Reply<u64>) -> (r: Result<Session<'_>>)
        ensures
            *final(self) == *old(self),
            handle_is(r, reply_outcome("open_session"@, reply), |s: Session| s.handle()),
    {
        Ok(Session { inner: self.inner.open_session(reply)?, _lifetime: PhantomData })
    }

    /// The call that closes this connection.
    pub fn close_call(&self) -> (c: Call)
        ensures
            c@ == (CallView::CloseConnection { connection: self.handle() }),
    {
        self.inner.close_call()
    }
}

/// All data operations are performed in the context of a WT_SESSION.
/// This encapsulates the thread and transactional context of the operation.
/// Thread safety: A WT_SESSION handle is not usually shared between threads, see Multithreading for more information.
pub struct Session<'a> {
    inner: raw::Session,
    _lifetime: PhantomData<&'a ()>,
}

impl<'a> Session<'a> {
    /// The engine's handle of this session.
    pub closed spec fn handle(self) -> u64 {
        self.inner.handle()
    }

    /// The call that creates the table `name`, whose keys and values are strings: fails
    /// where the table's URI holds a NUL byte.
    pub fn create_table_call(&self, name: &str) -> (r: Result<Call>)
        ensures
            request_is(r, create_request(self.handle(), name.spec_bytes())),
            nul_free(name.spec_bytes()) ==> r is Ok,
            r matches Ok(c) ==> c@ == (CallView::Create {
                session: self.handle(),
                uri: "table:".spec_bytes() + name.spec_bytes(),
                config: "key_format=S,value_format=S".spec_bytes(),
            }),
    {
        self.inner.create_table_call(name)
    }

    /// What creating a table came to, given the engine's reply.
    pub fn create_table(&mut self, reply: Reply<()>) -> (r: Result<()>)
        ensures
            *final(self) == *old(self),
            result_is(r, reply_outcome("create"@, reply)),
    {
        self.inner.create_table(reply)
    }

    /// The call that opens a cursor on the table `table_name`: fails where the table's
    /// URI holds a NUL byte.
    pub fn open_cursor_call(&self, table_name: &str) -> (r: Result<Call>)
        ensures
            request_is(r, open_cursor_request(self.handle(), table_name.spec_bytes())),
            nul_free(table_name.spec_bytes()) ==> r is Ok,
            r matches Ok(c) ==> c@ == (CallView::OpenCursor {
                session: self.handle(),
                uri: "table:".spec_bytes() + table_name.spec_bytes(),
            }),
    {
        self.inner.open_cursor_call(table_name)
    }

    /// The cursor that the engine opened, given its reply. The cursor has no key and no
    /// value set.
    pub fn open_cursor(&mut self, reply: Reply<u64>) -> (r: Result<Cursor<'_>>)
        ensures
            *final(self) == *old(self),
            handle_is(r, reply_outcome("open_cursor"@, reply), |c: Cursor| c.handle()),
            r matches Ok(c) ==> !c.key_set() && !c.value_set(),
    {
        Ok(Cursor { inner: self.inner.open_cursor(reply)?, _lifetime: PhantomData })
    }

    /// The call that closes this session.
    pub fn close_call(&self) -> (c: Call)
        ensures
            c@ == (CallView::CloseSession { session: self.handle() }),
    {
        self.inner.close_call()
    }
}

/// Cursors allow data to be searched, iterated and modified, implementing the CRUD (create, read, update and delete) operations. Cursors are opened in the context of a session. If a transaction is started, cursors operate in the context of the transaction until the transaction is resolved.
/// Raw data is represented by key/value pairs of WT_ITEM structures, but cursors can also provide access to fields within the key and value if the formats are described in the WT_SESSION::create method.
/// In the common case, a cursor is used to access records in a table. However, cursors can be used on subsets of tables (such as a single column or a projection of multiple columns), as an interface to statistics, configuration data or application-specific data sources. See WT_SESSION::open_cursor for more information.
/// Thread safety: A WT_CURSOR handle is not usually shared between threads. See Multithreading for more information.
pub struct Cursor<'a> {
    inner: raw::Cursor,
    _lifetime: PhantomData<&'a ()>,
}

impl<'a> Cursor<'a> {
    /// The engine's handle of this cursor.
    pub closed spec fn handle(self) -> u64 {
        self.inner.handle()
    }

    /// A key has been set on this cursor and is still in force.
    pub closed spec fn key_set(self) -> bool {
        self.inner.key_set()
    }

    /// A value has been set on this cursor and is still in force.
    pub closed spec fn value_set(self) -> bool {
        self.inner.value_set()
    }

    /// The call that resets this cursor.
    pub fn reset_call(&self) -> (c: Call)
        ensures
            c@ == (CallView::Reset { cursor: self.handle() }),
    {
        self.inner.reset_call()
    }

    /// What resetting came to, given the engine's reply.
    pub fn reset(&'a mut self, reply: Reply<()>) -> (r: Result<()>)
        ensures
            final(self).handle() == old(self).handle(),
            !final(self).key_set() && !final(self).value_set(),
            result_is(r, reply_outcome("reset"@, reply)),
    {
        self.inner.reset(reply)
    }

    /// The call that moves this cursor to the next record.
    pub fn advance_call(&self) -> (c: Call)
        ensures
            c@ == (CallView::Next { cursor: self.handle() }),
    {
        self.inner.advance_call()
    }

    /// What moving to the next record came to, given the engine's reply. A missing method
    /// is reported under the name `reset`.
    pub fn advance(&mut self, reply: Reply<()>) -> (r: Result<()>)
        ensures
            final(self).handle() == old(self).handle(),
            !final(self).key_set() && !final(self).value_set(),
            result_is(r, reply_outcome("reset"@, reply)),
    {
        self.inner.advance(reply)
    }

    /// The call that reads the key of the record the cursor is on.
    pub fn get_key_call(&self) -> (c: Call)
        ensures
            c@ == (CallView::GetKey { cursor: self.handle() }),
    {
        self.inner.get_key_call()
    }

    /// The key the engine read, given its reply: an owned copy of its bytes.
    pub fn get_key(&mut self, reply: Reply<Vec<u8>>) -> (r: Result<Vec<u8>>)
        ensures
            *final(self) == *old(self),
            result_is(r, reply_outcome("get_key"@, reply)),
    {
        self.inner.get_key(reply)
    }

    /// The call that reads the value of the record the cursor is on.
    pub fn get_value_call(&self) -> (c: Call)
        ensures
            c@ == (CallView::GetValue { cursor: self.handle() }),
    {
        self.inner.get_value_call()
    }

    /// The value the engine read, given its reply: an owned copy of its bytes.
    pub fn get_value(&mut self, reply: Reply<Vec<u8>>) -> (r: Result<Vec<u8>>)
        ensures
            *final(self) == *old(self),
            result_is(r, reply_outcome("get_value"@, reply)),
    {
        self.inner.get_value(reply)
    }

    /// Starts storing the record (`key`, `value`) through this cursor: the returned [`Put`]
    /// sets the key, then the value, then inserts, and stops at the first step that fails.
    pub fn put(&mut self, key: &[u8], value: &[u8]) -> (p: Put)
        requires
            nul_free(key@),
            nul_free(value@),
        ensures
            *final(self) == *old(self),
            p.cursor() == old(self).handle(),
            p.key() == key@,
            p.value() == value@,
            p.stage() == PutStage::SettingKey,
    {
        Put {
            cursor: self.inner.handle_id(),
            key: vstd::slice::slice_to_vec(key),
            value: vstd::slice::slice_to_vec(value),
            stage: PutStage::SettingKey,
        }
    }

    /// The call that closes this cursor.
    pub fn close_call(&self) -> (c: Call)
        ensures
            c@ == (CallView::CloseCursor { cursor: self.handle() }),
    {
        self.inner.close_call()
    }
}

/// Where a [`Put`] stands.
#[derive(PartialEq, Eq, Structural)]
pub enum PutStage {
    /// The key is to be set next.
    SettingKey,
    /// The key is set; the value is to be set next.
    SettingValue,
    /// Key and value are set; the record is to be inserted next.
    Inserting,
    /// The put is over.
    Finished,
}

/// Storing one record through a cursor: set the key, set the value, insert.
pub struct Put {
    cursor: u64,
    key: Vec<u8>,
    value: Vec<u8>,
    stage: PutStage,
}

impl Put {
    /// The handle of the cursor the record goes through.
    pub closed spec fn cursor(self) -> u64 {
        self.cursor
    }

    /// The record's key.
    pub closed spec fn key(self) -> Seq<u8> {
        self.key@
    }

    /// The record's value.
    pub closed spec fn value(self) -> Seq<u8> {
        self.value@
    }

    /// Where the put stands.
    pub closed spec fn stage(self) -> PutStage {
        self.stage
    }

    /// The cursor `c` is the put's, and holds what the put's stage has set on it.
    pub open spec fn fits(self, c: Cursor) -> bool {
        &&& c.handle() == self.cursor()
        &&& self.stage() == PutStage::SettingValue ==> c.key_set()
        &&& self.stage() == PutStage::Inserting ==> c.key_set() && c.value_set()
    }

    /// The put is over.
    pub fn is_finished(&self) -> (b: bool)
        ensures
            b == (self.stage() == PutStage::Finished),
    {
        self.stage == PutStage::Finished
    }

    /// The call that the put makes next on `cursor`.
    pub fn call(&self, cursor: &Cursor) -> (c: Call)
        requires
            self.stage() != PutStage::Finished,
            self.fits(*cursor),
        ensures
            c@ == match self.stage() {
                PutStage::SettingKey => CallView::SetKey { cursor: self.cursor(), key: self.key() },
                PutStage::SettingValue => CallView::SetValue { cursor: self.cursor(), value: self.value() },
                _ => CallView::Insert { cursor: self.cursor() },
            },
    {
        proof {
            use_type_invariant(self);
        }
        match self.stage {
            PutStage::SettingKey => cursor.inner.set_key_call(self.key.as_slice()),
            PutStage::SettingValue => cursor.inner.set_value_call(self.value.as_slice()),
            _ => cursor.inner.insert_call(),
        }
    }

    /// Takes the engine's reply to the put's last call on `cursor`: the put's result once
    /// it is over, `None` while it goes on.
    pub fn step(&mut self, cursor: &mut Cursor, reply: Reply<()>) -> (r: Option<Result<()>>)
        requires
            old(self).stage() != PutStage::Finished,
            old(self).fits(*old(cursor)),
        ensures
            final(self).cursor() == old(self).cursor(),
            final(self).key() == old(self).key(),
            final(self).value() == old(self).value(),
            final(cursor).handle() == old(cursor).handle(),
            final(self).fits(*final(cursor)),
            match (old(self).stage(), reply_outcome(step_method(old(self).stage()), reply)) {
                (PutStage::Inserting, outcome) => {
                    &&& final(self).stage() == PutStage::Finished
                    &&& r matches Some(res) && result_is(res, outcome)
                },
                (stage, Ok(_)) => {
                    &&& final(self).stage() == (if stage == PutStage::SettingKey {
                        PutStage::SettingValue
                    } else {
                        PutStage::Inserting
                    })
                    &&& r is None
                },
                (_, Err(e)) => {
                    &&& final(self).stage() == PutStage::Finished
                    &&& r matches Some(Err(f)) && f@ == e
                },
            },
    {
        proof {
            use_type_invariant(&*self);
        }
        match self.stage {
            PutStage::SettingKey => {
                match cursor.inner.set_key(reply) {
                    Ok(()) => {
                        self.stage = PutStage::SettingValue;
                        None
                    },
                    Err(e) => {
                        self.stage = PutStage::Finished;
                        Some(Err(e))
                    },
                }
            },
            PutStage::SettingValue => {
                match cursor.inner.set_value(reply) {
                    Ok(()) => {
                        self.stage = PutStage::Inserting;
                        None
                    },
                    Err(e) => {
                        self.stage = PutStage::Finished;
                        Some(Err(e))
                    },
                }
            },
            _ => {
                let r = cursor.inner.insert(reply);
                self.stage = PutStage::Finished;
                Some(r)
            },
        }
    }

    #[verifier::type_invariant]
    spec fn key_and_value_nul_free(self) -> bool {
        nul_free(self.key@) && nul_free(self.value@)
    }
}

/// A put reads the reply of `set_key` while setting the key, of `set_value` while
/// setting the value, and of `insert` while inserting.
pub proof fn lemma_put_step_methods()
    ensures
        step_method(PutStage::SettingKey) == "set_key"@,
        step_method(PutStage::SettingValue) == "set_value"@,
        step_method(PutStage::Inserting) == "insert"@,
{
}

/// The method whose reply a put reads at `stage`.
pub open spec fn step_method(stage: PutStage) -> Seq<char> {
    match stage {
        PutStage::SettingKey => "set_key"@,
        PutStage::SettingValue => "set_value"@,
        _ => "insert"@,
    }
}

} // verus!
