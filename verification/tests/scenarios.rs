//! The library driven against a small in-memory stand-in for the engine, which keeps
//! tables as ordered maps from keys to values.

use std::collections::BTreeMap;

use wiredtiger_rs::engine::{Call, Reply};
use wiredtiger_rs::raw;
use wiredtiger_rs::{Connection, Cursor, Error, Result};

const WT_NOTFOUND: i32 = -31803;
const EINVAL: i32 = 22;

struct StandInCursor {
    table: Vec<u8>,
    key: Option<Vec<u8>>,
    value: Option<Vec<u8>>,
    position: Option<Vec<u8>>,
}

#[derive(Default)]
struct StandIn {
    next_handle: u64,
    tables: BTreeMap<Vec<u8>, BTreeMap<Vec<u8>, Vec<u8>>>,
    cursors: BTreeMap<u64, StandInCursor>,
    calls: Vec<String>,
}

fn failed<T>(code: i32, output: T) -> Reply<T> {
    Reply::Returned { code, output, description: Some(format!("stand-in error {code}")) }
}

fn done<T>(output: T) -> Reply<T> {
    Reply::Returned { code: 0, output, description: None }
}

impl StandIn {
    fn fresh(&mut self) -> u64 {
        self.next_handle += 1;
        self.next_handle
    }

    fn handle(&mut self, call: Call) -> Reply<u64> {
        match call {
            Call::Open { home, config } => {
                assert!(!home.is_empty());
                assert_eq!(config, b"create,statistics=(all)".to_vec());
                self.calls.push("open".to_string());
                done(self.fresh())
            }
            Call::OpenSession { .. } => {
                self.calls.push("open_session".to_string());
                done(self.fresh())
            }
            Call::OpenCursor { uri, .. } => {
                self.calls.push("open_cursor".to_string());
                if !self.tables.contains_key(&uri) {
                    return failed(EINVAL, 0);
                }
                let h = self.fresh();
                self.cursors.insert(
                    h,
                    StandInCursor { table: uri, key: None, value: None, position: None },
                );
                done(h)
            }
            other => panic!("not a call that opens a handle: {}", name(&other)),
        }
    }

    fn unit(&mut self, call: Call) -> Reply<()> {
        self.calls.push(name(&call).to_string());
        match call {
            Call::Create { uri, config, .. } => {
                assert_eq!(config, b"key_format=S,value_format=S".to_vec());
                self.tables.entry(uri).or_default();
                done(())
            }
            Call::SetKey { cursor, key } => {
                self.cursors.get_mut(&cursor).unwrap().key = Some(key);
                done(())
            }
            Call::SetValue { cursor, value } => {
                self.cursors.get_mut(&cursor).unwrap().value = Some(value);
                done(())
            }
            Call::Insert { cursor } => {
                let c = self.cursors.get_mut(&cursor).unwrap();
                let (Some(k), Some(v)) = (c.key.take(), c.value.take()) else {
                    return failed(EINVAL, ());
                };
                self.tables.get_mut(&c.table).unwrap().insert(k, v);
                done(())
            }
            Call::Reset { cursor } => {
                let c = self.cursors.get_mut(&cursor).unwrap();
                c.key = None;
                c.value = None;
                c.position = None;
                done(())
            }
            Call::Next { cursor } => {
                let c = self.cursors.get_mut(&cursor).unwrap();
                let table = &self.tables[&c.table];
                let next = match &c.position {
                    None => table.keys().next().cloned(),
                    Some(p) => table.range(p.clone()..).map(|(k, _)| k).find(|k| *k > p).cloned(),
                };
                c.position = next.clone();
                match next {
                    Some(_) => done(()),
                    None => failed(WT_NOTFOUND, ()),
                }
            }
            other => panic!("not a call without output: {}", name(&other)),
        }
    }

    fn bytes(&mut self, call: Call) -> Reply<Vec<u8>> {
        self.calls.push(name(&call).to_string());
        let (cursor, want_key) = match call {
            Call::GetKey { cursor } => (cursor, true),
            Call::GetValue { cursor } => (cursor, false),
            other => panic!("not a read: {}", name(&other)),
        };
        let c = &self.cursors[&cursor];
        match &c.position {
            None => failed(EINVAL, Vec::new()),
            Some(k) if want_key => done(k.clone()),
            Some(k) => done(self.tables[&c.table][k].clone()),
        }
    }
}

fn name(call: &Call) -> &'static str {
    match call {
        Call::Open { .. } => "open",
        Call::OpenSession { .. } => "open_session",
        Call::Create { .. } => "create",
        Call::OpenCursor { .. } => "open_cursor",
        Call::Reset { .. } => "reset",
        Call::Next { .. } => "next",
        Call::Insert { .. } => "insert",
        Call::GetKey { .. } => "get_key",
        Call::GetValue { .. } => "get_value",
        Call::SetKey { .. } => "set_key",
        Call::SetValue { .. } => "set_value",
        Call::CloseConnection { .. } => "close_connection",
        Call::CloseSession { .. } => "close_session",
        Call::CloseCursor { .. } => "close_cursor",
    }
}

fn put(engine: &mut StandIn, cursor: &mut Cursor<'_>, key: &[u8], value: &[u8]) -> Result<()> {
    let mut put = cursor.put(key, value);
    loop {
        let call = put.call(cursor);
        let reply = engine.unit(call);
        if let Some(result) = put.step(cursor, reply) {
            return result;
        }
    }
}

fn placeholder(e: Error) -> String {
    match e {
        Error::Placeholder(m) => m,
        Error::Unknown { errno } => panic!("expected a description, got errno {errno}"),
    }
}

#[test]
fn lib_it_works() -> Result<()> {
    let mut engine = StandIn::default();
    let home = b"/tmp/wiredtiger-it-works";
    let call = Connection::open_call(home)?;
    let handle = engine.handle(call);
    let Reply::Returned { code, output, description } = handle else { unreachable!() };
    let mut conn = Connection::open(code, output, description)?;

    {
        let reply = engine.handle(conn.open_session_call());
        let mut session = conn.open_session(reply)?;
        let reply = engine.unit(session.create_table_call("foo")?);
        session.create_table(reply)?;
        let reply = engine.handle(session.open_cursor_call("foo")?);
        let mut cursor = session.open_cursor(reply)?;
        put(&mut engine, &mut cursor, b"hello", b"world")?;
    }

    let reply = engine.handle(conn.open_session_call());
    let mut session = conn.open_session(reply)?;
    let reply = engine.handle(session.open_cursor_call("foo")?);
    let mut cursor = session.open_cursor(reply)?;
    let reply = engine.unit(cursor.advance_call());
    cursor.advance(reply)?;
    let reply = engine.bytes(cursor.get_key_call());
    assert_eq!(cursor.get_key(reply)?, b"hello".to_vec());
    let reply = engine.bytes(cursor.get_value_call());
    assert_eq!(cursor.get_value(reply)?, b"world".to_vec());
    Ok(())
}

fn unwrap_handle(reply: Reply<u64>) -> (i32, u64, Option<String>) {
    match reply {
        Reply::Returned { code, output, description } => (code, output, description),
        Reply::Missing => panic!("wiredtiger_open is a function, not a method"),
    }
}

#[test]
fn raw_it_works() -> Result<()> {
    let mut engine = StandIn::default();
    let (code, output, description) =
        unwrap_handle(engine.handle(raw::Connection::open_call(b"/tmp/wiredtiger-raw-it-works")?));
    let mut conn = raw::Connection::open(code, output, description)?;
    match conn.open_session_call() {
        Call::OpenSession { connection } => assert_ne!(connection, 0),
        _ => unreachable!(),
    }

    {
        let reply = engine.handle(conn.open_session_call());
        let mut session = conn.open_session(reply)?;
        let reply = engine.unit(session.create_table_call("foo")?);
        session.create_table(reply)?;
        let reply = engine.handle(session.open_cursor_call("foo")?);
        let mut cursor = session.open_cursor(reply)?;

        let reply = engine.unit(cursor.set_key_call(b"hello"));
        cursor.set_key(reply)?;
        let reply = engine.unit(cursor.set_value_call(b"world"));
        cursor.set_value(reply)?;
        let reply = engine.unit(cursor.insert_call());
        cursor.insert(reply)?;
    }

    {
        let reply = engine.handle(conn.open_session_call());
        let mut session = conn.open_session(reply)?;
        let reply = engine.handle(session.open_cursor_call("foo")?);
        let mut cursor = session.open_cursor(reply)?;
        let reply = engine.unit(cursor.advance_call());
        cursor.advance(reply)?;
        let reply = engine.bytes(cursor.get_key_call());
        assert_eq!(cursor.get_key(reply)?, b"hello".to_vec());
        let reply = engine.bytes(cursor.get_value_call());
        assert_eq!(cursor.get_value(reply)?, b"world".to_vec());
    }
    Ok(())
}

#[test]
fn records_come_back_in_key_order() -> Result<()> {
    let mut engine = StandIn::default();
    let (code, output, description) = unwrap_handle(engine.handle(Connection::open_call(b"/db")?));
    let mut conn = Connection::open(code, output, description)?;
    let reply = engine.handle(conn.open_session_call());
    let mut session = conn.open_session(reply)?;
    let reply = engine.unit(session.create_table_call("t")?);
    session.create_table(reply)?;
    let reply = engine.handle(session.open_cursor_call("t")?);
    let mut cursor = session.open_cursor(reply)?;
    put(&mut engine, &mut cursor, b"b", b"2")?;
    put(&mut engine, &mut cursor, b"a", b"1")?;
    let mut seen = Vec::new();
    loop {
        let reply = engine.unit(cursor.advance_call());
        match cursor.advance(reply) {
            Ok(()) => {}
            Err(Error::Placeholder(m)) => {
                assert_eq!(m, format!("stand-in error {WT_NOTFOUND}"));
                break;
            }
            Err(e) => panic!("{e:?}"),
        }
        let reply = engine.bytes(cursor.get_key_call());
        let k = cursor.get_key(reply)?;
        let reply = engine.bytes(cursor.get_value_call());
        let v = cursor.get_value(reply)?;
        seen.push((k, v));
    }
    assert_eq!(seen, vec![(b"a".to_vec(), b"1".to_vec()), (b"b".to_vec(), b"2".to_vec())]);
    Ok(())
}

#[test]
fn put_makes_its_calls_in_order() -> Result<()> {
    let mut engine = StandIn::default();
    let (code, output, description) = unwrap_handle(engine.handle(Connection::open_call(b"/db")?));
    let mut conn = Connection::open(code, output, description)?;
    let reply = engine.handle(conn.open_session_call());
    let mut session = conn.open_session(reply)?;
    let reply = engine.unit(session.create_table_call("t")?);
    session.create_table(reply)?;
    let reply = engine.handle(session.open_cursor_call("t")?);
    let mut cursor = session.open_cursor(reply)?;
    engine.calls.clear();
    put(&mut engine, &mut cursor, b"k", b"v")?;
    assert_eq!(engine.calls, vec!["set_key", "set_value", "insert"]);
    Ok(())
}

#[test]
fn put_stops_at_a_missing_method() {
    let mut engine = StandIn::default();
    let (code, output, description) =
        unwrap_handle(engine.handle(Connection::open_call(b"/db").unwrap()));
    let mut conn = Connection::open(code, output, description).unwrap();
    let reply = engine.handle(conn.open_session_call());
    let mut session = conn.open_session(reply).unwrap();
    let reply = engine.unit(session.create_table_call("t").unwrap());
    session.create_table(reply).unwrap();
    let reply = engine.handle(session.open_cursor_call("t").unwrap());
    let mut cursor = session.open_cursor(reply).unwrap();

    let mut put = cursor.put(b"k", b"v");
    match put.call(&cursor) {
        Call::SetKey { key, .. } => assert_eq!(key, b"k".to_vec()),
        _ => panic!("a put starts by setting the key"),
    }
    assert!(put.step(&mut cursor, done(())).is_none());
    match put.call(&cursor) {
        Call::SetValue { value, .. } => assert_eq!(value, b"v".to_vec()),
        _ => panic!("a put sets the value second"),
    }
    let result = put.step(&mut cursor, Reply::Missing).expect("the put is over");
    assert_eq!(placeholder(result.unwrap_err()), "no set_value function pointer");
    assert!(put.is_finished());
}

#[test]
fn put_reports_a_failed_insert() {
    let mut engine = StandIn::default();
    let (code, output, description) =
        unwrap_handle(engine.handle(Connection::open_call(b"/db").unwrap()));
    let mut conn = Connection::open(code, output, description).unwrap();
    let reply = engine.handle(conn.open_session_call());
    let mut session = conn.open_session(reply).unwrap();
    let reply = engine.unit(session.create_table_call("t").unwrap());
    session.create_table(reply).unwrap();
    let reply = engine.handle(session.open_cursor_call("t").unwrap());
    let mut cursor = session.open_cursor(reply).unwrap();

    let mut put = cursor.put(b"k", b"v");
    assert!(put.step(&mut cursor, done(())).is_none());
    assert!(put.step(&mut cursor, done(())).is_none());
    assert!(matches!(put.call(&cursor), Call::Insert { .. }));
    let result = put
        .step(&mut cursor, Reply::Returned { code: 12, output: (), description: None })
        .expect("the put is over");
    assert!(matches!(result, Err(Error::Unknown { errno: 12 })));
}

#[test]
fn opening_a_cursor_on_a_missing_table_fails() {
    let mut engine = StandIn::default();
    let (code, output, description) =
        unwrap_handle(engine.handle(Connection::open_call(b"/db").unwrap()));
    let mut conn = Connection::open(code, output, description).unwrap();
    let reply = engine.handle(conn.open_session_call());
    let mut session = conn.open_session(reply).unwrap();
    let reply = engine.handle(session.open_cursor_call("nothing").unwrap());
    let e = session.open_cursor(reply).err().expect("no such table");
    assert_eq!(placeholder(e), format!("stand-in error {EINVAL}"));
}
