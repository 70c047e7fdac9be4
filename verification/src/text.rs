//! C strings as the engine takes them: byte strings without an interior NUL byte,
//! the configuration strings the library hands over, and table URIs.
use vstd::prelude::*;

use crate::error::{Error, ErrorView, Result};
use vstd::string::StringSliceAdditionalSpecFns;

verus! {

/// The bytes of an ASCII text, one byte per character.
pub open spec fn ascii(s: Seq<char>) -> Seq<u8> {
    s.map_values(|c: char| c as u8)
}

/// `b` holds no NUL byte, so it can be handed over as a C string.
pub open spec fn nul_free(b: Seq<u8>) -> bool {
    forall|i: int| 0 <= i < b.len() ==> b[i] != 0
}

/// `p` is the position of the first NUL byte in `b`.
pub open spec fn first_nul(b: Seq<u8>, p: int) -> bool {
    &&& 0 <= p < b.len()
    &&& b[p] == 0
    &&& forall|j: int| 0 <= j < p ==> b[j] != 0
}

/// The character of decimal digit `d`.
pub open spec fn digit(d: nat) -> char {
    (d + 48) as char
}

/// The decimal representation of `n`, without leading zeros.
pub open spec fn decimal(n: nat) -> Seq<char>
    decreases n,
{
    if n < 10 {
        seq![digit(n)]
    } else {
        decimal(n / 10).push(digit(n % 10))
    }
}

/// The description of a byte string that cannot become a C string because of a NUL byte
/// at position `p`.
pub open spec fn nul_message(p: nat) -> Seq<char> {
    "nul byte found in provided data at position: "@ + decimal(p)
}

/// The URI under which the engine knows the table `name`.
pub open spec fn table_uri(name: Seq<u8>) -> Seq<u8> {
    ascii("table:"@) + name
}

/// The configuration with which a connection is opened: create the database if
/// it does not exist, and keep all statistics.
pub open spec fn connection_config() -> Seq<u8> {
    ascii("create,statistics=(all)"@)
}

/// The schema with which a table is created: keys and values are strings.
pub open spec fn table_schema() -> Seq<u8> {
    ascii("key_format=S,value_format=S"@)
}

/// What turning the bytes `b` into a C string gives: the bytes themselves, or, where
/// `b` holds a NUL byte, the error that names the first one's position.
pub open spec fn c_string_result(b: Seq<u8>) -> core::result::Result<Seq<u8>, ErrorView> {
    if nul_free(b) {
        Ok(b)
    } else {
        Err(ErrorView::Placeholder(nul_message((choose|p: int| first_nul(b, p)) as nat)))
    }
}

/// A byte string with a NUL byte has exactly one first NUL byte.
pub proof fn lemma_first_nul_unique(b: Seq<u8>, p: int, q: int)
    requires
        first_nul(b, p),
        first_nul(b, q),
    ensures
        p == q,
{
}

/// Turning bytes into a C string fails exactly where they hold a NUL byte, and then
/// names the position of the first one.
pub proof fn lemma_c_string_rejects_first_nul(b: Seq<u8>, p: int)
    requires
        first_nul(b, p),
    ensures
        c_string_result(b) == Err::<Seq<u8>, ErrorView>(ErrorView::Placeholder(nul_message(p as nat))),
        c_string_result(b) == Err::<Seq<u8>, ErrorView>(ErrorView::Placeholder(
            "nul byte found in provided data at position: "@ + decimal(p as nat),
        )),
{
    let q = choose|q: int| first_nul(b, q);
    lemma_first_nul_unique(b, p, q);
}

/// Turning bytes into a C string succeeds exactly where they hold no NUL byte, and then
/// gives the bytes unchanged; otherwise its error names the first NUL byte's position.
pub proof fn lemma_c_string_fails_iff_nul(b: Seq<u8>)
    ensures
        c_string_result(b) is Ok <==> nul_free(b),
        nul_free(b) ==> c_string_result(b) == Ok::<Seq<u8>, ErrorView>(b),
        !nul_free(b) ==> exists|p: int|
            first_nul(b, p) && c_string_result(b) == Err::<Seq<u8>, ErrorView>(
                ErrorView::Placeholder(nul_message(p as nat)),
            ),
{
    if !nul_free(b) {
        lemma_first_nul_exists(b);
        let p = choose|p: int| first_nul(b, p);
        lemma_c_string_rejects_first_nul(b, p);
    }
}

/// The bytes of an ASCII literal are its characters' codes, as the literal's UTF-8
/// encoding gives them.
pub proof fn lemma_ascii_literal(s: &str)
    requires
        s.is_ascii(),
    ensures
        ascii(s@) == s.spec_bytes(),
{
    vstd::string::is_ascii_spec_bytes(s);
    assert(ascii(s@) =~= s.spec_bytes());
}

/// A table's URI is the bytes of `table:` followed by the name's bytes, unchanged.
pub proof fn lemma_table_uri_keeps_name(name: Seq<u8>)
    ensures
        table_uri(name) == "table:".spec_bytes() + name,
        table_uri(name).len() == name.len() + 6,
        forall|i: int| 0 <= i < name.len() ==> table_uri(name)[i + 6] == name[i],
        table_uri(name).subrange(0, 6) == "table:".spec_bytes(),
{
    reveal_strlit("table:");
    lemma_ascii_literal("table:");
    assert(("table:".spec_bytes() + name).subrange(0, 6) =~= "table:".spec_bytes());
}

/// A NUL byte first found at position `i` of a table name is the URI's first NUL byte,
/// at position `i + 6`.
pub proof fn lemma_table_uri_nul(name: Seq<u8>, i: int)
    requires
        first_nul(name, i),
    ensures
        first_nul(table_uri(name), i + 6),
        !nul_free(table_uri(name)),
{
    reveal_strlit("table:");
    lemma_table_uri_keeps_name(name);
    let uri = table_uri(name);
    assert forall|j: int| 0 <= j < i + 6 implies uri[j] != 0 by {
        if j >= 6 {
            assert(uri[j] == name[j - 6]);
        } else {
            assert(uri[j] == ascii("table:"@)[j]);
        }
    }
    assert(uri[i + 6] == 0);
}

/// A table name holds a NUL byte exactly where its URI does.
pub proof fn lemma_table_uri_nul_free(name: Seq<u8>)
    ensures
        nul_free(table_uri(name)) <==> nul_free(name),
{
    reveal_strlit("table:");
    lemma_table_uri_keeps_name(name);
    let uri = table_uri(name);
    if nul_free(name) {
        assert forall|j: int| 0 <= j < uri.len() implies uri[j] != 0 by {
            if j >= 6 {
                assert(uri[j] == name[j - 6]);
            } else {
                assert(uri[j] == ascii("table:"@)[j]);
            }
        }
    } else {
        let k = choose|k: int| 0 <= k < name.len() && name[k] == 0;
        assert(uri[k + 6] == 0);
    }
}

/// The value of a string of decimal digits.
pub open spec fn decimal_value(s: Seq<char>) -> int
    decreases s.len(),
{
    if s.len() == 0 {
        0
    } else {
        decimal_value(s.drop_last()) * 10 + (s.last() as int - 48)
    }
}

/// `decimal(n)` is a string of decimal digits, without a leading zero unless it is `0`,
/// whose value is `n`.
pub proof fn lemma_decimal_reads_back(n: nat)
    ensures
        decimal_value(decimal(n)) == n,
        decimal(n).len() >= 1,
        forall|i: int| 0 <= i < decimal(n).len() ==> '0' <= #[trigger] decimal(n)[i] <= '9',
        decimal(n)[0] == '0' ==> n == 0,
    decreases n,
{
    if n < 10 {
        assert(decimal(n) == seq![digit(n)]);
        assert(seq![digit(n)].drop_last() =~= Seq::<char>::empty());
        assert(digit(n) as int == n + 48);
        assert(decimal_value(Seq::<char>::empty()) == 0);
        assert(decimal_value(decimal(n)) == decimal_value(Seq::<char>::empty()) * 10 + (n + 48 - 48));
    } else {
        lemma_decimal_reads_back(n / 10);
        let s = decimal(n);
        assert(s.drop_last() =~= decimal(n / 10));
        assert(s[0] == decimal(n / 10)[0]);
        assert(s.last() as int == n % 10 + 48);
        assert((n / 10) * 10 + n % 10 == n);
        assert(decimal_value(s) == decimal_value(decimal(n / 10)) * 10 + (n % 10));
    }
}

/// A byte string that is not NUL-free has a first NUL byte.
proof fn lemma_first_nul_exists(b: Seq<u8>)
    requires
        !nul_free(b),
    ensures
        exists|p: int| first_nul(b, p),
    decreases b.len(),
{
    if b[0] == 0 {
        assert(first_nul(b, 0));
    } else {
        let rest = b.drop_first();
        assert(!nul_free(rest)) by {
            let i = choose|i: int| 0 <= i < b.len() && b[i] == 0;
            assert(rest[i - 1] == 0);
        }
        lemma_first_nul_exists(rest);
        let p = choose|p: int| first_nul(rest, p);
        assert(first_nul(b, p + 1)) by {
            assert forall|j: int| 0 <= j < p + 1 implies b[j] != 0 by {
                if j > 0 {
                    assert(b[j] == rest[j - 1]);
                }
            }
        }
    }
}

/// The text of one decimal digit.
fn digit_text(d: usize) -> (t: &'static str)
    requires
        d < 10,
    ensures
        t@ == seq![digit(d as nat)],
{
    proof {
        reveal_strlit("0");
        reveal_strlit("1");
        reveal_strlit("2");
        reveal_strlit("3");
        reveal_strlit("4");
        reveal_strlit("5");
        reveal_strlit("6");
        reveal_strlit("7");
        reveal_strlit("8");
        reveal_strlit("9");
    }
    match d {
        0 => "0",
        1 => "1",
        2 => "2",
        3 => "3",
        4 => "4",
        5 => "5",
        6 => "6",
        7 => "7",
        8 => "8",
        _ => "9",
    }
}

/// The decimal representation of `n`.
pub fn decimal_text(n: usize) -> (s: String)
    ensures
        s@ == decimal(n as nat),
    decreases n,
{
    if n < 10 {
        String::from_str(digit_text(n))
    } else {
        let mut s = decimal_text(n / 10);
        s.append(digit_text(n % 10));
        s
    }
}

/// The bytes of `b` as a C string's contents: a copy of them where they hold no NUL
/// byte, else the error that names the position of the first NUL byte.
pub fn c_string(b: &[u8]) -> (r: Result<Vec<u8>>)
    ensures
        nul_free(b@) ==> (r matches Ok(v) && v@ == b@),
        forall|p: int| first_nul(b@, p) ==> (r matches Err(e) && e@ == ErrorView::Placeholder(
            "nul byte found in provided data at position: "@ + decimal(p as nat),
        )),
        match (r, c_string_result(b@)) {
            (Ok(v), Ok(s)) => v@ == s,
            (Err(e), Err(s)) => e@ == s,
            _ => false,
        },
{
    let mut i: usize = 0;
    while i < b.len()
        invariant
            0 <= i <= b@.len(),
            forall|j: int| 0 <= j < i ==> b@[j] != 0,
        decreases b@.len() - i,
    {
        if b[i] == 0 {
            let mut message = String::from_str("nul byte found in provided data at position: ");
            let position = decimal_text(i);
            message.append(position.as_str());
            proof {
                reveal_strlit("nul byte found in provided data at position: ");
                assert(first_nul(b@, i as int));
                let p = choose|p: int| first_nul(b@, p);
                lemma_first_nul_unique(b@, p, i as int);
                assert forall|q: int| first_nul(b@, q) implies q == i by {
                    lemma_first_nul_unique(b@, q, i as int);
                }
            }
            return Err(Error::Placeholder(message));
        }
        i = i + 1;
    }
    Ok(vstd::slice::slice_to_vec(b))
}

/// The bytes of an ASCII string literal.
fn ascii_literal(s: &str) -> (b: Vec<u8>)
    requires
        s.is_ascii(),
    ensures
        b@ == ascii(s@),
{
    proof {
        vstd::string::is_ascii_spec_bytes(s);
    }
    let b = s.as_bytes_vec();
    assert(b@ =~= ascii(s@));
    b
}

/// The configuration with which a connection is opened.
pub fn connection_config_bytes() -> (b: Vec<u8>)
    ensures
        b@ == connection_config(),
{
    proof {
        reveal_strlit("create,statistics=(all)");
    }
    ascii_literal("create,statistics=(all)")
}

/// The schema with which a table is created.
pub fn table_schema_bytes() -> (b: Vec<u8>)
    ensures
        b@ == table_schema(),
{
    proof {
        reveal_strlit("key_format=S,value_format=S");
    }
    ascii_literal("key_format=S,value_format=S")
}

/// The URI of the table `name`, as a C string's contents.
pub fn table_uri_bytes(name: &str) -> (r: Result<Vec<u8>>)
    ensures
        nul_free(name.spec_bytes()) ==> (r matches Ok(v) && v@ == "table:".spec_bytes() + name.spec_bytes()),
        r matches Ok(v) ==> v@ == "table:".spec_bytes() + name.spec_bytes(),
        forall|i: int| first_nul(name.spec_bytes(), i) ==> (r matches Err(e) && e@ == ErrorView::Placeholder(
            "nul byte found in provided data at position: "@ + decimal((i + 6) as nat),
        )),
        match (r, c_string_result(table_uri(name.spec_bytes()))) {
            (Ok(v), Ok(s)) => v@ == s,
            (Err(e), Err(s)) => e@ == s,
            _ => false,
        },
{
    proof {
        reveal_strlit("table:");
        lemma_ascii_literal("table:");
        lemma_table_uri_keeps_name(name.spec_bytes());
        assert forall|i: int| first_nul(name.spec_bytes(), i) implies first_nul(
            table_uri(name.spec_bytes()),
            i + 6,
        ) by {
            lemma_table_uri_nul(name.spec_bytes(), i);
        }
    }
    let mut uri = ascii_literal("table:");
    let mut rest = name.as_bytes_vec();
    uri.append(&mut rest);
    c_string(uri.as_slice())
}

} // verus!
