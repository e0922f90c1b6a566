//! HTTP headers for the RPC client, given in the flat "key:value" form.
use crate::error::WGError;
use crate::text::{
    first_index_of, is_unicode_whitespace, lemma_trim_cases, split_once, split_once_spec, trim,
    trim_spec,
};
use http::header::{InvalidHeaderName, InvalidHeaderValue};
use http::{HeaderMap, HeaderName, HeaderValue};
use vstd::prelude::*;
use vstd::utf8::encode_utf8;

verus! {

#[verifier::external_type_specification]
#[verifier::external_body]
pub struct ExHeaderName(HeaderName);

#[verifier::external_type_specification]
#[verifier::external_body]
pub struct ExHeaderValue(HeaderValue);

#[verifier::external_type_specification]
#[verifier::external_body]
pub struct ExInvalidHeaderName(InvalidHeaderName);

#[verifier::external_type_specification]
#[verifier::external_body]
pub struct ExInvalidHeaderValue(InvalidHeaderValue);

#[verifier::external_type_specification]
#[verifier::external_body]
#[verifier::reject_recursive_types(T)]
pub struct ExHeaderMap<T>(HeaderMap<T>);

/// The bytes of a header name, as `HeaderName::as_str` gives them.
pub uninterp spec fn header_name_bytes(name: HeaderName) -> Seq<u8>;

/// The bytes of a header value, as `HeaderValue::as_bytes` gives them.
pub uninterp spec fn header_value_bytes(value: HeaderValue) -> Seq<u8>;

/// What a `HeaderMap` holds: for each header name (its bytes), the values
/// stored under it, in order.
pub uninterp spec fn header_entries(map: HeaderMap) -> Map<Seq<u8>, Seq<Seq<u8>>>;

/// The empty header table.
pub open spec fn no_headers() -> Map<Seq<u8>, Seq<Seq<u8>>> {
    Map::empty()
}

/// Whether byte `b` may stand in a header name (an RFC 7230 `tchar`).
pub open spec fn is_header_name_byte(b: u8) -> bool {
    // digits, lower- and upper-case letters
    ||| (48 <= b && b <= 57)
    ||| (97 <= b && b <= 122)
    ||| (65 <= b && b <= 90)
    // ! # $ % & ' * + - . ^ _ ` | ~
    ||| b == 33 || b == 35 || b == 36 || b == 37 || b == 38 || b == 39
    ||| b == 42 || b == 43 || b == 45 || b == 46 || b == 94 || b == 95
    ||| b == 96 || b == 124 || b == 126
}

/// Whether `bytes` form a valid header name: between 1 and 65535 bytes, each
/// of them a `tchar`.
pub open spec fn valid_header_name(bytes: Seq<u8>) -> bool {
    &&& 1 <= bytes.len() <= 65535
    &&& forall|i: int| 0 <= i < bytes.len() ==> is_header_name_byte(#[trigger] bytes[i])
}

/// `b` with an ASCII upper-case letter lowered.
pub open spec fn lower_byte(b: u8) -> u8 {
    if 65 <= b && b <= 90 {
        (b + 32) as u8
    } else {
        b
    }
}

/// The normalised (lower-case) form of a header name.
pub open spec fn lower_bytes(bytes: Seq<u8>) -> Seq<u8> {
    bytes.map_values(|b: u8| lower_byte(b))
}

/// Whether `bytes` form a valid header value: every byte is a tab, or lies
/// between 32 and 255 and is not 127.
pub open spec fn valid_header_value(bytes: Seq<u8>) -> bool {
    forall|i: int|
        0 <= i < bytes.len() ==> {
            let b = #[trigger] bytes[i];
            (b >= 32 && b != 127) || b == 9
        }
}

/// Calls `HeaderName::from_str`. Its source (`HeaderName::from_bytes` with the
/// `HEADER_CHARS` table) accepts exactly the names of 1 to 65535 `tchar`
/// bytes and stores them lower-cased.
#[verifier::external_body]
fn header_name_from_str(s: &str) -> (r: Result<HeaderName, InvalidHeaderName>)
    ensures
        r is Ok <==> valid_header_name(encode_utf8(s@)),
        r matches Ok(n) ==> header_name_bytes(n) == lower_bytes(encode_utf8(s@)),
{
    <HeaderName as std::str::FromStr>::from_str(s)
}

/// Calls `HeaderValue::from_str`. Its source accepts exactly the strings whose
/// UTF-8 bytes are all tabs or lie in 32..=255 without 127, and keeps those
/// bytes.
#[verifier::external_body]
fn header_value_from_str(s: &str) -> (r: Result<HeaderValue, InvalidHeaderValue>)
    ensures
        r is Ok <==> valid_header_value(encode_utf8(s@)),
        r matches Ok(v) ==> header_value_bytes(v) == encode_utf8(s@),
{
    HeaderValue::from_str(s)
}

/// Calls `HeaderMap::new`, which makes an empty map.
#[verifier::external_body]
pub(crate) fn empty_header_map() -> (r: HeaderMap)
    ensures
        header_entries(r) == no_headers(),
{
    HeaderMap::new()
}

/// Calls `HeaderMap::with_capacity`, which makes an empty map. Its source
/// panics when `capacity + capacity / 3` exceeds 32768; `requires` leaves
/// that out.
#[verifier::external_body]
fn header_map_with_capacity(capacity: usize) -> (r: HeaderMap)
    requires
        capacity + capacity / 3 <= 32768,
    ensures
        header_entries(r) == no_headers(),
{
    HeaderMap::with_capacity(capacity)
}

/// Calls `HeaderMap::insert`, which replaces every value stored under the
/// name by the one given. Its source reserves room for one more name first
/// (`try_reserve_one`) and panics when that would take the index table past
/// 32768 slots. With hash collisions the table doubles once the names reach a
/// fifth of it, so at 32768 slots the panic comes with the 6554th name;
/// `requires` keeps the map at 6553 names or fewer, where no growth step can
/// reach it. The previous value that the call returns is dropped.
#[verifier::external_body]
fn header_map_insert(map: &mut HeaderMap, name: HeaderName, value: HeaderValue)
    requires
        header_entries(*old(map)).dom().finite(),
        header_entries(*old(map)).dom().len() <= 6553,
    ensures
        header_entries(*final(map)) == header_entries(*old(map)).insert(
            header_name_bytes(name),
            seq![header_value_bytes(value)],
        ),
{
    map.insert(name, value);
}

/// HTTP headers in the flat form "key:value" (or "key: value"), one string
/// per header.
#[derive(Debug, Clone, Default)]
pub struct RpcFlatHeaderKeyValues {
    pub headers: Vec<String>,
}

impl RpcFlatHeaderKeyValues {
    /// Wraps the given header strings.
    pub fn new(headers: Vec<String>) -> (r: Self)
        ensures
            r.headers@ == headers@,
    {
        Self { headers }
    }

    /// The header strings as character sequences.
    pub open spec fn lines(&self) -> Seq<Seq<char>> {
        self.headers@.map_values(|s: String| s@)
    }

    /// Turns the flat headers into a header map. A line without ':' is
    /// refused with `InvalidHeaderFormat`; otherwise the part before the first
    /// ':' (trimmed) must be a valid header name and the part after it
    /// (trimmed) a valid header value. The first line that fails decides the
    /// error. A later line with the same name replaces an earlier one.
    pub fn into_header_map(self) -> (r: Result<HeaderMap, WGError>)
        requires
            all_header_lines_ok(self.lines()) ==> self.headers@.len() + self.headers@.len() / 3
                <= 32768 && header_lines_entries(self.lines()).dom().len() <= 6553,
        ensures
            match r {
                Ok(m) => (forall|i: int|
                    0 <= i < self.lines().len() ==> header_line_ok(#[trigger] self.lines()[i]))
                    && header_entries(m) == header_lines_entries(self.lines()),
                Err(e) => exists|i: int|
                    0 <= i < self.lines().len() && (forall|j: int|
                        0 <= j < i ==> header_line_ok(#[trigger] self.lines()[j])) && !header_line_ok(
                        self.lines()[i],
                    ) && header_line_error(self.lines()[i], e),
            },
    {
        let ghost lines = self.lines();
        let mut pairs: Vec<(HeaderName, HeaderValue)> = Vec::new();
        let mut i: usize = 0;
        while i < self.headers.len()
            invariant
                lines == self.lines(),
                i <= self.headers@.len(),
                pairs@.len() == i,
                forall|j: int| 0 <= j < i ==> header_line_ok(#[trigger] lines[j]),
                forall|j: int|
                    0 <= j < i ==> (header_name_bytes(#[trigger] pairs@[j].0), header_value_bytes(
                        pairs@[j].1,
                    )) == header_line_entry(lines[j]),
            decreases self.headers@.len() - i,
        {
            let line = &self.headers[i];
            assert(lines[i as int] == line@);
            match parse_header_line(line) {
                Ok(pair) => {
                    pairs.push(pair);
                },
                Err(e) => {
                    return Err(e);
                },
            }
            i = i + 1;
        }
        assert(all_header_lines_ok(lines));
        proof {
            lemma_entries_prefix(lines, 0);
        }
        let mut map = header_map_with_capacity(pairs.len());
        let mut k: usize = 0;
        let n = pairs.len();
        let mut rest = pairs;
        let ghost all = rest@;
        assert(lines.subrange(0, 0) =~= Seq::<Seq<char>>::empty());
        while k < n
            invariant
                n == all.len(),
                n == lines.len(),
                header_lines_entries(lines).dom().finite(),
                header_lines_entries(lines).dom().len() <= 6553,
                k <= n,
                rest@ == all.subrange(k as int, n as int),
                forall|j: int|
                    0 <= j < n ==> (header_name_bytes(#[trigger] all[j].0), header_value_bytes(
                        all[j].1,
                    )) == header_line_entry(lines[j]),
                header_entries(map) == header_lines_entries(lines.subrange(0, k as int)),
                header_entries(map).dom().finite(),
            decreases n - k,
        {
            proof {
                lemma_entries_prefix(lines, k as int);
                vstd::set_lib::lemma_len_subset(
                    header_entries(map).dom(),
                    header_lines_entries(lines).dom(),
                );
            }
            assert(rest@[0] == all[k as int]);
            let (name, value) = rest.remove(0);
            assert(rest@ =~= all.subrange(k + 1, n as int));
            let ghost before = header_entries(map);
            header_map_insert(&mut map, name, value);
            proof {
                let sub = lines.subrange(0, k + 1);
                assert(sub.drop_last() =~= lines.subrange(0, k as int));
                assert(sub.last() == lines[k as int]);
                assert(header_entries(map).dom() =~= before.dom().insert(header_name_bytes(name)));
            }
            k = k + 1;
        }
        assert(lines.subrange(0, n as int) =~= lines);
        Ok(map)
    }
}

/// Whether a flat header line is accepted: it has a ':', the trimmed part
/// before the first ':' is a valid header name and the trimmed part after it
/// a valid header value.
pub open spec fn header_line_ok(line: Seq<char>) -> bool {
    match split_once_spec(line, ':') {
        Some((k, v)) => valid_header_name(encode_utf8(trim_spec(k))) && valid_header_value(
            encode_utf8(trim_spec(v)),
        ),
        None => false,
    }
}

/// The name (lower-cased bytes) and the value (bytes) that an accepted line
/// puts in the header map.
pub open spec fn header_line_entry(line: Seq<char>) -> (Seq<u8>, Seq<u8>) {
    match split_once_spec(line, ':') {
        Some((k, v)) => (lower_bytes(encode_utf8(trim_spec(k))), encode_utf8(trim_spec(v))),
        None => (Seq::empty(), Seq::empty()),
    }
}

/// The header map built from accepted lines, inserted in order.
pub open spec fn header_lines_entries(lines: Seq<Seq<char>>) -> Map<Seq<u8>, Seq<Seq<u8>>>
    decreases lines.len(),
{
    if lines.len() == 0 {
        Map::empty()
    } else {
        let e = header_line_entry(lines.last());
        header_lines_entries(lines.drop_last()).insert(e.0, seq![e.1])
    }
}

/// Whether every flat header line is accepted.
pub open spec fn all_header_lines_ok(lines: Seq<Seq<char>>) -> bool {
    forall|i: int| 0 <= i < lines.len() ==> header_line_ok(#[trigger] lines[i])
}

/// The names that a prefix of the lines puts in the map are among those the
/// whole of them puts there, and there are finitely many.
proof fn lemma_entries_prefix(lines: Seq<Seq<char>>, k: int)
    requires
        0 <= k <= lines.len(),
    ensures
        header_lines_entries(lines).dom().finite(),
        header_lines_entries(lines.subrange(0, k)).dom().subset_of(
            header_lines_entries(lines).dom(),
        ),
    decreases lines.len(),
{
    if lines.len() == 0 {
        assert(header_lines_entries(lines).dom() =~= Set::empty());
        assert(lines.subrange(0, k) =~= lines);
    } else if k == lines.len() {
        lemma_entries_prefix(lines.drop_last(), 0);
        assert(lines.subrange(0, k) =~= lines);
    } else {
        lemma_entries_prefix(lines.drop_last(), k);
        assert(lines.drop_last().subrange(0, k) =~= lines.subrange(0, k));
    }
}

/// Whether `e` is the error that the refused line `line` gets: the whole line
/// for a missing ':', the untrimmed name for a bad name, the untrimmed value
/// for a bad value.
pub open spec fn header_line_error(line: Seq<char>, e: WGError) -> bool {
    match split_once_spec(line, ':') {
        None => e matches WGError::InvalidHeaderFormat { header } && header@ == line,
        Some((k, v)) => if !valid_header_name(encode_utf8(trim_spec(k))) {
            e matches WGError::InvalidHeaderName { name, .. } && name@ == k
        } else {
            e matches WGError::InvalidHeaderValue { value, .. } && value@ == v
        },
    }
}

/// Parses one flat header line into a header name and value.
pub fn parse_header_line(line: &String) -> (r: Result<(HeaderName, HeaderValue), WGError>)
    ensures
        match r {
            Ok((n, v)) => header_line_ok(line@) && (header_name_bytes(n), header_value_bytes(v))
                == header_line_entry(line@),
            Err(e) => !header_line_ok(line@) && header_line_error(line@, e),
        },
{
    match split_once(line.as_str(), ':') {
        None => Err(WGError::InvalidHeaderFormat { header: line.clone() }),
        Some((key, value)) => {
            let tk = trim(key.as_str());
            let name = match header_name_from_str(tk.as_str()) {
                Ok(n) => n,
                Err(e) => {
                    return Err(WGError::InvalidHeaderName { name: key, source: e });
                },
            };
            let tv = trim(value.as_str());
            match header_value_from_str(tv.as_str()) {
                Ok(v) => Ok((name, v)),
                Err(e) => Err(WGError::InvalidHeaderValue { value, source: e }),
            }
        },
    }
}



/// Of several lines with the same header name, the last one decides the
/// value; lines with other names are unaffected by it.
pub proof fn lemma_last_header_wins(lines: Seq<Seq<char>>, line: Seq<char>, other: Seq<u8>)
    ensures
        header_lines_entries(lines.push(line))[header_line_entry(line).0] == seq![
            header_line_entry(line).1,
        ],
        other != header_line_entry(line).0 ==> (header_lines_entries(lines.push(line)).dom().contains(
            other,
        ) == header_lines_entries(lines).dom().contains(other)),
        other != header_line_entry(line).0 && header_lines_entries(lines).dom().contains(other)
            ==> header_lines_entries(lines.push(line))[other] == header_lines_entries(lines)[other],
{
    assert(lines.push(line).drop_last() =~= lines);
}

/// A line made of a key without ':', a ':' and a value is split at that ':'.
proof fn lemma_split_at_colon(k: Seq<char>, v: Seq<char>)
    requires
        forall|i: int| 0 <= i < k.len() ==> k[i] != ':',
    ensures
        split_once_spec(k + seq![':'] + v, ':') == Some((k, v)),
{
    let line = k + seq![':'] + v;
    let n = k.len() as int;
    assert(line[n] == ':');
    assert(forall|j: int| 0 <= j < n ==> line[j] == k[j]);
    assert(0 <= n < line.len() && line[n] == ':' && forall|j: int| 0 <= j < n ==> line[j] != ':');
    let w = choose|i: int| 0 <= i < line.len() && line[i] == ':' && forall|j: int| 0 <= j < i ==> line[j] != ':';
    assert(w == n) by {
        if w < n {
            assert(line[w] == k[w]);
        } else if w > n {
            assert(line[n] != ':');
        }
    }
    assert(first_index_of(line, ':') == Some(n));
    assert(line.subrange(0, n) =~= k);
    assert(line.subrange(n + 1, line.len() as int) =~= v);
}

/// A flat header line `key:value` is accepted exactly when the key, with
/// surrounding whitespace trimmed, is a valid header name and the trimmed
/// value a valid header value; the name it puts in the map is the trimmed
/// key, lower-cased, and the value the trimmed value. So whitespace before
/// the key changes neither whether the line is accepted nor what it adds.
pub proof fn lemma_header_line_trims(k: Seq<char>, v: Seq<char>, c: char)
    requires
        forall|i: int| 0 <= i < k.len() ==> k[i] != ':',
        is_unicode_whitespace(c),
    ensures
        header_line_ok(k + seq![':'] + v) == (valid_header_name(encode_utf8(trim_spec(k)))
            && valid_header_value(encode_utf8(trim_spec(v)))),
        header_line_entry(k + seq![':'] + v) == (
            lower_bytes(encode_utf8(trim_spec(k))),
            encode_utf8(trim_spec(v)),
        ),
        header_line_ok(seq![c] + k + seq![':'] + v) == header_line_ok(k + seq![':'] + v),
        header_line_entry(seq![c] + k + seq![':'] + v) == header_line_entry(k + seq![':'] + v),
{
    lemma_split_at_colon(k, v);
    let ck = seq![c] + k;
    assert forall|i: int| 0 <= i < ck.len() implies ck[i] != ':' by {
        if i > 0 {
            assert(ck[i] == k[i - 1]);
        }
    }
    lemma_split_at_colon(ck, v);
    lemma_trim_cases(k, c);
}

} // verus!
