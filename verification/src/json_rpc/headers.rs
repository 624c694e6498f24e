use vstd::prelude::*;

verus! {

/// `http::HeaderMap`, the request headers that the proxy edits.
#[verifier::external_type_specification]
#[verifier::external_body]
#[verifier::reject_recursive_types(T)]
pub struct ExHeaderMap<T>(http::HeaderMap<T>);

/// `http::HeaderValue`, one value of a header; only ever stored in a
/// `HeaderMap` here.
#[verifier::external_type_specification]
#[verifier::external_body]
pub struct ExHeaderValue(http::HeaderValue);

/// What a header map holds: for each (lower-case) header name, the byte
/// strings of its values in order.
pub uninterp spec fn header_entries(map: http::HeaderMap) -> Map<Seq<char>, Seq<Seq<u8>>>;

/// A character that the `http` crate keeps unchanged in a header name.
pub open spec fn is_header_name_char(c: char) -> bool {
    ||| c == '!' || c == '"'
    ||| '#' <= c <= '\''
    ||| c == '*' || c == '+' || c == '-' || c == '.'
    ||| '0' <= c <= '9'
    ||| c == '^' || c == '_' || c == '`'
    ||| 'a' <= c <= 'z'
    ||| c == '|' || c == '~'
}

/// A header name that `HeaderMap::insert` takes from a `&'static str` without
/// panicking and without rewriting it: 1 to 64 lower-case token characters.
pub open spec fn is_static_header_name(name: Seq<char>) -> bool {
    &&& 1 <= name.len() <= 64
    &&& forall|i: int| 0 <= i < name.len() ==> is_header_name_char(#[trigger] name[i])
}

/// A byte that may stand in a header value: visible ASCII, space, tab, or any
/// byte from `0x80` up.
pub open spec fn is_header_value_byte(b: u8) -> bool {
    (32 <= b && b != 127) || b == 9
}

/// Bytes that `HeaderValue::from_str` accepts.
pub open spec fn is_header_value(bytes: Seq<u8>) -> bool {
    forall|i: int| 0 <= i < bytes.len() ==> is_header_value_byte(#[trigger] bytes[i])
}

/// Up to this number of distinct names, `HeaderMap` always has room for
/// one more.
pub open spec fn header_map_room() -> nat {
    6553
}

/// What became of a header insertion.
pub enum HeaderInsert {
    /// The value is now the only one under the name.
    Inserted,
    /// The value text holds bytes that a header value may not hold; the map
    /// is unchanged.
    ValueRefused,
    /// The map's table cannot take another entry; the map is unchanged.
    TableFull,
}

/// `headers.insert(name, value.parse().unwrap())` on an `http::HeaderMap`,
/// with a refused value and a full table reported instead of panicking
/// (through `HeaderMap::try_insert`, the fallible form of `insert`).
///
/// Trusted: `HeaderValue::from_str` accepts exactly the strings whose bytes
/// are all header-value bytes, and keeps those bytes; `try_insert` makes the
/// value the only one under the name, and a `&'static str` name of 1 to 64
/// lower-case token characters is taken as it is. `try_insert` fails, leaving
/// the entries as they were, only when its table would have to grow past
/// 32768 slots, which needs more than `header_map_room()` names already
/// present (the table's load-factor check at 32768 slots). A map changes by
/// at most one name.
#[verifier::external_body]
pub(crate) fn insert_header(map: &mut http::HeaderMap, name: &'static str, value: &str) -> (outcome: HeaderInsert)
    requires
        is_static_header_name(name@),
    ensures
        (outcome is ValueRefused) <==> !is_header_value(vstd::utf8::encode_utf8(value@)),
        outcome is Inserted ==> header_entries(*final(map)) == header_entries(*old(map)).insert(
            name@,
            seq![vstd::utf8::encode_utf8(value@)],
        ),
        !(outcome is Inserted) ==> header_entries(*final(map)) == header_entries(*old(map)),
        outcome is TableFull ==> header_entries(*old(map)).dom().len() > header_map_room(),
        header_entries(*final(map)).dom().len() <= header_entries(*old(map)).dom().len() + 1,
{
    match value.parse::<http::HeaderValue>() {
        Ok(parsed) => match map.try_insert(name, parsed) {
            Ok(_) => HeaderInsert::Inserted,
            Err(_) => HeaderInsert::TableFull,
        },
        Err(_) => HeaderInsert::ValueRefused,
    }
}

} // verus!
