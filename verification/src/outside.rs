//! The calls this library makes into `uuid` and `reqwest`.

use reqwest::RequestBuilder;
use vstd::multiset::Multiset;
use vstd::prelude::*;

verus! {

/// The request builder of `reqwest`, carried through as an opaque value.
#[verifier::external_type_specification]
#[verifier::external_body]
pub struct ExRequestBuilder(RequestBuilder);

/// A lower-case hexadecimal digit.
pub open spec fn is_lower_hex_digit(c: char) -> bool {
    ('0' <= c && c <= '9') || ('a' <= c && c <= 'f')
}

/// Whether position `i` of a hyphenated UUID holds a hyphen.
pub open spec fn is_uuid_hyphen_position(i: int) -> bool {
    i == 8 || i == 13 || i == 18 || i == 23
}

/// The hyphenated lower-case text of a random (version 4, RFC 4122 variant) UUID:
/// 36 characters, hyphens at positions 8, 13, 18 and 23, lower-case hex digits
/// elsewhere, the version digit `4` at position 14 and one of `8`, `9`, `a`, `b`
/// at position 19.
pub open spec fn is_random_uuid_text(s: Seq<char>) -> bool {
    &&& s.len() == 36
    &&& forall|i: int|
        0 <= i < 36 ==> if is_uuid_hyphen_position(i) {
            s[i] == '-'
        } else {
            is_lower_hex_digit(#[trigger] s[i])
        }
    &&& s[14] == '4'
    &&& (s[19] == '8' || s[19] == '9' || s[19] == 'a' || s[19] == 'b')
}

/// Calls `uuid::Uuid::new_v4` and formats the UUID with `to_string`.
///
/// Claimed: the text is a hyphenated lower-case version 4 UUID (uuid's `new_v4`
/// sets the version nibble to 4 and the variant bits to `10`; its `Display` is
/// the hyphenated lower-case form). Which UUID comes back rests on the operating
/// system's random source and is left open; `new_v4` panics only where that
/// source cannot be read.
#[verifier::external_body]
pub(crate) fn new_invocation_id() -> (id: String)
    ensures
        is_random_uuid_text(id@),
{
    uuid::Uuid::new_v4().to_string()
}

/// Whether the request under construction in `req` is still valid: no earlier
/// step recorded an error in the builder.
pub uninterp spec fn builder_is_ok(req: RequestBuilder) -> bool;

/// The headers of the request under construction in `req`, as (name, value)
/// pairs; a name appears as `http` stores it, in lower case.
pub uninterp spec fn builder_headers(req: RequestBuilder) -> Multiset<(Seq<char>, Seq<char>)>;

/// The builders that a further header cannot overflow: `http`'s `HeaderMap`
/// panics only when it would grow past 2^15 slots, which fewer than 3000
/// headers never reach.
pub open spec fn builder_has_room(req: RequestBuilder, more: int) -> bool {
    builder_is_ok(req) ==> builder_headers(req).len() + more < 3000
}

/// A character allowed in a header name (an HTTP token character).
pub open spec fn is_header_name_char(c: char) -> bool {
    ||| ('a' <= c && c <= 'z')
    ||| ('A' <= c && c <= 'Z')
    ||| ('0' <= c && c <= '9')
    ||| c == '!' || c == '#' || c == '$' || c == '%' || c == '&' || c == '\''
    ||| c == '*' || c == '+' || c == '-' || c == '.' || c == '^' || c == '_'
    ||| c == '`' || c == '|' || c == '~'
}

/// A valid header name: 1 to 65535 token characters.
pub open spec fn is_valid_header_name(name: Seq<char>) -> bool {
    &&& 1 <= name.len() <= 65535
    &&& forall|i: int| 0 <= i < name.len() ==> is_header_name_char(#[trigger] name[i])
}

/// A valid header value: no control character but the tab, and no DEL.
pub open spec fn is_valid_header_value(value: Seq<char>) -> bool {
    forall|i: int|
        0 <= i < value.len() ==> (#[trigger] value[i] == '\t' || (' ' <= value[i] && value[i]
            != '\u{7f}'))
}

/// `c` with an upper-case ASCII letter turned to lower case.
pub open spec fn ascii_lower_char(c: char) -> char {
    if 'A' <= c && c <= 'Z' {
        ((c as u32) + 32) as char
    } else {
        c
    }
}

/// `s` with its upper-case ASCII letters turned to lower case.
pub open spec fn ascii_lower(s: Seq<char>) -> Seq<char> {
    s.map_values(|c: char| ascii_lower_char(c))
}

/// Calls `reqwest::RequestBuilder::header` with the header's name and value.
///
/// Claimed, from the sources of `reqwest` and `http`: a builder that already
/// holds an error keeps one; otherwise, where `name` is a valid header name and
/// `value` a valid header value, the builder stays valid and gains the header
/// with its name in lower case, and where either is invalid the builder records
/// an error. The `requires` keeps the header map far below the size at which
/// `HeaderMap::append` panics. What an errored builder holds is left open.
#[verifier::external_body]
pub(crate) fn with_header(req: RequestBuilder, name: &str, value: &str) -> (r: RequestBuilder)
    requires
        builder_has_room(req, 1),
    ensures
        builder_is_ok(r) <==> (builder_is_ok(req) && is_valid_header_name(name@)
            && is_valid_header_value(value@)),
        builder_is_ok(r) ==> builder_headers(r) == builder_headers(req).insert(
            (ascii_lower(name@), value@),
        ),
{
    req.header(name, value)
}

} // verus!
