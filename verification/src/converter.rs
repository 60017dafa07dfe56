//! Translation between the proxy's two HTTP stacks.
//!
//! The library's side of it: which inbound headers travel upstream and under which name, and
//! which upstream status codes actix takes. Moving bodies and whole responses is I/O and stays
//! with the binary.

use crate::text::{ascii_lower, ascii_lower_char, concat, decimal, decimal_string, str_equals};
use vstd::prelude::*;
use vstd::string::StringSliceAdditionalSpecFns;
use vstd::utf8::{encode_utf8, is_ascii_chars, is_ascii_chars_encode_utf8};

verus! {

/// One header as the library handles it: its name, and the bytes of its value.
pub type HeaderPair = (String, Vec<u8>);

/// The view of one header.
pub open spec fn pair_view(p: HeaderPair) -> (Seq<char>, Seq<u8>) {
    (p.0@, p.1@)
}

/// The views of a list of headers.
pub open spec fn pairs_view(ps: Seq<HeaderPair>) -> Seq<(Seq<char>, Seq<u8>)> {
    ps.map_values(|p: HeaderPair| pair_view(p))
}

/// A byte `http` allows in a header value: visible ASCII, space, tab, or any byte from 128 up.
pub open spec fn header_value_byte(b: u8) -> bool {
    (b >= 32 && b != 127) || b == 9
}

/// Whether `http` takes `bytes` as a header value.
pub open spec fn header_value_accepts(bytes: Seq<u8>) -> bool {
    forall|i: int| 0 <= i < bytes.len() ==> header_value_byte(#[trigger] bytes[i])
}

/// `reqwest::header::HeaderValue::from_bytes`, asked only whether it succeeds.
///
/// Trusted: it succeeds exactly when every byte is a tab, or at least 32 and not 127 (`http`'s
/// `HeaderValue::try_from_generic`).
#[verifier::external_body]
pub(crate) fn header_value_ok(bytes: &[u8]) -> (ok: bool)
    ensures
        ok == header_value_accepts(bytes@),
{
    reqwest::header::HeaderValue::from_bytes(bytes).is_ok()
}

/// What `http`'s header-name table makes of one byte: `A` to `Z` lower-cased, the other token
/// bytes (lower-case letters, digits and ``!#$%&'*+-.^_`|~``) kept, and 0 for a byte it refuses.
pub open spec fn header_name_byte(b: u8) -> u8 {
    if 65 <= b && b <= 90 {
        (b + 32) as u8
    } else if b == 33 || (35 <= b && b <= 39) || b == 42 || b == 43 || b == 45 || b == 46
        || (48 <= b && b <= 57) || (94 <= b && b <= 122) || b == 124 || b == 126 {
        b
    } else {
        0
    }
}

/// The name `reqwest::header::HeaderName::from_bytes` makes of `bytes`, as its `as_str` spells
/// it: between 1 and 65535 bytes, each one the table keeps, lower-cased; `None` otherwise.
pub open spec fn header_name_canonical(bytes: Seq<u8>) -> Option<Seq<char>> {
    if 1 <= bytes.len() && bytes.len() <= 65535
        && forall|i: int| 0 <= i < bytes.len() ==> header_name_byte(#[trigger] bytes[i]) != 0 {
        Some(Seq::new(bytes.len(), |i: int| header_name_byte(bytes[i]) as char))
    } else {
        None
    }
}

/// `reqwest::header::HeaderName::from_bytes`, the name it builds handed back as its text.
///
/// Trusted: the result is the canonical form of `bytes` above, or `None` exactly when the
/// crate refuses them (`http` 1.5, `parse_hdr` over `HEADER_CHARS`, `MAX_HEADER_NAME_LEN`).
#[verifier::external_body]
pub(crate) fn header_name_of(bytes: &[u8]) -> (name: Option<String>)
    ensures
        match name {
            Some(n) => header_name_canonical(bytes@) == Some(n@),
            None => header_name_canonical(bytes@) is None,
        },
{
    match reqwest::header::HeaderName::from_bytes(bytes) {
        Ok(name) => Some(name.as_str().to_string()),
        Err(_) => None,
    }
}

/// What one inbound header becomes upstream: under the name `http` gives it, unless that name
/// is `host` or either half is refused.
pub open spec fn forwarded_header(p: (Seq<char>, Seq<u8>)) -> Option<(Seq<char>, Seq<u8>)> {
    match header_name_canonical(encode_utf8(p.0)) {
        Some(name) => if name != "host"@ && header_value_accepts(p.1) {
            Some((name, p.1))
        } else {
            None
        },
        None => None,
    }
}

/// Every inbound header that travels upstream, in the order they arrived.
pub open spec fn forwarded_headers(ps: Seq<(Seq<char>, Seq<u8>)>) -> Seq<(Seq<char>, Seq<u8>)>
    decreases ps.len(),
{
    if ps.len() == 0 {
        Seq::empty()
    } else {
        let rest = forwarded_headers(ps.drop_last());
        match forwarded_header(ps.last()) {
            Some(h) => rest.push(h),
            None => rest,
        }
    }
}

/// No header named `host` ever travels upstream, and every one that does is an inbound header
/// under the name `http` gives it, with its value unchanged.
pub proof fn lemma_no_host_forwarded(ps: Seq<(Seq<char>, Seq<u8>)>)
    ensures
        forall|i: int| 0 <= i < forwarded_headers(ps).len() ==> (#[trigger] forwarded_headers(ps)[i]).0 != "host"@,
        forall|i: int| 0 <= i < forwarded_headers(ps).len() ==> exists|j: int| 0 <= j < ps.len() && forwarded_header(ps[j]) == Some(#[trigger] forwarded_headers(ps)[i]),
    decreases ps.len(),
{
    if ps.len() > 0 {
        lemma_no_host_forwarded(ps.drop_last());
        let rest = forwarded_headers(ps.drop_last());
        let out = forwarded_headers(ps);
        assert forall|i: int| 0 <= i < out.len() implies exists|j: int| 0 <= j < ps.len() && forwarded_header(ps[j]) == Some(#[trigger] out[i]) by {
            if i < rest.len() {
                assert(out[i] == rest[i]);
                let j = choose|j: int| 0 <= j < ps.drop_last().len() && forwarded_header(ps.drop_last()[j]) == Some(rest[i]);
                assert(ps[j] == ps.drop_last()[j]);
            } else {
                assert(ps[ps.len() - 1] == ps.last());
            }
        }
    }
}

/// The actix-to-reqwest direction.
///
/// Never constructed; its conversions are associated functions.
pub struct ActixToReqwestConverter {}

impl ActixToReqwestConverter {
    /// Whether a header of this name may be forwarded: everything but `host`, which reqwest
    /// sets from the target URL.
    pub fn is_valid_header_name(name: &str) -> (valid: bool)
        ensures
            valid == (name@ != "host"@),
    {
        !str_equals(name, "host")
    }

    /// Copies `headers` across under the names `http` gives them, dropping `host`.
    ///
    /// `host` is dropped because reqwest sets it from the target URL. A header whose name or
    /// value the upstream stack refuses is dropped without a word.
    pub fn convert_headers(headers: &Vec<HeaderPair>) -> (converted: Vec<HeaderPair>)
        ensures
            pairs_view(converted@) == forwarded_headers(pairs_view(headers@)),
    {
        let mut converted: Vec<HeaderPair> = Vec::new();
        let mut i: usize = 0;
        while i < headers.len()
            invariant
                0 <= i <= headers@.len(),
                pairs_view(converted@) == forwarded_headers(pairs_view(headers@.take(i as int))),
            decreases headers@.len() - i,
        {
            let name = &headers[i].0;
            let value = &headers[i].1;
            let ghost before = converted@;
            proof {
                assert(pairs_view(headers@.take(i + 1)).drop_last() =~= pairs_view(headers@.take(i as int)));
                assert(pairs_view(headers@.take(i + 1)).last() == pair_view(headers@[i as int]));
            }
            match header_name_of(name.as_str().as_bytes()) {
                Some(canonical) => {
                    if ActixToReqwestConverter::is_valid_header_name(canonical.as_str())
                        && header_value_ok(value.as_slice()) {
                        let copied = value.clone();
                        proof {
                            assert(copied@ =~= value@);
                        }
                        converted.push((canonical, copied));
                        proof {
                            assert(pairs_view(converted@) =~= pairs_view(before).push(
                                forwarded_header(pair_view(headers@[i as int]))->0,
                            ));
                        }
                    }
                },
                None => {},
            }
            i = i + 1;
        }
        proof {
            assert(headers@.take(headers@.len() as int) =~= headers@);
        }
        converted
    }
}

/// `host` is the only header dropped by name: an inbound header whose name `http` takes, under
/// a canonical name other than `host`, and whose value `http` takes, travels upstream under that
/// name with its value unchanged.
pub proof fn lemma_only_host_dropped_by_name(p: (Seq<char>, Seq<u8>), name: Seq<char>)
    requires
        header_name_canonical(encode_utf8(p.0)) == Some(name),
        name != "host"@,
        header_value_accepts(p.1),
    ensures
        forwarded_header(p) == Some((name, p.1)),
{
}

/// When no inbound header is named `host` and `http` takes every name and value, every header
/// travels upstream, in the order it arrived, under its canonical name and with its value
/// unchanged.
pub proof fn lemma_every_other_header_forwarded(ps: Seq<(Seq<char>, Seq<u8>)>)
    requires
        forall|i: int| 0 <= i < ps.len() ==> {
            &&& (#[trigger] header_name_canonical(encode_utf8(ps[i].0))) is Some
            &&& header_name_canonical(encode_utf8(ps[i].0))->0 != "host"@
            &&& header_value_accepts(ps[i].1)
        },
    ensures
        forwarded_headers(ps) == ps.map_values(
            |p: (Seq<char>, Seq<u8>)| (header_name_canonical(encode_utf8(p.0))->0, p.1),
        ),
    decreases ps.len(),
{
    if ps.len() > 0 {
        let rest = ps.drop_last();
        assert forall|i: int| 0 <= i < rest.len() implies {
            &&& (#[trigger] header_name_canonical(encode_utf8(rest[i].0))) is Some
            &&& header_name_canonical(encode_utf8(rest[i].0))->0 != "host"@
            &&& header_value_accepts(rest[i].1)
        } by {
            assert(rest[i] == ps[i]);
        }
        lemma_every_other_header_forwarded(rest);
        let last = ps.last();
        assert(header_name_canonical(encode_utf8(ps[ps.len() - 1].0)) is Some);
        lemma_only_host_dropped_by_name(last, header_name_canonical(encode_utf8(last.0))->0);
        assert(forwarded_headers(ps) =~= ps.map_values(
            |p: (Seq<char>, Seq<u8>)| (header_name_canonical(encode_utf8(p.0))->0, p.1),
        ));
    } else {
        assert(forwarded_headers(ps) =~= ps.map_values(
            |p: (Seq<char>, Seq<u8>)| (header_name_canonical(encode_utf8(p.0))->0, p.1),
        ));
    }
}

/// A header whose name spells `host` in any case of its letters never travels upstream.
pub proof fn lemma_host_in_any_case_dropped(name: Seq<char>, value: Seq<u8>)
    requires
        is_ascii_chars(name),
        ascii_lower(name) == "host"@,
    ensures
        forwarded_header((name, value)) is None,
{
    reveal_strlit("host");
    assert("host"@.len() == 4);
    assert(ascii_lower(name).len() == name.len());
    is_ascii_chars_encode_utf8(name);
    let bytes = encode_utf8(name);
    assert(name.len() == 4);
    assert forall|i: int| 0 <= i < 4 implies header_name_byte(#[trigger] bytes[i]) != 0
        && header_name_byte(bytes[i]) as char == "host"@[i] by {
        assert(ascii_lower(name)[i] == ascii_lower_char(name[i]));
        assert(bytes[i] == name[i] as u8);
    }
    let canonical = Seq::new(bytes.len(), |i: int| header_name_byte(bytes[i]) as char);
    assert(canonical =~= "host"@);
}

/// The actix status `actix_web::http::StatusCode::from_u16` makes of `code`.
pub uninterp spec fn actix_status_of(code: u16) -> actix_web::http::StatusCode;

/// `actix_web::http::StatusCode::from_u16`.
///
/// Trusted: succeeds exactly for 100 to 999 (`http` 0.2, `StatusCode::from_u16`), with the
/// status of that code (named).
#[verifier::external_body]
fn actix_status_from_u16(code: u16) -> (status: Option<actix_web::http::StatusCode>)
    ensures
        status is Some <==> 100 <= code < 1000,
        status matches Some(s) ==> s == actix_status_of(code),
{
    match actix_web::http::StatusCode::from_u16(code) {
        Ok(status) => Some(status),
        Err(_) => None,
    }
}

/// The reqwest-to-actix direction.
///
/// Never constructed; its conversions are associated functions.
pub struct ReqwestToActixConverter {}

/// The message a status code actix will not take is refused with.
pub open spec fn invalid_status_message(code: u16) -> Seq<char> {
    "Invalid status code: "@ + decimal(code as nat)
}

impl ReqwestToActixConverter {
    /// Maps a numeric upstream status onto actix's status of the same code.
    ///
    /// # Errors
    /// [`ConverterError::InvalidStatusCode`] outside 100 to 999, naming the code.
    pub fn convert_status_code(code: u16) -> (status: Result<actix_web::http::StatusCode, ConverterError>)
        ensures
            status is Ok <==> 100 <= code < 1000,
            status matches Ok(s) ==> s == actix_status_of(code),
            status matches Err(e) ==> e matches ConverterError::InvalidStatusCode(msg)
                && msg@ == invalid_status_message(code),
    {
        match actix_status_from_u16(code) {
            Some(status) => Ok(status),
            None => Err(ConverterError::invalid_status_code(code)),
        }
    }
}

/// A response that could not be moved between the two HTTP stacks, as far as the library
/// decides it.
///
/// A body that ends early and an upstream that fails are met where the binary reads and sends,
/// and its own error type carries them beside this one.
#[derive(Debug)]
pub enum ConverterError {
    /// The upstream answered with a status code outside the range actix accepts. Carries the
    /// message naming it.
    InvalidStatusCode(String),
}

impl ConverterError {
    /// The error for a status code actix refuses, naming the code.
    pub fn invalid_status_code(code: u16) -> (error: ConverterError)
        ensures
            error matches ConverterError::InvalidStatusCode(msg) && msg@ == invalid_status_message(code),
    {
        let digits = decimal_string(code as u64);
        ConverterError::InvalidStatusCode(concat("Invalid status code: ", digits.as_str()))
    }
}

} // verus!
