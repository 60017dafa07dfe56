//! What is proxied, and where to.

use crate::error::Error;
use crate::text::{all_ascii, ascii_lower, ascii_upper, concat, str_equals, to_uppercase, unicode_upper};
use vstd::prelude::*;
use vstd::std_specs::convert::TryFromSpecImpl;
use vstd::string::StringSliceAdditionalSpecFns;
use vstd::utf8::{encode_utf8, is_ascii_chars, is_ascii_chars_encode_utf8};

verus! {

/// A method a path may be proxied with, or [`AllowedMethod::ALL`] for every one of them.
///
/// Parsed from its name in any case: `"get"` and `"GET"` are the same value.
#[derive(Debug, Clone, Copy, PartialEq, Eq, Structural, Hash)]
pub enum AllowedMethod {
    /// Every method, so any other entry in the same list is ignored.
    ALL,
    /// Forwarded without its body.
    GET,
    /// Forwarded with its body.
    POST,
    /// Forwarded with its body.
    PUT,
    /// Forwarded with its body.
    PATCH,
    /// Forwarded without its body.
    DELETE,
}

/// The upper-case spelling of each method, `"ALL"` included.
pub open spec fn method_name(m: AllowedMethod) -> Seq<char> {
    match m {
        AllowedMethod::ALL => "ALL"@,
        AllowedMethod::GET => "GET"@,
        AllowedMethod::POST => "POST"@,
        AllowedMethod::PUT => "PUT"@,
        AllowedMethod::PATCH => "PATCH"@,
        AllowedMethod::DELETE => "DELETE"@,
    }
}

/// The method whose upper-case spelling is exactly `s`, if there is one.
pub open spec fn method_named(s: Seq<char>) -> Option<AllowedMethod> {
    if s == "ALL"@ {
        Some(AllowedMethod::ALL)
    } else if s == "GET"@ {
        Some(AllowedMethod::GET)
    } else if s == "POST"@ {
        Some(AllowedMethod::POST)
    } else if s == "PUT"@ {
        Some(AllowedMethod::PUT)
    } else if s == "PATCH"@ {
        Some(AllowedMethod::PATCH)
    } else if s == "DELETE"@ {
        Some(AllowedMethod::DELETE)
    } else {
        None
    }
}

/// What parsing `s` as a method gives: the method whose name equals the upper-case form of `s`.
pub open spec fn parsed_method(s: Seq<char>) -> Option<AllowedMethod> {
    method_named(unicode_upper(s))
}

/// The message a string that names no method is refused with.
pub open spec fn unknown_method_message(s: Seq<char>) -> Seq<char> {
    "Unknown method: "@ + s
}

impl AllowedMethod {
    /// The uppercase spelling, `"ALL"` included.
    pub fn name(&self) -> (name: &'static str)
        ensures
            name@ == method_name(*self),
    {
        match self {
            AllowedMethod::ALL => "ALL",
            AllowedMethod::GET => "GET",
            AllowedMethod::POST => "POST",
            AllowedMethod::PUT => "PUT",
            AllowedMethod::PATCH => "PATCH",
            AllowedMethod::DELETE => "DELETE",
        }
    }

    /// The method whose upper-case name is exactly `upper`, with no case folded.
    pub fn from_exact_name(upper: &str) -> (method: Option<AllowedMethod>)
        ensures
            method == method_named(upper@),
    {
        if str_equals(upper, "ALL") {
            Some(AllowedMethod::ALL)
        } else if str_equals(upper, "GET") {
            Some(AllowedMethod::GET)
        } else if str_equals(upper, "POST") {
            Some(AllowedMethod::POST)
        } else if str_equals(upper, "PUT") {
            Some(AllowedMethod::PUT)
        } else if str_equals(upper, "PATCH") {
            Some(AllowedMethod::PATCH)
        } else if str_equals(upper, "DELETE") {
            Some(AllowedMethod::DELETE)
        } else {
            None
        }
    }

    /// Parses a method from its name in any case: every method's name, in upper case or in
    /// lower case, parses back to that method.
    ///
    /// # Errors
    /// [`Error::Custom`] reading `Unknown method: <value>` when the upper-case form of `value`
    /// is none of the six names.
    pub fn parse(value: &str) -> (parsed: Result<AllowedMethod, Error>)
        ensures
            match parsed {
                Ok(m) => parsed_method(value@) == Some(m),
                Err(e) => {
                    &&& parsed_method(value@) is None
                    &&& e matches Error::Custom(msg) && msg@ == unknown_method_message(value@)
                },
            },
            all_ascii(value@) ==> parsed_method(value@) == method_named(ascii_upper(value@)),
            forall|m: AllowedMethod| #![trigger method_name(m)]
                (value@ == method_name(m) || value@ == ascii_lower(method_name(m)))
                    ==> parsed == Ok::<AllowedMethod, Error>(m),
    {
        let upper = to_uppercase(value);
        let parsed = match AllowedMethod::from_exact_name(upper.as_str()) {
            Some(m) => Ok(m),
            None => {
                let msg = concat("Unknown method: ", value);
                Err(Error::Custom(msg))
            },
        };
        proof {
            assert forall|m: AllowedMethod| #![trigger method_name(m)]
                (value@ == method_name(m) || value@ == ascii_lower(method_name(m)))
                    implies parsed == Ok::<AllowedMethod, Error>(m) by {
                lemma_names_parse_back(m);
            }
        }
        parsed
    }
}

/// A byte `http`'s method parser keeps: the token characters of RFC 9110 other than `#`, `$`,
/// `%`, `&` and `'`.
pub open spec fn method_token_byte(b: u8) -> bool {
    b == 33 || b == 42 || b == 43 || b == 45 || b == 46 || (48 <= b && b <= 57) || (65 <= b
        && b <= 90) || (94 <= b && b <= 122) || b == 124 || b == 126
}

/// Whether `http` parses `bytes` as a method: non-empty, and made of method token bytes only.
pub open spec fn http_method_accepts(bytes: Seq<u8>) -> bool {
    bytes.len() > 0 && forall|i: int| 0 <= i < bytes.len() ==> method_token_byte(#[trigger] bytes[i])
}

/// The actix method `<actix_web::http::Method as FromStr>::from_str` makes of the name `s`.
pub uninterp spec fn actix_method_of(s: Seq<char>) -> actix_web::http::Method;

/// `<actix_web::http::Method as FromStr>::from_str`.
///
/// Trusted: succeeds exactly when `s` is non-empty and every byte of it is one the method
/// table keeps (`http` 0.2, `Method::from_bytes`), with the method of that name (named), and
/// refuses with the text `invalid HTTP method` otherwise.
#[verifier::external_body]
fn actix_method_from_str(s: &str) -> (method: Result<actix_web::http::Method, String>)
    ensures
        method is Ok <==> http_method_accepts(s.spec_bytes()),
        method matches Ok(m) ==> m == actix_method_of(s@),
        method matches Err(text) ==> text@ == "invalid HTTP method"@,
{
    match <actix_web::http::Method as std::str::FromStr>::from_str(s) {
        Ok(method) => Ok(method),
        Err(e) => Err(e.to_string()),
    }
}

impl AllowedMethod {
    /// The actix method of the same name: what actix parses this method's name as.
    ///
    /// # Errors
    /// [`Error::Custom`] for [`AllowedMethod::ALL`], the one input this refuses: it stands for a
    /// set, and actix has no method that means every method.
    pub fn to_http_method(self) -> (method: Result<actix_web::http::Method, Error>)
        ensures
            method is Err <==> self == AllowedMethod::ALL,
            method matches Ok(m) ==> m == actix_method_of(method_name(self)),
            method matches Err(e) ==> e matches Error::Custom(msg) && msg@
                == "Can't convert ALL to actix_web::http::Method"@,
    {
        if self == AllowedMethod::ALL {
            return Err(Error::custom("Can't convert ALL to actix_web::http::Method"));
        }
        let name = self.name();
        proof {
            lemma_names_are_method_tokens(self);
        }
        match actix_method_from_str(name) {
            Ok(method) => Ok(method),
            Err(text) => {
                let msg = concat("Can't convert method to actix_web::http::Method: ", text.as_str());
                let msg = concat(msg.as_str(), " | ");
                let msg = concat(msg.as_str(), name);
                Err(Error::Custom(msg))
            },
        }
    }
}

/// Every method name is made of upper-case ASCII letters, which `http` accepts as a method.
pub proof fn lemma_names_are_method_tokens(m: AllowedMethod)
    ensures
        http_method_accepts(encode_utf8(method_name(m))),
{
    lemma_names_are_upper_letters(m);
    let n = method_name(m);
    assert(is_ascii_chars(n));
    is_ascii_chars_encode_utf8(n);
    let b = encode_utf8(n);
    assert forall|i: int| 0 <= i < b.len() implies method_token_byte(#[trigger] b[i]) by {
        assert(n[i] as u8 == b[i]);
        assert('A' <= n[i] <= 'Z');
    }
}

/// Every method name is a non-empty run of upper-case ASCII letters.
pub proof fn lemma_names_are_upper_letters(m: AllowedMethod)
    ensures
        method_name(m).len() > 0,
        forall|i: int| 0 <= i < method_name(m).len() ==> 'A' <= #[trigger] method_name(m)[i] <= 'Z',
{
    reveal_strlit("ALL");
    reveal_strlit("GET");
    reveal_strlit("POST");
    reveal_strlit("PUT");
    reveal_strlit("PATCH");
    reveal_strlit("DELETE");
    match m {
        AllowedMethod::ALL => {},
        AllowedMethod::GET => {},
        AllowedMethod::POST => {},
        AllowedMethod::PUT => {},
        AllowedMethod::PATCH => {},
        AllowedMethod::DELETE => {},
    }
}

impl core::str::FromStr for AllowedMethod {
    type Err = Error;

    /// As [`AllowedMethod::parse`].
    fn from_str(value: &str) -> (parsed: Result<AllowedMethod, Error>)
        ensures
            match parsed {
                Ok(m) => parsed_method(value@) == Some(m),
                Err(e) => {
                    &&& parsed_method(value@) is None
                    &&& e matches Error::Custom(msg) && msg@ == unknown_method_message(value@)
                },
            },
            all_ascii(value@) ==> parsed_method(value@) == method_named(ascii_upper(value@)),
            forall|m: AllowedMethod| #![trigger method_name(m)]
                (value@ == method_name(m) || value@ == ascii_lower(method_name(m)))
                    ==> parsed == Ok::<AllowedMethod, Error>(m),
    {
        AllowedMethod::parse(value)
    }
}

impl TryFrom<String> for AllowedMethod {
    type Error = Error;

    /// As [`AllowedMethod::parse`].
    fn try_from(value: String) -> (parsed: Result<AllowedMethod, Error>)
        ensures
            match parsed {
                Ok(m) => parsed_method(value@) == Some(m),
                Err(e) => {
                    &&& parsed_method(value@) is None
                    &&& e matches Error::Custom(msg) && msg@ == unknown_method_message(value@)
                },
            },
            all_ascii(value@) ==> parsed_method(value@) == method_named(ascii_upper(value@)),
            forall|m: AllowedMethod| #![trigger method_name(m)]
                (value@ == method_name(m) || value@ == ascii_lower(method_name(m)))
                    ==> parsed == Ok::<AllowedMethod, Error>(m),
    {
        AllowedMethod::parse(value.as_str())
    }
}

impl TryFromSpecImpl<String> for AllowedMethod {
    /// The contract of `try_from` above is the one callers go by; the error's text has no
    /// spec-level constructor, so no whole result is promised here.
    open spec fn obeys_try_from_spec() -> bool {
        false
    }

    open spec fn try_from_spec(value: String) -> Result<AllowedMethod, Error> {
        vstd::pervasive::arbitrary()
    }
}

impl<'a> TryFrom<&'a String> for AllowedMethod {
    type Error = Error;

    /// As [`AllowedMethod::parse`].
    fn try_from(value: &'a String) -> (parsed: Result<AllowedMethod, Error>)
        ensures
            match parsed {
                Ok(m) => parsed_method(value@) == Some(m),
                Err(e) => {
                    &&& parsed_method(value@) is None
                    &&& e matches Error::Custom(msg) && msg@ == unknown_method_message(value@)
                },
            },
            all_ascii(value@) ==> parsed_method(value@) == method_named(ascii_upper(value@)),
            forall|m: AllowedMethod| #![trigger method_name(m)]
                (value@ == method_name(m) || value@ == ascii_lower(method_name(m)))
                    ==> parsed == Ok::<AllowedMethod, Error>(m),
    {
        AllowedMethod::parse(value.as_str())
    }
}

impl<'a> TryFromSpecImpl<&'a String> for AllowedMethod {
    /// As for an owned `String`.
    open spec fn obeys_try_from_spec() -> bool {
        false
    }

    open spec fn try_from_spec(value: &'a String) -> Result<AllowedMethod, Error> {
        vstd::pervasive::arbitrary()
    }
}

/// The name of every method, in upper case or in lower case, is ASCII and upper-cases to that
/// name again: the spellings `parse` accepts for each method.
pub proof fn lemma_names_parse_back(m: AllowedMethod)
    ensures
        all_ascii(method_name(m)),
        method_named(ascii_upper(method_name(m))) == Some(m),
        all_ascii(ascii_lower(method_name(m))),
        method_named(ascii_upper(ascii_lower(method_name(m)))) == Some(m),
{
    lemma_names_distinct();
    lemma_names_are_upper_letters(m);
    let n = method_name(m);
    assert(ascii_upper(n) =~= n);
    assert(ascii_upper(ascii_lower(n)) =~= n);
}

/// The six names are pairwise different, which is what makes a name pick out one method.
pub proof fn lemma_names_distinct()
    ensures
        forall|a: AllowedMethod, b: AllowedMethod| method_name(a) == method_name(b) ==> a == b,
        forall|a: AllowedMethod| method_named(#[trigger] method_name(a)) == Some(a),
{
    reveal_strlit("ALL");
    reveal_strlit("GET");
    reveal_strlit("POST");
    reveal_strlit("PUT");
    reveal_strlit("PATCH");
    reveal_strlit("DELETE");
    assert("ALL"@ != "GET"@ && "ALL"@ != "POST"@ && "ALL"@ != "PUT"@ && "ALL"@ != "PATCH"@ && "ALL"@ != "DELETE"@) by {
        assert("ALL"@[0] != "GET"@[0]);
        assert("ALL"@[0] != "POST"@[0]);
        assert("ALL"@[0] != "PUT"@[0]);
        assert("ALL"@[0] != "PATCH"@[0]);
        assert("ALL"@[0] != "DELETE"@[0]);
    }
    assert("GET"@ != "POST"@ && "GET"@ != "PUT"@ && "GET"@ != "PATCH"@ && "GET"@ != "DELETE"@) by {
        assert("GET"@[0] != "POST"@[0]);
        assert("GET"@[0] != "PUT"@[0]);
        assert("GET"@[0] != "PATCH"@[0]);
        assert("GET"@[0] != "DELETE"@[0]);
    }
    assert("POST"@ != "PUT"@ && "POST"@ != "PATCH"@ && "POST"@ != "DELETE"@) by {
        assert("POST"@.len() != "PUT"@.len());
        assert("POST"@[1] != "PATCH"@[1]);
        assert("POST"@[0] != "DELETE"@[0]);
    }
    assert("PUT"@ != "PATCH"@ && "PUT"@ != "DELETE"@) by {
        assert("PUT"@.len() != "PATCH"@.len());
        assert("PUT"@[0] != "DELETE"@[0]);
    }
    assert("PATCH"@ != "DELETE"@) by {
        assert("PATCH"@[0] != "DELETE"@[0]);
    }
}

} // verus!
