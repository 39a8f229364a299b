//! The API key.

use vstd::prelude::*;

use crate::error::ApiError;
use crate::text::chars::str_eq;
use crate::text::edit::eq_ignore_ascii_case;
use crate::text::edit;

verus! {

/// A header of a request. The value is absent where it is no visible ASCII
/// text.
pub struct Header {
    pub name: String,
    pub value: Option<String>,
}

/// The headers of a request, in order.
pub struct Headers {
    pub entries: Vec<Header>,
}

/// The text of the first header called `name`, which is written in small
/// letters. Names are compared without regard to case.
pub open spec fn header_value(entries: Seq<Header>, name: Seq<char>) -> Option<Seq<char>>
    decreases entries.len(),
{
    if entries.len() == 0 {
        None
    } else if edit::eq_ignore_case(entries[0].name@, name) {
        match entries[0].value {
            Some(v) => Some(v@),
            None => None,
        }
    } else {
        header_value(entries.subrange(1, entries.len() as int), name)
    }
}

impl Headers {
    /// The text of the first header called `name`.
    pub open spec fn text_of(&self, name: Seq<char>) -> Option<Seq<char>> {
        header_value(self.entries@, name)
    }

    /// No headers.
    pub fn new() -> (r: Headers)
        ensures
            r.entries@.len() == 0,
    {
        Headers { entries: Vec::new() }
    }

    /// Adds a header with a text.
    pub fn push(&mut self, name: &str, value: &str)
        ensures
            final(self).entries@.len() == old(self).entries@.len() + 1,
            final(self).entries@.drop_last() == old(self).entries@,
            final(self).entries@.last().name@ == name@,
            final(self).entries@.last().value is Some,
            final(self).entries@.last().value->0@ == value@,
    {
        self.entries.push(Header { name: name.to_owned(), value: Some(value.to_owned()) });
        assert(self.entries@.drop_last() =~= old(self).entries@);
    }

    /// The text of the first header called `name`.
    pub fn get(&self, name: &str) -> (r: Option<&String>)
        ensures
            r is Some <==> self.text_of(name@) is Some,
            r matches Some(v) ==> self.text_of(name@) == Some(v@),
    {
        let mut i: usize = 0;
        let n = self.entries.len();
        assert(self.entries@.subrange(0, n as int) =~= self.entries@);
        while i < n
            invariant
                n == self.entries@.len(),
                i <= n,
                self.text_of(name@) == header_value(self.entries@.subrange(i as int, n as int), name@),
            decreases n - i,
        {
            let ghost rest = self.entries@.subrange(i as int, n as int);
            assert(rest[0] == self.entries@[i as int]);
            if eq_ignore_ascii_case(self.entries[i].name.as_str(), name) {
                return match &self.entries[i].value {
                    Some(v) => Some(v),
                    None => None,
                };
            }
            assert(rest.subrange(1, rest.len() as int) =~= self.entries@.subrange(i + 1, n as int));
            i = i + 1;
        }
        None
    }
}

/// The proof that a request carried the API key.
#[derive(Clone, Debug)]
pub struct RequireApiKey;

/// Whether a request carried the API key.
#[derive(Clone, Debug)]
pub struct OptionalApiKey {
    pub authenticated: bool,
}

/// Lets a request through exactly where its `x-api-key` header is the
/// expected key.
pub fn verify_api_key(headers: &Headers, expected_key: &str) -> (r: Result<RequireApiKey, ApiError>)
    ensures
        r is Ok <==> headers.text_of("x-api-key"@) == Some(expected_key@),
        r is Err ==> r->Err_0 is Unauthorized,
{
    match headers.get("x-api-key") {
        Some(key) => if str_eq(key.as_str(), expected_key) {
            Ok(RequireApiKey)
        } else {
            Err(ApiError::unauthorized())
        },
        None => Err(ApiError::unauthorized()),
    }
}

/// Lets a request without the header through as not authenticated; a header
/// with another key is refused.
pub fn optional_api_key(headers: &Headers, expected_key: &str) -> (r: Result<
    OptionalApiKey,
    ApiError,
>)
    ensures
        match headers.text_of("x-api-key"@) {
            Some(key) => if key == expected_key@ {
                r is Ok && r->Ok_0.authenticated
            } else {
                r is Err && r->Err_0 is Unauthorized
            },
            None => r is Ok && !r->Ok_0.authenticated,
        },
{
    match headers.get("x-api-key") {
        Some(key) => if str_eq(key.as_str(), expected_key) {
            Ok(OptionalApiKey { authenticated: true })
        } else {
            Err(ApiError::unauthorized())
        },
        None => Ok(OptionalApiKey { authenticated: false }),
    }
}

} // verus!
