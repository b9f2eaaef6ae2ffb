//! The address of the remote endpoint and of each of its methods.

use vstd::prelude::*;
use vstd::utf8::encode_utf8;
use url::ParseError;
use crate::error::UrlError;

verus! {

/// Prefix of every endpoint address; the token follows it directly.
pub const API_URL: &'static str = "https://api.telegram.org/bot";

/// The longest address, in bytes, that the URL parser can hold.
pub const ADDRESS_LIMIT: usize = 0xFFFF_FFFF;

/// What `url::Url::parse` makes of the text: the serialization of the URL
/// that it parses to, or the reason why the text is no absolute URL.
pub uninterp spec fn url_parse(input: Seq<char>) -> Result<Seq<char>, UrlError>;

/// The serialization of the URL that `base` parses to, after its last path
/// segment was replaced by `segment`.
pub uninterp spec fn url_with_last_segment(base: Seq<char>, segment: Seq<char>) -> Seq<char>;

/// Whether the text parses as an absolute URL.
pub open spec fn url_parses(input: Seq<char>) -> bool {
    url_parse(input) is Ok
}

/// The number of bytes that the text takes.
pub open spec fn byte_len(text: Seq<char>) -> nat {
    encode_utf8(text).len()
}

/// Whether an address of so many bytes can take the method's name as a path
/// segment: the separator and the name, each of whose bytes may be escaped to
/// three, must fit beside it within the parser's limit.
pub open spec fn has_room(address_bytes: nat, method: Seq<char>) -> bool {
    address_bytes + 3 * byte_len(method) + 1 <= ADDRESS_LIMIT
}

/// What a parse gave, with the text of the serialization as a sequence.
pub open spec fn outcome(r: Result<String, UrlError>) -> Result<Seq<char>, UrlError> {
    match r {
        Ok(s) => Ok(s@),
        Err(e) => Err(e),
    }
}

/// Calls `url::Url::parse` and hands back the serialization of the URL
/// (`Url::into_string`), or the parser's error, variant for variant.
#[verifier::external_body]
pub(crate) fn parse_url(input: &str) -> (r: Result<String, UrlError>)
    ensures
        outcome(r) == url_parse(input@),
{
    match url::Url::parse(input) {
        Ok(url) => Ok(url.into_string()),
        Err(ParseError::EmptyHost) => Err(UrlError::EmptyHost),
        Err(ParseError::IdnaError) => Err(UrlError::IdnaError),
        Err(ParseError::InvalidPort) => Err(UrlError::InvalidPort),
        Err(ParseError::InvalidIpv4Address) => Err(UrlError::InvalidIpv4Address),
        Err(ParseError::InvalidIpv6Address) => Err(UrlError::InvalidIpv6Address),
        Err(ParseError::InvalidDomainCharacter) => Err(UrlError::InvalidDomainCharacter),
        Err(ParseError::RelativeUrlWithoutBase) => Err(UrlError::RelativeUrlWithoutBase),
        Err(ParseError::RelativeUrlWithCannotBeABaseBase) => Err(UrlError::RelativeUrlWithCannotBeABaseBase),
        Err(ParseError::SetHostOnCannotBeABaseUrl) => Err(UrlError::SetHostOnCannotBeABaseUrl),
        Err(ParseError::Overflow) => Err(UrlError::Overflow),
    }
}

/// Parses `base` with `url::Url::parse`, then replaces the last segment of its
/// path through `path_segments_mut().pop().push(segment)` (a URL that cannot
/// be a base is left as it is) and returns the serialization. `None` exactly
/// where `base` does not parse. The crate fails where the address outgrows
/// its limit; the new segment adds the separator and at most three bytes for
/// each of its own.
#[verifier::external_body]
fn replace_last_segment(base: &str, segment: &str) -> (r: Option<String>)
    requires
        url_parse(base@) matches Ok(s) ==> has_room(byte_len(s), segment@),
    ensures
        r is Some <==> url_parses(base@),
        r matches Some(s) ==> s@ == url_with_last_segment(base@, segment@),
{
    match url::Url::parse(base) {
        Ok(mut url) => {
            if let Ok(mut segments) = url.path_segments_mut() {
                segments.pop().push(segment);
            }
            Some(url.into_string())
        },
        Err(_) => None,
    }
}

/// The text of an address that is known to parse as an absolute URL, with
/// the length of its canonical form.
pub struct Endpoint {
    text: String,
    length: usize,
}

impl Endpoint {
    #[verifier::type_invariant]
    spec fn parses(self) -> bool {
        url_parse(self.text@) matches Ok(s) && self.length == byte_len(s)
    }

    /// The address as it was given.
    pub closed spec fn view(&self) -> Seq<char> {
        self.text@
    }

    /// The number of bytes of the address in canonical form.
    pub closed spec fn canonical_bytes(&self) -> nat {
        self.length as nat
    }

    /// Whether the address of `method` can be built from this one.
    pub open spec fn room_for(&self, method: Seq<char>) -> bool {
        has_room(self.canonical_bytes(), method)
    }

    /// Accepts `text` as an endpoint exactly if it parses as an absolute URL,
    /// and else gives the parser's reason.
    pub fn parse(text: String) -> (r: Result<Endpoint, UrlError>)
        ensures
            r is Ok <==> url_parses(text@),
            r matches Ok(e) ==> {
                &&& e@ == text@
                &&& url_parse(text@) matches Ok(s) && e.canonical_bytes() == byte_len(s)
            },
            r matches Err(why) ==> (url_parse(text@) matches Err(e) && e == why),
    {
        match parse_url(text.as_str()) {
            Ok(canonical) => {
                let length: usize = canonical.as_str().as_bytes().len();
                Ok(Endpoint { text, length })
            },
            Err(e) => Err(e),
        }
    }

    /// The address as it was given.
    pub fn as_str(&self) -> (r: &str)
        ensures
            r@ == self@,
    {
        self.text.as_str()
    }

    /// Whether the address of `method` can be built from this one.
    pub fn has_room_for(&self, method: &str) -> (r: bool)
        ensures
            r == self.room_for(method@),
    {
        let name: usize = method.as_bytes().len();
        if self.length >= ADDRESS_LIMIT {
            false
        } else {
            name <= (ADDRESS_LIMIT - 1 - self.length) / 3
        }
    }

    /// The address of one method: this address with its last path segment
    /// replaced by the method's name.
    pub fn method_url(&self, method: &str) -> (r: String)
        requires
            self.room_for(method@),
        ensures
            r@ == url_with_last_segment(self@, method@),
    {
        proof {
            use_type_invariant(self);
        }
        match replace_last_segment(self.text.as_str(), method) {
            Some(s) => s,
            None => vstd::pervasive::unreached(),
        }
    }

    /// The address of one method, or nothing where it would outgrow what
    /// the parser can hold.
    pub fn try_method_url(&self, method: &str) -> (r: Option<String>)
        ensures
            r is Some <==> self.room_for(method@),
            r matches Some(s) ==> s@ == url_with_last_segment(self@, method@),
    {
        if self.has_room_for(method) {
            Some(self.method_url(method))
        } else {
            None
        }
    }
}

impl Clone for Endpoint {
    /// A second endpoint with the same address.
    fn clone(&self) -> (r: Endpoint)
        ensures
            r@ == self@,
            r.canonical_bytes() == self.canonical_bytes(),
    {
        proof {
            use_type_invariant(self);
        }
        Endpoint { text: self.text.clone(), length: self.length }
    }
}

} // verus!
