//! The headers of an authenticated request.
//!
//! The headers are built in the header map of the `http` crate, as `reqwest`
//! hands it on. Verus sees nothing inside that map: what it holds is named
//! here, and the two calls that build it are trusted to do what the crate's
//! source shows.

use vstd::prelude::*;
use vstd::string::StringSliceAdditionalSpecFns;
use vstd::utf8::encode_utf8;
use reqwest::header::{HeaderMap, HeaderName, HeaderValue};
use crate::auth::{bearer, write_bearer, Auth};

verus! {

/// The header map of the `http` crate.
#[verifier::external_type_specification]
#[verifier::external_body]
#[verifier::reject_recursive_types(T)]
pub struct ExHeaderMap<T>(HeaderMap<T>);

/// The header value of the `http` crate.
#[verifier::external_type_specification]
#[verifier::external_body]
pub struct ExHeaderValue(HeaderValue);

/// What a header map holds: each name that has an entry, with the values
/// stored under it, in the order in which the map yields them.
pub uninterp spec fn header_entries(headers: HeaderMap<HeaderValue>) -> Map<
    Seq<char>,
    Seq<Seq<u8>>,
>;

/// The number of names up to which a header map takes one more.
pub const MAX_HEADER_NAMES: usize = 32768;

/// Whether a header value may hold the byte `b`: a tab, or anything from the
/// space upward but the delete character.
pub open spec fn is_value_byte(b: u8) -> bool {
    b >= 32 && b != 127 || b == 9
}

/// Whether `bytes` can be a header value.
pub open spec fn is_header_value(bytes: Seq<u8>) -> bool {
    forall|i: int| 0 <= i < bytes.len() ==> is_value_byte(#[trigger] bytes[i])
}

/// Whether `c` is a lower-case letter, a digit or a hyphen.
pub open spec fn is_name_char(c: char) -> bool {
    'a' <= c <= 'z' || '0' <= c <= '9' || c == '-'
}

/// Whether `text` is a header name of the plain kind that this client uses:
/// one to 64 lower-case letters, digits and hyphens.
pub open spec fn is_plain_name(text: Seq<char>) -> bool {
    &&& 1 <= text.len() <= 64
    &&& forall|i: int| 0 <= i < text.len() ==> is_name_char(#[trigger] text[i])
}

/// An empty header map. Calls `HeaderMap::new`.
#[verifier::external_body]
fn new_header_map() -> (headers: HeaderMap<HeaderValue>)
    ensures
        header_entries(headers) == (Map::<Seq<char>, Seq<Seq<u8>>>::empty()),
{
    HeaderMap::new()
}

/// Sets the header `name` to `value`. Calls `HeaderName::from_lowercase` on
/// the bytes of `name`, `HeaderValue::from_str` on `value`, and
/// `HeaderMap::insert` with what they return. The first accepts, among
/// others, every name of one to 64 lower-case letters, digits and hyphens,
/// and keeps it as it is given. The second accepts a text if and only if each
/// of its bytes is a tab or at least 32 and not 127, and keeps the bytes as
/// they are. After the third the name has the one value given, whatever it
/// had before, and every other name has what it had; the map refuses a new
/// name once it holds 32768 of them.
#[verifier::external_body]
fn insert_header(headers: &mut HeaderMap<HeaderValue>, name: &str, value: &str)
    requires
        is_plain_name(name@),
        is_header_value(value.spec_bytes()),
        header_entries(*old(headers)).dom().finite(),
        header_entries(*old(headers)).dom().len() < MAX_HEADER_NAMES,
    ensures
        header_entries(*final(headers)) == header_entries(*old(headers)).insert(
            name@,
            seq![value.spec_bytes()],
        ),
{
    headers.insert(
        HeaderName::from_lowercase(name.as_bytes()).unwrap(),
        HeaderValue::from_str(value).unwrap(),
    );
}

/// Tells whether `text` can be a header value.
pub fn is_header_value_text(text: &str) -> (valid: bool)
    ensures
        valid == is_header_value(text.spec_bytes()),
{
    let bytes: &[u8] = text.as_bytes();
    let mut i: usize = 0;
    while i < bytes.len()
        invariant
            i <= bytes.len(),
            bytes@ == text.spec_bytes(),
            forall|j: int| 0 <= j < i ==> is_value_byte(#[trigger] bytes@[j]),
        decreases bytes.len() - i,
    {
        let b: u8 = bytes[i];
        if !(b >= 32 && b != 127 || b == 9) {
            return false;
        }
        i += 1;
    }
    true
}

/// The user agent that every authenticated request names: that of a desktop
/// browser, since the server treats the default of an HTTP library otherwise.
pub const DEFAULT_UA: &'static str =
    "Mozilla/5.0 (Windows NT 6.1; WOW64) AppleWebKit/537.21 (KHTML, like Gecko) Mwendo/1.1.5 Safari/537.21";

/// The name of the standard header that carries the credential.
pub const AUTHORIZATION: &'static str = "authorization";

/// The name of the second header that carries the credential. The server
/// reads one or the other, depending on the endpoint.
pub const X_UDEMY_AUTHORIZATION: &'static str = "x-udemy-authorization";

/// The name of the header that carries the user agent.
pub const USER_AGENT: &'static str = "user-agent";

/// The headers of a request authenticated with `token`: the credential under
/// both of its names, and the fixed user agent.
pub open spec fn auth_headers(token: Seq<char>) -> Map<Seq<char>, Seq<Seq<u8>>> {
    Map::empty().insert(AUTHORIZATION@, seq![encode_utf8(bearer(token))]).insert(
        X_UDEMY_AUTHORIZATION@,
        seq![encode_utf8(bearer(token))],
    ).insert(USER_AGENT@, seq![encode_utf8(DEFAULT_UA@)])
}

/// Builds the headers of an authenticated request. A credential without a
/// token, or with one that cannot stand in a header, is the caller's fault:
/// no request may go out without the credential.
pub fn construct_headers(auth: &Auth) -> (headers: HeaderMap<HeaderValue>)
    requires
        auth.can_authenticate(),
    ensures
        header_entries(headers) == auth_headers(auth.access_token->0@),
{
    let token: &String = auth.access_token.as_ref().unwrap();
    let credential: String = write_bearer(token.as_str());
    let mut headers: HeaderMap<HeaderValue> = new_header_map();
    proof {
        lemma_names_are_plain();
        lemma_user_agent_is_value();
        crate::auth::lemma_bearer_is_value(token@);
    }
    insert_header(&mut headers, AUTHORIZATION, credential.as_str());
    insert_header(&mut headers, X_UDEMY_AUTHORIZATION, credential.as_str());
    insert_header(&mut headers, USER_AGENT, DEFAULT_UA);
    headers
}

/// The three names that the client sets are plain names.
pub proof fn lemma_names_are_plain()
    ensures
        is_plain_name(AUTHORIZATION@),
        is_plain_name(X_UDEMY_AUTHORIZATION@),
        is_plain_name(USER_AGENT@),
        AUTHORIZATION@ != X_UDEMY_AUTHORIZATION@,
        AUTHORIZATION@ != USER_AGENT@,
        X_UDEMY_AUTHORIZATION@ != USER_AGENT@,
{
    reveal_strlit("authorization");
    reveal_strlit("x-udemy-authorization");
    reveal_strlit("user-agent");
}

/// The fixed user agent can stand in a header.
pub proof fn lemma_user_agent_is_value()
    ensures
        is_header_value(encode_utf8(DEFAULT_UA@)),
{
    reveal_strlit(
        "Mozilla/5.0 (Windows NT 6.1; WOW64) AppleWebKit/537.21 (KHTML, like Gecko) Mwendo/1.1.5 Safari/537.21",
    );
    vstd::utf8::is_ascii_chars_encode_utf8(DEFAULT_UA@);
}

/// What the headers of an authenticated request hold: exactly three names;
/// under both credential names one and the same value, the credential of the
/// token; and the fixed user agent, whatever the token.
pub proof fn lemma_auth_headers(token: Seq<char>)
    ensures
        auth_headers(token).dom() =~= set![AUTHORIZATION@, X_UDEMY_AUTHORIZATION@, USER_AGENT@],
        auth_headers(token)[AUTHORIZATION@] == seq![encode_utf8(bearer(token))],
        auth_headers(token)[X_UDEMY_AUTHORIZATION@] == auth_headers(token)[AUTHORIZATION@],
        auth_headers(token)[USER_AGENT@] == seq![encode_utf8(DEFAULT_UA@)],
{
    lemma_names_are_plain();
}

/// The headers depend on the token alone: two credentials with the same
/// token give the same headers, call after call.
pub proof fn lemma_headers_deterministic(first: Auth, second: Auth)
    requires
        first.access_token matches Some(a) && second.access_token matches Some(b) && a@ == b@,
    ensures
        auth_headers(first.access_token->0@) == auth_headers(second.access_token->0@),
{
}

} // verus!
