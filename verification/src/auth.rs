//! The credential of an authenticated request.

use vstd::prelude::*;
use vstd::utf8::encode_utf8;
use crate::headers::{is_header_value, is_header_value_text};

verus! {

/// What a login left behind: an access token, if the login succeeded. The
/// client only reads it.
#[derive(Clone, Debug, PartialEq, Eq)]
pub struct Auth {
    /// The bearer token, opaque to the client.
    pub access_token: Option<String>,
}

/// The credential that a request presents for `token`.
pub open spec fn bearer(token: Seq<char>) -> Seq<char> {
    "Bearer "@ + token
}

/// Writes the credential that a request presents for `token`: `Bearer`, a
/// space and the token.
pub fn write_bearer(token: &str) -> (credential: String)
    ensures
        credential@ == bearer(token@),
{
    String::from_str("Bearer ").concat(token)
}

/// The bytes of two texts, one after the other, are the bytes of the texts
/// joined.
pub proof fn lemma_bytes_of_joined(first: Seq<char>, second: Seq<char>)
    ensures
        encode_utf8(first + second) == encode_utf8(first) + encode_utf8(second),
    decreases first.len(),
{
    if first.len() == 0 {
        assert(first + second =~= second);
        assert(encode_utf8(first) + encode_utf8(second) =~= encode_utf8(second));
    } else {
        lemma_bytes_of_joined(first.drop_first(), second);
        assert((first + second).drop_first() =~= first.drop_first() + second);
        assert((first + second)[0] == first[0]);
        assert(encode_utf8(first + second) =~= encode_utf8(first) + encode_utf8(second));
    }
}

/// The credential can stand in a header exactly when the token can.
pub proof fn lemma_bearer_is_value(token: Seq<char>)
    ensures
        is_header_value(encode_utf8(bearer(token))) <==> is_header_value(encode_utf8(token)),
{
    reveal_strlit("Bearer ");
    let word = "Bearer "@;
    vstd::utf8::is_ascii_chars_encode_utf8(word);
    lemma_bytes_of_joined(word, token);
    let head = encode_utf8(word);
    let tail = encode_utf8(token);
    let all = encode_utf8(bearer(token));
    assert(all == head + tail);
    assert(is_header_value(head));
    if is_header_value(tail) {
        assert forall|i: int| 0 <= i < all.len() implies crate::headers::is_value_byte(
            #[trigger] all[i],
        ) by {
            if i >= head.len() {
                assert(all[i] == tail[i - head.len()]);
            } else {
                assert(all[i] == head[i]);
            }
        }
    }
    if is_header_value(all) {
        assert forall|i: int| 0 <= i < tail.len() implies crate::headers::is_value_byte(
            #[trigger] tail[i],
        ) by {
            assert(tail[i] == all[i + head.len()]);
        }
    }
}

impl Auth {
    /// Whether an authenticated request can be made with this credential:
    /// it has a token, and the token can stand in a header.
    pub open spec fn can_authenticate(&self) -> bool {
        self.access_token matches Some(token) && is_header_value(encode_utf8(token@))
    }

    /// Tells whether an authenticated request can be made with this
    /// credential.
    pub fn is_usable(&self) -> (usable: bool)
        ensures
            usable == self.can_authenticate(),
    {
        match &self.access_token {
            Some(token) => is_header_value_text(token.as_str()),
            None => false,
        }
    }
}

} // verus!
