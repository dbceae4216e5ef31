//! The client as its callers see it.

use vstd::prelude::*;
use serde_json::Value;
use crate::auth::Auth;
use crate::error::{result_view, text_result_view, HttpError};
use crate::json::{json_result, read_json};

verus! {

/// The operations of the client. A type that implements the trait performs
/// the requests; what each operation makes of the outcome of its request is
/// laid down by the functions of this crate that read outcomes.
///
/// Every address is absolute. An authenticated operation is called with a
/// credential that has a usable token; to call it without one is the caller's
/// fault.
pub trait HttpClient {
    /// Fetches the resource at `url` as a text, with an authenticated GET.
    fn get_as_text(&self, url: &str, auth: &Auth) -> (r: Result<String, HttpError>)
        requires
            auth.can_authenticate(),
    ;

    /// Fetches the resource at `url` as a text and reads it as JSON. The
    /// text is what `get_as_text` returned for this address and this
    /// credential, and the result is what `json_result` gives for it: the
    /// failure of the fetch as it is, the value that the text denotes, or a
    /// failure that names the address.
    fn get_as_json(&self, url: &str, auth: &Auth) -> (r: Result<Value, HttpError>)
        requires
            auth.can_authenticate(),
        default_ensures
            exists|fetched: Result<String, HttpError>|
                #[trigger] call_ensures(Self::get_as_text, (self, url, auth), fetched)
                    && result_view(r) == json_result(url@, text_result_view(fetched)),
    {
        let fetched: Result<String, HttpError> = self.get_as_text(url, auth);
        let ghost witness = fetched;
        let r: Result<Value, HttpError> = read_json(url, fetched);
        assert(call_ensures(Self::get_as_text, (self, url, auth), witness) && result_view(r)
            == json_result(url@, text_result_view(witness)));
        r
    }

    /// Fetches the resource at `url` as bytes, without authentication, and
    /// calls `f` with the cumulative count after each unit of work.
    fn get_as_data<F: FnMut(u64)>(&self, url: &str, f: &mut F) -> (r: Result<Vec<u8>, HttpError>);

    /// Asks for the length in bytes of the resource at `url`, with an
    /// unauthenticated HEAD.
    fn get_content_length(&self, url: &str) -> (r: Result<u64, HttpError>);

    /// Posts `json` to `url`, with an authenticated POST. The operation
    /// succeeds as soon as a response has arrived, whatever its status.
    fn post_json(&self, url: &str, json: &Value, auth: &Auth) -> (r: Result<(), HttpError>)
        requires
            auth.can_authenticate(),
    ;
}

} // verus!
