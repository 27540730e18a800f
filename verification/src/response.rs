//! A reaction posted back to the feed, built once per accepted user
//! action, sent once, then discarded.

use vstd::prelude::*;

verus! {

/// A reaction response: the credential, the reaction kind on the wire,
/// and free text.
#[derive(Debug, PartialEq)]
pub struct Response {
    pub api_key: String,
    pub kind: String,
    pub text: String,
}

impl Response {
    pub fn new(api_key: String, kind: String, text: String) -> (r: Self)
        ensures
            r.api_key == api_key,
            r.kind == kind,
            r.text == text,
    {
        Response { api_key, kind, text }
    }
}

} // verus!
