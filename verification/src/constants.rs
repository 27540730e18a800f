//! Builders for the feed API endpoints: link state, link responses and
//! user lookup, all rooted at one fixed base.

use crate::text::{i64_text, spec_i64_text};
use vstd::prelude::*;
use vstd::string::*;

verus! {

/// The base of every feed API endpoint.
pub open spec fn spec_base_url() -> Seq<char> {
    "https://walltaker.joi.how/api/"@
}

/// The endpoint serving the state of one link.
pub open spec fn spec_link_url(id: Seq<char>) -> Seq<char> {
    spec_base_url() + "links/"@ + id + ".json"@
}

/// The endpoint taking responses for one link.
pub open spec fn spec_response_url(id: Seq<char>) -> Seq<char> {
    spec_base_url() + "links/"@ + id + "/response.json"@
}

/// The endpoint serving one user, with a key.
pub open spec fn spec_user_url(username: Seq<char>, api_key: Seq<char>) -> Seq<char> {
    spec_base_url() + "users/"@ + username + ".json?api_key="@ + api_key
}

/// The endpoint serving one user, without a key.
pub open spec fn spec_user_url_bare(username: Seq<char>) -> Seq<char> {
    spec_base_url() + "users/"@ + username + ".json"@
}

/// Construct the full URL for a link JSON by id.
pub fn link_url(id: &str) -> (r: String)
    ensures
        r@ == spec_link_url(id@),
{
    let mut out = String::from_str("https://walltaker.joi.how/api/");
    out.append("links/");
    out.append(id);
    out.append(".json");
    proof {
        assert(out@ =~= spec_link_url(id@));
    }
    out
}

/// Construct the full URL for a link JSON by numeric id.
pub fn link_url_id(id: i64) -> (r: String)
    ensures
        r@ == spec_link_url(spec_i64_text(id as int)),
{
    let text = i64_text(id);
    link_url(text.as_str())
}

/// Construct the URL for the responses of a link id.
pub fn response_url(id: &str) -> (r: String)
    ensures
        r@ == spec_response_url(id@),
{
    let mut out = String::from_str("https://walltaker.joi.how/api/");
    out.append("links/");
    out.append(id);
    out.append("/response.json");
    proof {
        assert(out@ =~= spec_response_url(id@));
    }
    out
}

/// Construct the URL for the responses of a numeric link id.
pub fn response_url_id(id: i64) -> (r: String)
    ensures
        r@ == spec_response_url(spec_i64_text(id as int)),
{
    let text = i64_text(id);
    response_url(text.as_str())
}

/// Construct the URL for a user with an API key.
pub fn user_url(username: &str, api_key: &str) -> (r: String)
    ensures
        r@ == spec_user_url(username@, api_key@),
{
    let mut out = String::from_str("https://walltaker.joi.how/api/");
    out.append("users/");
    out.append(username);
    out.append(".json?api_key=");
    out.append(api_key);
    proof {
        assert(out@ =~= spec_user_url(username@, api_key@));
    }
    out
}

/// Construct the URL for a user, allowing an optional API key.
pub fn user_url_opt(username: &str, api_key: Option<&str>) -> (r: String)
    ensures
        match api_key {
            Some(k) => r@ == spec_user_url(username@, k@),
            None => r@ == spec_user_url_bare(username@),
        },
{
    match api_key {
        Some(k) => user_url(username, k),
        None => {
            let mut out = String::from_str("https://walltaker.joi.how/api/");
            out.append("users/");
            out.append(username);
            out.append(".json");
            proof {
                assert(out@ =~= spec_user_url_bare(username@));
            }
            out
        },
    }
}

} // verus!
