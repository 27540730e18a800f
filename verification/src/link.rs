//! The feed's reported assignment: an immutable snapshot per poll.

use vstd::prelude::*;
use vstd::string::*;

verus! {

/// Known response types from the feed. Unknown values are captured as
/// `Other`.
#[derive(Debug, PartialEq, Clone)]
pub enum ResponseType {
    Horny,
    Disgust,
    Came,
    Other(String),
}

/// The reaction text a response type carries on the wire.
pub open spec fn spec_kind_text(t: ResponseType) -> Seq<char> {
    match t {
        ResponseType::Horny => "horny"@,
        ResponseType::Disgust => "disgust"@,
        ResponseType::Came => "came"@,
        ResponseType::Other(s) => s@,
    }
}

/// The kind is represented canonically: a known wire text is held by
/// its own variant, never by `Other`.
pub open spec fn spec_kind_canonical(t: ResponseType) -> bool {
    &&& t is Horny <==> spec_kind_text(t) == "horny"@
    &&& t is Disgust <==> spec_kind_text(t) == "disgust"@
    &&& t is Came <==> spec_kind_text(t) == "came"@
}

impl ResponseType {
    /// Decode a wire reaction kind: the three known kinds get their own
    /// variant, anything else is kept as text.
    pub fn from_kind(s: &str) -> (r: Self)
        ensures
            spec_kind_text(r) == s@,
            spec_kind_canonical(r),
    {
        proof {
            reveal_strlit("horny");
            reveal_strlit("disgust");
            reveal_strlit("came");
        }
        let text = s.to_owned();
        if text == String::from_str("horny") {
            ResponseType::Horny
        } else if text == String::from_str("disgust") {
            ResponseType::Disgust
        } else if text == String::from_str("came") {
            ResponseType::Came
        } else {
            ResponseType::Other(text)
        }
    }

    /// The wire text of this response type.
    pub fn kind_string(&self) -> (r: String)
        ensures
            r@ == spec_kind_text(*self),
    {
        match self {
            ResponseType::Horny => String::from_str("horny"),
            ResponseType::Disgust => String::from_str("disgust"),
            ResponseType::Came => String::from_str("came"),
            ResponseType::Other(s) => s.clone(),
        }
    }
}

/// Representation of a link returned by the feed.
#[derive(Debug, PartialEq)]
pub struct Link {
    pub id: i64,
    /// Timestamp text for when the link expires, when the feed gives one.
    pub expires: Option<String>,
    pub username: String,
    pub terms: Option<String>,
    pub blacklist: Option<String>,
    pub post_url: Option<String>,
    pub post_thumbnail_url: Option<String>,
    pub post_description: Option<String>,
    pub created_at: Option<String>,
    pub updated_at: Option<String>,
    pub set_by: Option<String>,
    pub response_type: Option<ResponseType>,
    pub response_text: Option<String>,
    pub online: Option<bool>,
}

} // verus!
