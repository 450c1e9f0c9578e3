//! Transparent pass-through to the Paykit Server. The raw body and the
//! signature header go on as they came: the signature covers only the body, and
//! the Paykit Server trusts the Lock Server's key, so the gateway needs no key
//! of its own on this path.

use crate::error::ApiError;
use crate::text;
use crate::web_url;
use crate::web_url::UrlModel;
use crate::web_url::WebUrl;
use vstd::prelude::*;

verus! {

pub struct PaykitProxy {
    server_url: WebUrl,
}

/// What the Paykit Server answered.
#[derive(Debug)]
pub struct Answer {
    pub status: u16,
    pub content_type: Option<String>,
    pub body: Vec<u8>,
}

/// What the caller is answered.
#[derive(Debug)]
pub enum Mirrored {
    Answer { status: u16, content_type: String, body: Vec<u8> },
    Fault(ApiError),
}

impl PaykitProxy {
    #[verifier::type_invariant]
    spec fn reachable(self) -> bool {
        self.server_url.is_http() && web_url::url_text(self.server_url.model()).len()
            <= web_url::TEXT_LIMIT
    }

    /// The URL of the Paykit Server.
    pub closed spec fn server(self) -> UrlModel {
        self.server_url.model()
    }

    pub fn new(server_url: WebUrl) -> (proxy: Self)
        requires
            server_url.is_http(),
            web_url::url_text(server_url.model()).len() <= web_url::TEXT_LIMIT,
        ensures
            proxy.server() == server_url.model(),
    {
        PaykitProxy { server_url }
    }

    /// The URL that a call to `path` goes to: the segments of the path are
    /// appended to the server's own path, and the server's query and fragment
    /// are left out.
    pub fn endpoint(&self, path: &str) -> (url: String)
        requires
            path@.len() < web_url::TEXT_LIMIT,
        ensures
            url@ == web_url::url_text(
                web_url::parts_below(self.server(), text::split_all(path@, '/')),
            ),
            web_url::all_plain(text::split_all(path@, '/')) ==> url@ == self.server().front
                + web_url::slash_joined(
                web_url::without_last_slash(self.server().path),
                text::split_all(path@, '/'),
            ),
    {
        proof {
            use_type_invariant(self);
            text::lemma_split_all_extent(path@, '/');
        }
        let segments: Vec<String> = text::split_at_each(path, '/');
        self.server_url.below(&segments)
    }
}

/// Mirrors an answer: status, content type and body as they are, with JSON as
/// the content type of an answer that names none.
pub fn mirror(answer: Option<Answer>) -> (mirrored: Mirrored)
    ensures
        match (answer, mirrored) {
            (Some(answer), Mirrored::Answer { status, content_type, body }) => {
                &&& status == answer.status
                &&& content_type@ == (match answer.content_type {
                    Some(value) => value@,
                    None => "application/json"@,
                })
                &&& body@ == answer.body@
            },
            (None, Mirrored::Fault(error)) => error == ApiError::Unavailable,
            _ => false,
        },
{
    match answer {
        Some(answer) => {
            let content_type: String = match answer.content_type {
                Some(value) => value,
                None => "application/json".to_owned(),
            };
            Mirrored::Answer { status: answer.status, content_type, body: answer.body }
        },
        None => Mirrored::Fault(ApiError::Unavailable),
    }
}

} // verus!
