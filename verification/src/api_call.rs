//! Requests to a processor's API as plain values: what is sent where, with
//! which credentials.

use crate::json::Json;
use crate::json::JsonModel;
use crate::text;
use vstd::prelude::*;

verus! {

#[derive(Clone, Copy, Debug, PartialEq, Eq, Structural)]
pub enum Method {
    Get,
    Post,
}

/// How a call authenticates.
#[derive(Debug)]
pub enum Credentials {
    Bearer(String),
    Basic { user: String, password: String },
}

pub enum CredentialsModel {
    Bearer(Seq<char>),
    Basic { user: Seq<char>, password: Seq<char> },
}

impl View for Credentials {
    type V = CredentialsModel;

    open spec fn view(&self) -> CredentialsModel {
        match self {
            Credentials::Bearer(token) => CredentialsModel::Bearer(token@),
            Credentials::Basic { user, password } => CredentialsModel::Basic {
                user: user@,
                password: password@,
            },
        }
    }
}

/// The fields of a webhook verification postback. The event is the JSON text
/// as it was received.
#[derive(Debug)]
pub struct Postback {
    pub auth_algo: String,
    pub cert_url: String,
    pub transmission_id: String,
    pub transmission_sig: String,
    pub transmission_time: String,
    pub webhook_id: String,
    pub webhook_event: String,
}

pub struct PostbackModel {
    pub auth_algo: Seq<char>,
    pub cert_url: Seq<char>,
    pub transmission_id: Seq<char>,
    pub transmission_sig: Seq<char>,
    pub transmission_time: Seq<char>,
    pub webhook_id: Seq<char>,
    pub webhook_event: Seq<char>,
}

impl View for Postback {
    type V = PostbackModel;

    open spec fn view(&self) -> PostbackModel {
        PostbackModel {
            auth_algo: self.auth_algo@,
            cert_url: self.cert_url@,
            transmission_id: self.transmission_id@,
            transmission_sig: self.transmission_sig@,
            transmission_time: self.transmission_time@,
            webhook_id: self.webhook_id@,
            webhook_event: self.webhook_event@,
        }
    }
}

/// What a call sends.
#[derive(Debug)]
pub enum Payload {
    Empty,
    Form(Vec<(String, String)>),
    Document(Json),
    Verification(Postback),
}

pub enum PayloadModel {
    Empty,
    Form(Seq<(Seq<char>, Seq<char>)>),
    Document(JsonModel),
    Verification(PostbackModel),
}

/// The texts of a list of pairs.
pub open spec fn pairs(list: Seq<(String, String)>) -> Seq<(Seq<char>, Seq<char>)> {
    Seq::new(list.len(), |i: int| (list[i].0@, list[i].1@))
}

impl View for Payload {
    type V = PayloadModel;

    open spec fn view(&self) -> PayloadModel {
        match self {
            Payload::Empty => PayloadModel::Empty,
            Payload::Form(fields) => PayloadModel::Form(pairs(fields@)),
            Payload::Document(document) => PayloadModel::Document(document@),
            Payload::Verification(postback) => PayloadModel::Verification(postback@),
        }
    }
}

/// One request to a processor's API.
#[derive(Debug)]
pub struct ApiCall {
    pub method: Method,
    pub url: String,
    pub credentials: Credentials,
    pub headers: Vec<(String, String)>,
    pub payload: Payload,
}

pub struct ApiCallModel {
    pub method: Method,
    pub url: Seq<char>,
    pub credentials: CredentialsModel,
    pub headers: Seq<(Seq<char>, Seq<char>)>,
    pub payload: PayloadModel,
}

impl View for ApiCall {
    type V = ApiCallModel;

    open spec fn view(&self) -> ApiCallModel {
        ApiCallModel {
            method: self.method,
            url: self.url@,
            credentials: self.credentials@,
            headers: pairs(self.headers@),
            payload: self.payload@,
        }
    }
}

/// Appends a pair of texts to a list.
pub fn push_pair(list: &mut Vec<(String, String)>, name: &str, value: &str)
    ensures
        pairs(final(list)@) == pairs(old(list)@).push((name@, value@)),
{
    list.push((name.to_owned(), value.to_owned()));
    assert(pairs(final(list)@) =~= pairs(old(list)@).push((name@, value@)));
}

/// The part of an error body that is kept: its first characters.
pub open spec fn error_excerpt(body: Seq<char>) -> Seq<char> {
    if body.len() <= 2000 {
        body
    } else {
        body.take(2000)
    }
}

/// Whether a status code stands for success.
pub open spec fn is_success(status: u16) -> bool {
    200 <= status < 300
}

/// The first characters of an error body.
pub fn excerpt(body: String) -> (kept: String)
    ensures
        kept@ == error_excerpt(body@),
{
    if body.unicode_len() <= 2000 {
        return body;
    }
    let chars: Vec<char> = text::chars_of(&body);
    let kept: String = text::string_of(&chars, 0, 2000);
    assert(kept@ =~= body@.take(2000));
    kept
}

} // verus!
