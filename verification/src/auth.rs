//! Signed-request verification:
//!
//! - exactly one `X-Paykit-Signature` header;
//! - its value is unpadded base64url in canonical spelling: re-encoding the
//!   decoded 64 bytes reproduces the header text;
//! - the ed25519 signature verifies over the raw request body bytes under the
//!   single pinned Lock Server key;
//! - the body is canonical JSON (RFC 8785): re-canonicalizing the parsed value
//!   reproduces the raw bytes;
//! - the body holds exactly the expected fields.

use crate::crypto;
use crate::error::ApiError;
use crate::json;
use crate::json::Json;
use crate::json::JsonModel;
use crate::text;
use crate::wire::InvoiceRequest;
use crate::wire::InvoiceRequestModel;
use crate::wire::StatusRequest;
use crate::wire::StatusRequestModel;
use vstd::prelude::*;

verus! {

pub const SIGNATURE_HEADER: &'static str = "x-paykit-signature";

/// Request headers in the order received, with lower-case names.
#[derive(Clone, Debug)]
pub struct Headers {
    pub entries: Vec<(String, Vec<u8>)>,
}

impl View for Headers {
    type V = Seq<(Seq<char>, Seq<u8>)>;

    open spec fn view(&self) -> Seq<(Seq<char>, Seq<u8>)> {
        Seq::new(self.entries@.len(), |i: int| (self.entries@[i].0@, self.entries@[i].1@))
    }
}

/// The values of all headers of that name, in order.
pub open spec fn header_values(headers: Seq<(Seq<char>, Seq<u8>)>, name: Seq<char>) -> Seq<Seq<u8>>
    decreases headers.len(),
{
    if headers.len() == 0 {
        Seq::empty()
    } else {
        let front = header_values(headers.drop_last(), name);
        if headers.last().0 == name {
            front.push(headers.last().1)
        } else {
            front
        }
    }
}

/// Bytes that may stand in a header read as text.
pub open spec fn is_visible(byte: u8) -> bool {
    32 <= byte < 127 || byte == 9
}

/// The text of a header value, if all of it is visible ASCII.
pub open spec fn value_text(value: Seq<u8>) -> Option<Seq<char>> {
    if forall|i: int| 0 <= i < value.len() ==> is_visible(#[trigger] value[i]) {
        Some(Seq::new(value.len(), |i: int| value[i] as char))
    } else {
        None
    }
}

/// The text of the first header of that name.
pub open spec fn header_text(headers: Seq<(Seq<char>, Seq<u8>)>, name: Seq<char>) -> Option<
    Seq<char>,
> {
    let values = header_values(headers, name);
    if values.len() == 0 {
        None
    } else {
        value_text(values[0])
    }
}

fn read_text(value: &Vec<u8>) -> (text: Option<String>)
    ensures
        text::text_opt(text) == value_text(value@),
{
    let mut text: String = String::new();
    let mut i: usize = 0;
    while i < value.len()
        invariant
            i <= value@.len(),
            text@ == Seq::new(i as nat, |j: int| value@[j] as char),
            forall|j: int| 0 <= j < i ==> is_visible(#[trigger] value@[j]),
        decreases value.len() - i,
    {
        let byte: u8 = value[i];
        if !((byte >= 32 && byte < 127) || byte == 9) {
            assert(!is_visible(value@[i as int]));
            return None;
        }
        text.push(byte as char);
        i = i + 1;
        assert(text@ =~= Seq::new(i as nat, |j: int| value@[j] as char));
    }
    Some(text)
}

impl Headers {
    /// How many headers carry the name, and where the first one stands.
    fn locate(&self, name: &str) -> (found: (usize, usize))
        ensures
            found.0 == header_values(self@, name@).len(),
            found.0 > 0 ==> found.1 < self.entries@.len() && self.entries@[found.1 as int].1@
                == header_values(self@, name@)[0],
    {
        let mut count: usize = 0;
        let mut first: usize = 0;
        let mut i: usize = 0;
        while i < self.entries.len()
            invariant
                i <= self.entries@.len(),
                count <= i,
                count == header_values(self@.take(i as int), name@).len(),
                count > 0 ==> first < i && self.entries@[first as int].1@ == header_values(
                    self@.take(i as int),
                    name@,
                )[0],
            decreases self.entries.len() - i,
        {
            proof {
                assert(self@.take(i as int + 1).drop_last() =~= self@.take(i as int));
                assert(self@.take(i as int + 1).last() == self@[i as int]);
            }
            if text::same_text(&self.entries[i].0, name) {
                if count == 0 {
                    first = i;
                }
                count = count + 1;
            }
            i = i + 1;
        }
        assert(self@.take(i as int) =~= self@);
        (count, first)
    }

    /// The text of the first header of that name.
    pub fn text(&self, name: &str) -> (value: Option<String>)
        ensures
            text::text_opt(value) == header_text(self@, name@),
    {
        let (count, first): (usize, usize) = self.locate(name);
        if count == 0 {
            return None;
        }
        read_text(&self.entries[first].1)
    }

    /// The text of the only header of that name.
    pub fn only_text(&self, name: &str) -> (value: Option<String>)
        ensures
            text::text_opt(value) == (if header_values(self@, name@).len() == 1 {
                header_text(self@, name@)
            } else {
                None
            }),
    {
        let (count, first): (usize, usize) = self.locate(name);
        if count != 1 {
            return None;
        }
        read_text(&self.entries[first].1)
    }
}

/// The pinned ed25519 public key of the Lock Server.
#[derive(Clone, Debug)]
pub struct TrustedKey {
    bytes: [u8; 32],
}

impl View for TrustedKey {
    type V = Seq<u8>;

    closed spec fn view(&self) -> Seq<u8> {
        self.bytes@
    }
}

impl TrustedKey {
    /// The key with these bytes, or what is wrong with them.
    pub fn from_bytes(bytes: [u8; 32]) -> (key: Result<TrustedKey, String>)
        ensures
            match key {
                Ok(key) => crypto::key_fault(bytes@) is None && key@ == bytes@,
                Err(fault) => crypto::key_fault(bytes@) == Some(fault@),
            },
    {
        match crypto::check_key(&bytes) {
            None => Ok(TrustedKey { bytes }),
            Some(fault) => Err(fault),
        }
    }
}

/// Whether a request carries one canonically spelled signature that verifies
/// over its body.
pub open spec fn authentic(
    key: Seq<u8>,
    headers: Seq<(Seq<char>, Seq<u8>)>,
    body: Seq<u8>,
) -> bool {
    &&& header_values(headers, SIGNATURE_HEADER@).len() == 1
    &&& header_text(headers, SIGNATURE_HEADER@) matches Some(encoded)
    &&& crypto::base64url_bytes(encoded) matches Some(signature)
    &&& signature.len() == 64
    &&& crypto::base64url_text(signature) == encoded
    &&& crypto::ed25519_verifies(key, body, signature)
}

/// Accepts a decoded signature of 64 bytes whose canonical spelling is the one
/// received and that verified.
pub fn judge_signature(
    encoded: &str,
    decoded: &Option<Vec<u8>>,
    respelled: &str,
    verified: bool,
) -> (verdict: Result<(), ApiError>)
    ensures
        verdict == (if (crypto::bytes_opt(*decoded) matches Some(signature) && signature.len()
            == 64) && respelled@ == encoded@ && verified {
            Ok::<(), ApiError>(())
        } else {
            Err::<(), ApiError>(ApiError::InvalidSignature)
        }),
{
    match decoded {
        Some(signature) => {
            if signature.len() == 64 && text::same_text(respelled, encoded) && verified {
                Ok(())
            } else {
                Err(ApiError::InvalidSignature)
            }
        },
        None => Err(ApiError::InvalidSignature),
    }
}

pub fn verify_signature(trusted_key: &TrustedKey, headers: &Headers, raw_body: &[u8]) -> (verdict:
    Result<(), ApiError>)
    ensures
        verdict == (if authentic(trusted_key@, headers@, raw_body@) {
            Ok::<(), ApiError>(())
        } else {
            Err::<(), ApiError>(ApiError::InvalidSignature)
        }),
{
    let encoded: String = match headers.only_text(SIGNATURE_HEADER) {
        Some(encoded) => encoded,
        None => return Err(ApiError::InvalidSignature),
    };
    let decoded: Option<Vec<u8>> = crypto::base64url_decode(&encoded);
    let mut respelled: String = String::new();
    let mut verified: bool = false;
    if let Some(signature) = &decoded {
        if signature.len() == 64 {
            respelled = crypto::base64url_encode(signature);
            verified = crypto::ed25519_verify(&trusted_key.bytes, raw_body, signature);
        }
    }
    judge_signature(&encoded, &decoded, &respelled, verified)
}

/// A request body that is read from exactly its own fields.
pub trait StrictBody: View + Sized {
    /// The body that a JSON tree stands for.
    spec fn body_of(tree: JsonModel) -> Option<<Self as View>::V>;

    /// Reads the body from a JSON tree.
    fn from_json(tree: &Json) -> (body: Option<Self>)
        ensures
            match body {
                Some(body) => Self::body_of(tree@) == Some(body@),
                None => Self::body_of(tree@) is None,
            },
    ;
}

/// The texts of the named fields: the members of an object that has no other
/// member, or the elements of a list in the order of the names.
pub open spec fn strict_fields(tree: JsonModel, names: Seq<Seq<char>>) -> Option<Seq<Seq<char>>> {
    match tree {
        JsonModel::Object(members) => if members.len() == names.len() && forall|i: int|
            0 <= i < names.len() ==> json::member_text(tree, #[trigger] names[i]) is Some {
            Some(Seq::new(names.len(), |i: int| json::member_text(tree, names[i])->0))
        } else {
            None
        },
        JsonModel::List(items) => if items.len() == names.len() && forall|i: int|
            0 <= i < items.len() ==> #[trigger] items[i] is Text {
            Some(Seq::new(items.len(), |i: int| items[i]->Text_0))
        } else {
            None
        },
        _ => None,
    }
}

fn read_fields(tree: &Json, names: &Vec<&str>) -> (fields: Option<Vec<String>>)
    ensures
        match fields {
            Some(fields) => strict_fields(
                tree@,
                Seq::new(names@.len(), |i: int| names@[i]@),
            ) == Some(text::texts(fields@)),
            None => strict_fields(tree@, Seq::new(names@.len(), |i: int| names@[i]@)) is None,
        },
{
    let ghost wanted = Seq::new(names@.len(), |i: int| names@[i]@);
    let mut fields: Vec<String> = Vec::new();
    match tree {
        Json::Object(members) => {
            if members.len() != names.len() {
                return None;
            }
            let mut i: usize = 0;
            while i < names.len()
                invariant
                    i <= names@.len(),
                    fields@.len() == i,
                    wanted == Seq::new(names@.len(), |i: int| names@[i]@),
                    tree is Object,
                    forall|j: int|
                        0 <= j < i ==> json::member_text(tree@, #[trigger] wanted[j]) == Some(
                            fields@[j]@,
                        ),
                decreases names.len() - i,
            {
                match tree.get_text(names[i]) {
                    Some(value) => fields.push(value.clone()),
                    None => {
                        assert(json::member_text(tree@, wanted[i as int]) is None);
                        return None;
                    },
                }
                i = i + 1;
            }
            assert(text::texts(fields@) =~= Seq::new(
                wanted.len(),
                |j: int| json::member_text(tree@, wanted[j])->0,
            )) by {
                assert forall|j: int| 0 <= j < wanted.len() implies text::texts(fields@)[j]
                    == json::member_text(tree@, wanted[j])->0 by {
                    assert(json::member_text(tree@, wanted[j]) == Some(fields@[j]@));
                }
            }
            Some(fields)
        },
        Json::List(items) => {
            if items.len() != names.len() {
                return None;
            }
            let ghost all = json::trees(items@);
            assert(tree@ == JsonModel::List(all)) by {
                assert(tree@->List_0 =~= all);
            }
            let mut i: usize = 0;
            while i < items.len()
                invariant
                    i <= items@.len(),
                    fields@.len() == i,
                    all == json::trees(items@),
                    tree@ == JsonModel::List(all),
                    forall|j: int| 0 <= j < i ==> #[trigger] all[j] == JsonModel::Text(fields@[j]@),
                decreases items.len() - i,
            {
                match items[i].as_text() {
                    Some(value) => fields.push(value.clone()),
                    None => {
                        assert(!(all[i as int] is Text));
                        return None;
                    },
                }
                i = i + 1;
            }
            assert(text::texts(fields@) =~= Seq::new(all.len(), |j: int| all[j]->Text_0)) by {
                assert forall|j: int| 0 <= j < all.len() implies text::texts(fields@)[j]
                    == all[j]->Text_0 by {
                    assert(all[j] == JsonModel::Text(fields@[j]@));
                }
            }
            Some(fields)
        },
        _ => None,
    }
}

impl StrictBody for InvoiceRequest {
    open spec fn body_of(tree: JsonModel) -> Option<InvoiceRequestModel> {
        match strict_fields(tree, seq!["bundle_id"@, "lock_resource"@, "reader"@]) {
            Some(fields) => Some(
                InvoiceRequestModel {
                    bundle_id: fields[0],
                    lock_resource: fields[1],
                    reader: fields[2],
                },
            ),
            None => None,
        }
    }

    fn from_json(tree: &Json) -> (body: Option<Self>) {
        let names: Vec<&str> = vec!["bundle_id", "lock_resource", "reader"];
        assert(Seq::new(names@.len(), |i: int| names@[i]@) =~= seq![
            "bundle_id"@,
            "lock_resource"@,
            "reader"@,
        ]);
        match read_fields(tree, &names) {
            Some(fields) => {
                assert(text::texts(fields@).len() == 3);
                Some(
                    InvoiceRequest {
                        bundle_id: fields[0].clone(),
                        lock_resource: fields[1].clone(),
                        reader: fields[2].clone(),
                    },
                )
            },
            None => None,
        }
    }
}

impl StrictBody for StatusRequest {
    open spec fn body_of(tree: JsonModel) -> Option<StatusRequestModel> {
        match strict_fields(tree, seq!["creator"@, "bundle_id"@]) {
            Some(fields) => Some(
                StatusRequestModel { creator: fields[0], bundle_id: fields[1] },
            ),
            None => None,
        }
    }

    fn from_json(tree: &Json) -> (body: Option<Self>) {
        let names: Vec<&str> = vec!["creator", "bundle_id"];
        assert(Seq::new(names@.len(), |i: int| names@[i]@) =~= seq!["creator"@, "bundle_id"@]);
        match read_fields(tree, &names) {
            Some(fields) => {
                assert(text::texts(fields@).len() == 2);
                Some(
                    StatusRequest { creator: fields[0].clone(), bundle_id: fields[1].clone() },
                )
            },
            None => None,
        }
    }
}

/// The body of a request whose raw bytes are canonical JSON with exactly the
/// expected fields.
pub open spec fn strict_body<T: StrictBody>(raw_body: Seq<u8>) -> Option<<T as View>::V> {
    match json::canonical_tree(raw_body) {
        Some(tree) => T::body_of(tree),
        None => None,
    }
}

/// Strict canonical-JSON parse: the raw bytes must already be in RFC 8785
/// canonical form, and the payload type must consume every field.
pub fn parse_canonical_strict<T: StrictBody>(raw_body: &[u8]) -> (parsed: Result<T, ApiError>)
    ensures
        match parsed {
            Ok(body) => strict_body::<T>(raw_body@) == Some(body@),
            Err(error) => strict_body::<T>(raw_body@) is None && error == ApiError::InvalidRequest,
        },
{
    match json::parse_canonical(raw_body) {
        Some(tree) => match T::from_json(&tree) {
            Some(body) => Ok(body),
            None => Err(ApiError::InvalidRequest),
        },
        None => Err(ApiError::InvalidRequest),
    }
}

} // verus!
