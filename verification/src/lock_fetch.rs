//! Content-lock retrieval and criterion extraction.

use crate::decimal;
use crate::json;
use crate::json::Json;
use crate::json::JsonModel;
use crate::money;
use vstd::prelude::*;

verus! {

#[derive(Clone, Copy, Debug, PartialEq, Eq, Structural)]
pub enum LockFetchError {
    NotFound,
    Unavailable,
    Invalid,
}

/// The payment criterion of a content lock, as authored at lock creation.
#[derive(Clone, Debug, PartialEq, Eq)]
pub struct LockCriterion {
    pub asset: String,
    /// Positive decimal integer string in the asset's minor units.
    pub amount: String,
    pub recipient_pubky: String,
}

pub struct LockCriterionModel {
    pub asset: Seq<char>,
    pub amount: Seq<char>,
    pub recipient_pubky: Seq<char>,
}

impl View for LockCriterion {
    type V = LockCriterionModel;

    open spec fn view(&self) -> LockCriterionModel {
        LockCriterionModel {
            asset: self.asset@,
            amount: self.amount@,
            recipient_pubky: self.recipient_pubky@,
        }
    }
}

/// The first criterion of the payment verifier.
pub open spec fn payment_criterion(criteria: Seq<JsonModel>) -> Option<JsonModel>
    decreases criteria.len(),
{
    if criteria.len() == 0 {
        None
    } else if json::member_text(criteria[0], "verifier_type"@) == Some("paykit-payment"@) {
        Some(criteria[0])
    } else {
        payment_criterion(criteria.skip(1))
    }
}

/// Whether a text is a positive decimal integer: digits that are not all zero.
pub open spec fn is_positive(amount: Seq<char>) -> bool {
    decimal::all_digits(amount) && exists|i: int| 0 <= i < amount.len() && amount[i] != '0'
}

/// The criterion that the parameters spell: a non-empty asset, a positive
/// decimal integer as the amount, a non-empty recipient.
pub open spec fn criterion_params(params: JsonModel) -> Option<LockCriterionModel> {
    match (
        json::member_text(params, "asset"@),
        json::member_text(params, "amount"@),
        json::member_text(params, "recipient_pubky"@),
    ) {
        (Some(asset), Some(amount), Some(recipient_pubky)) => if asset.len() > 0 && is_positive(
            amount,
        ) && recipient_pubky.len() > 0 {
            Some(LockCriterionModel { asset, amount, recipient_pubky })
        } else {
            None
        },
        _ => None,
    }
}

/// The payment criterion of a lock document.
pub open spec fn lock_criterion(lock: JsonModel) -> Option<LockCriterionModel> {
    match json::member(lock, "criteria"@) {
        Some(JsonModel::List(criteria)) => match payment_criterion(criteria) {
            Some(criterion) => match json::member(criterion, "params"@) {
                Some(params) => criterion_params(params),
                None => None,
            },
            None => None,
        },
        _ => None,
    }
}

fn find_payment(criteria: &Vec<Json>) -> (found: Option<&Json>)
    ensures
        json::tree_opt(found) == payment_criterion(json::trees(criteria@)),
{
    let ghost all = json::trees(criteria@);
    let mut i: usize = 0;
    assert(all.skip(0) =~= all);
    while i < criteria.len()
        invariant
            i <= criteria@.len(),
            all == json::trees(criteria@),
            payment_criterion(all) == payment_criterion(all.skip(i as int)),
        decreases criteria.len() - i,
    {
        assert(all.skip(i as int)[0] == criteria@[i as int]@);
        if let Some(kind) = criteria[i].get_text("verifier_type") {
            if crate::text::same_text(kind, "paykit-payment") {
                return Some(&criteria[i]);
            }
        }
        assert(all.skip(i as int).skip(1) =~= all.skip(i as int + 1));
        i = i + 1;
    }
    None
}

fn read_params(params: &Json) -> (criterion: Option<LockCriterion>)
    ensures
        match criterion {
            Some(criterion) => criterion_params(params@) == Some(criterion@),
            None => criterion_params(params@) is None,
        },
{
    match (
        params.get_text("asset"),
        params.get_text("amount"),
        params.get_text("recipient_pubky"),
    ) {
        (Some(asset), Some(amount), Some(recipient)) => {
            if asset.as_str().unicode_len() == 0 || !decimal::only_digits(amount)
                || money::all_zeros(amount) || recipient.as_str().unicode_len() == 0 {
                return None;
            }
            Some(
                LockCriterion {
                    asset: asset.clone(),
                    amount: amount.clone(),
                    recipient_pubky: recipient.clone(),
                },
            )
        },
        _ => None,
    }
}

/// Extracts the payment criterion from a parsed lock document.
pub fn extract_criterion(lock: &Json) -> (criterion: Result<LockCriterion, LockFetchError>)
    ensures
        match criterion {
            Ok(criterion) => lock_criterion(lock@) == Some(criterion@),
            Err(error) => lock_criterion(lock@) is None && error == LockFetchError::Invalid,
        },
{
    let criteria: &Vec<Json> = match lock.get("criteria") {
        Some(Json::List(criteria)) => criteria,
        _ => return Err(LockFetchError::Invalid),
    };
    proof {
        let list = Json::List(*criteria);
        assert(list@->List_0 =~= json::trees(criteria@));
        assert(json::member(lock@, "criteria"@) == Some(
            JsonModel::List(json::trees(criteria@)),
        ));
    }
    let criterion: &Json = match find_payment(criteria) {
        Some(criterion) => criterion,
        None => return Err(LockFetchError::Invalid),
    };
    let params: &Json = match criterion.get("params") {
        Some(params) => params,
        None => return Err(LockFetchError::Invalid),
    };
    match read_params(params) {
        Some(criterion) => Ok(criterion),
        None => Err(LockFetchError::Invalid),
    }
}

/// The payment criterion of a raw lock document.
pub open spec fn document_criterion(document: Seq<u8>) -> Option<LockCriterionModel> {
    match json::parsed_json(document) {
        Some(lock) => lock_criterion(lock),
        None => None,
    }
}

/// Extracts the payment criterion from a raw content-lock document.
pub fn parse_criterion(document: &[u8]) -> (criterion: Result<LockCriterion, LockFetchError>)
    ensures
        match criterion {
            Ok(criterion) => document_criterion(document@) == Some(criterion@),
            Err(error) => document_criterion(document@) is None && error == LockFetchError::Invalid,
        },
{
    match json::parse_json(document) {
        Some(lock) => extract_criterion(&lock),
        None => Err(LockFetchError::Invalid),
    }
}

/// What a failed read of a lock means, given the status that the homeserver
/// answered with, if it answered.
pub fn fetch_failure(status: Option<u16>) -> (error: LockFetchError)
    ensures
        error == (if status == Some(404u16) {
            LockFetchError::NotFound
        } else {
            LockFetchError::Unavailable
        }),
{
    match status {
        Some(code) => if code == 404 {
            LockFetchError::NotFound
        } else {
            LockFetchError::Unavailable
        },
        None => LockFetchError::Unavailable,
    }
}

/// Appends a received chunk, unless the document would exceed `max_bytes`.
pub fn append_chunk(document: &mut Vec<u8>, chunk: &[u8], max_bytes: u64) -> (kept: Result<
    (),
    LockFetchError,
>)
    ensures
        kept is Ok <==> old(document)@.len() + chunk@.len() <= max_bytes,
        kept is Ok ==> final(document)@ == old(document)@ + chunk@,
        kept matches Err(error) ==> error == LockFetchError::Invalid && final(document)@ == old(
            document,
        )@,
{
    if document.len() as u128 + chunk.len() as u128 > max_bytes as u128 {
        return Err(LockFetchError::Invalid);
    }
    document.extend_from_slice(chunk);
    assert(final(document)@ =~= old(document)@ + chunk@);
    Ok(())
}

} // verus!
