use crate::filter::{Filter, FilterValue, RecordId};
use crate::reply::{Reply, Status, found_reply};
use vstd::prelude::*;
use vstd::string::*;

verus! {

/// The owners endpoints.
pub struct Owners {}

/// The filter that finds the owner with address `address`.
pub fn owner_filter(address: String) -> (f: Filter)
    ensures
        f@ == seq![("address"@, FilterValue::Str(address))],
{
    Filter::single(String::from_str("address"), FilterValue::Str(address))
}

/// The filter of the tokens held by the owner record `owner`.
pub fn owner_nfts_filter(owner: RecordId) -> (f: Filter)
    ensures
        f@ == seq![("owner"@, FilterValue::Id(owner))],
{
    Filter::single(String::from_str("owner"), FilterValue::Id(owner))
}

/// The answer to an owner lookup: the owner, or `NotFound`.
pub fn owner_reply<T>(owner: Option<T>) -> (r: Reply<T>)
    ensures
        r == found_reply(owner, Status::NotFound),
{
    Reply::found(owner, Status::NotFound)
}

/// The answer to a listing of the tokens of an owner who was not found:
/// no body, `NotFound`.
pub fn owner_nfts_unknown_owner_reply<T>() -> (r: Reply<Vec<T>>)
    ensures
        r == found_reply(None::<Vec<T>>, Status::NotFound),
{
    Reply::refuse(Status::NotFound)
}

/// The answer to a listing of an owner's tokens: the tokens found, or
/// `NotFound` when the listing failed.
pub fn owner_nfts_reply<T>(found: Option<Vec<T>>) -> (r: Reply<Vec<T>>)
    ensures
        r == found_reply(found, Status::NotFound),
{
    Reply::found(found, Status::NotFound)
}

} // verus!
