use crate::filter::{Filter, FilterValue};
use crate::reply::{Reply, Status, found_reply};
use vstd::prelude::*;
use vstd::string::*;

verus! {

/// The contracts endpoint.
pub struct Contracts {}

/// The filter of the contracts listing: the contracts whose import is done.
pub fn contracts_filter() -> (f: Filter)
    ensures
        f@ == seq![("done"@, FilterValue::Bool(true))],
{
    Filter::single(String::from_str("done"), FilterValue::Bool(true))
}

/// The filter that finds the record of the contract with id `contract_id`.
pub fn contract_lookup_filter(contract_id: String) -> (f: Filter)
    ensures
        f@ == seq![("id"@, FilterValue::Str(contract_id))],
{
    Filter::single(String::from_str("id"), FilterValue::Str(contract_id))
}

/// The answer to the contracts listing: the contracts found; when the
/// listing failed, no body, still with `Success`.
pub fn contracts_reply<T>(found: Option<Vec<T>>) -> (r: Reply<Vec<T>>)
    ensures
        r == found_reply(found, Status::Success),
{
    Reply::found(found, Status::Success)
}

} // verus!
