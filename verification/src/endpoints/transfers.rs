use crate::filter::{
    Condition, Filter, FilterValue, RecordId, has_field, id_value, int_value,
    lemma_field_witness, optional_condition, text_value,
};
use crate::reply::{Reply, Status, found_reply};
use vstd::prelude::*;
use vstd::string::*;

verus! {

/// The transfers endpoint.
pub struct Transfers {}

/// What a transfers listing is asked to match.
#[derive(Clone, Debug, PartialEq, Eq)]
pub struct TransferFilters {
    pub contract: Option<String>,
    pub nft_id: Option<i64>,
    pub from: Option<String>,
    pub to: Option<String>,
}

/// `o` is absent or the empty text.
pub open spec fn blank(o: Option<String>) -> bool {
    match o {
        None => true,
        Some(s) => s@.len() == 0,
    }
}

impl TransferFilters {
    /// The request is refused: it names no contract, sender, receiver or
    /// token, or it names a token without its contract.
    pub open spec fn refused(self) -> bool {
        ||| blank(self.contract) && blank(self.from) && blank(self.to) && self.nft_id is None
        ||| self.nft_id is Some && self.contract is None
    }

    /// The conditions of the listing, given the record of the named contract
    /// when the lookup found one: the sender and the receiver when named,
    /// then, when a contract is named, its record and the token id.
    pub open spec fn conditions(self, contract: Option<RecordId>) -> Seq<Condition> {
        optional_condition("from"@, text_value(self.from)) + optional_condition(
            "to"@,
            text_value(self.to),
        ) + if self.contract is Some {
            optional_condition("contract"@, id_value(contract)) + optional_condition(
                "nft_id"@,
                int_value(self.nft_id),
            )
        } else {
            seq![]
        }
    }

    /// Decides whether the request is served: `NotAcceptable` when it is
    /// refused, otherwise the contract id to look up, when one is named.
    pub fn contract_to_look_up(&self) -> (r: Result<Option<String>, Status>)
        ensures
            self.refused() ==> r == Err::<Option<String>, Status>(Status::NotAcceptable),
            !self.refused() ==> r == Ok::<Option<String>, Status>(self.contract),
    {
        let nothing_named = is_blank(&self.contract) && is_blank(&self.from) && is_blank(&self.to)
            && self.nft_id.is_none();
        if nothing_named {
            return Err(Status::NotAcceptable);
        }
        if self.nft_id.is_some() && self.contract.is_none() {
            return Err(Status::NotAcceptable);
        }
        match &self.contract {
            Some(c) => Ok(Some(c.clone())),
            None => Ok(None),
        }
    }

    /// The filter of the listing, given the record of the named contract
    /// when the lookup found one.
    pub fn filter(&self, contract: Option<RecordId>) -> (f: Filter)
        ensures
            f@ == self.conditions(contract),
    {
        proof {
            reveal_strlit("from");
            reveal_strlit("to");
            reveal_strlit("contract");
            reveal_strlit("nft_id");
        }
        let mut f = Filter::new();
        let ghost s0 = f@;
        match &self.from {
            Some(from) => f.insert(String::from_str("from"), FilterValue::Str(from.clone())),
            None => {},
        }
        let ghost s1 = f@;
        assert(s1 =~= optional_condition("from"@, text_value(self.from)));
        match &self.to {
            Some(to) => {
                f.insert(String::from_str("to"), FilterValue::Str(to.clone()));
                assert(!has_field(s1, "to"@)) by {
                    lemma_field_witness(s1, "to"@);
                }
            },
            None => {},
        }
        let ghost s2 = f@;
        assert(s2 =~= s1 + optional_condition("to"@, text_value(self.to)));
        if self.contract.is_some() {
            match contract {
                Some(record) => {
                    f.insert(String::from_str("contract"), FilterValue::Id(record));
                    assert(!has_field(s2, "contract"@)) by {
                        lemma_field_witness(s2, "contract"@);
                    }
                },
                None => {},
            }
            let ghost s3 = f@;
            assert(s3 =~= s2 + optional_condition("contract"@, id_value(contract)));
            match self.nft_id {
                Some(n) => {
                    f.insert(String::from_str("nft_id"), FilterValue::Int(n));
                    assert(!has_field(s3, "nft_id"@)) by {
                        lemma_field_witness(s3, "nft_id"@);
                    }
                },
                None => {},
            }
            assert(f@ =~= self.conditions(contract));
        } else {
            assert(f@ =~= self.conditions(contract));
        }
        f
    }
}

/// A transfers listing that is served names something to match: a contract,
/// a sender or a receiver that is not empty, or a token id.
pub proof fn lemma_served_requests_name_something(q: TransferFilters)
    requires
        !q.refused(),
    ensures
        !blank(q.contract) || !blank(q.from) || !blank(q.to) || q.nft_id is Some,
{
}

/// Which transfers listings are served and which are refused, case by case:
/// a request naming a non-empty contract is served; a request naming a
/// contract (even an empty one) and a token id is served; a request naming a
/// token id without a contract is refused; a request naming no token id is
/// served exactly when it names a non-empty contract, sender or receiver.
pub proof fn lemma_which_requests_are_served(q: TransferFilters)
    ensures
        q.contract matches Some(c) && c@.len() > 0 ==> !q.refused(),
        q.contract is Some && q.nft_id is Some ==> !q.refused(),
        q.contract is None && q.nft_id is Some ==> q.refused(),
        q.nft_id is None ==> (!q.refused() <==> (!blank(q.contract) || !blank(q.from) || !blank(
            q.to,
        ))),
{
}

/// What the filter of a transfers listing holds: the sender when one is
/// named, the receiver when one is named, the found record of the contract
/// when a contract is named, and the token id when a contract is named; each
/// whatever else the request names, and nothing besides.
pub proof fn lemma_transfer_filter_contents(q: TransferFilters, contract: Option<RecordId>)
    ensures
        q.from matches Some(f) ==> q.conditions(contract).contains(("from"@, FilterValue::Str(f))),
        q.to matches Some(t) ==> q.conditions(contract).contains(("to"@, FilterValue::Str(t))),
        contract matches Some(r) ==> (q.contract is Some ==> q.conditions(contract).contains(
            ("contract"@, FilterValue::Id(r)),
        )),
        q.nft_id matches Some(n) ==> (q.contract is Some ==> q.conditions(contract).contains(
            ("nft_id"@, FilterValue::Int(n)),
        )),
        forall|i: int|
            0 <= i < q.conditions(contract).len() ==> {
                let c = #[trigger] q.conditions(contract)[i];
                ||| q.from matches Some(f) && c == ("from"@, FilterValue::Str(f))
                ||| q.to matches Some(t) && c == ("to"@, FilterValue::Str(t))
                ||| contract matches Some(r) && q.contract is Some && c == (
                    "contract"@,
                    FilterValue::Id(r),
                )
                ||| q.nft_id matches Some(n) && q.contract is Some && c == (
                    "nft_id"@,
                    FilterValue::Int(n),
                )
            },
{
    let a = optional_condition("from"@, text_value(q.from));
    let b = optional_condition("to"@, text_value(q.to));
    let c = optional_condition("contract"@, id_value(contract));
    let d = optional_condition("nft_id"@, int_value(q.nft_id));
    let s = q.conditions(contract);
    if q.contract is Some {
        assert(s == a + b + (c + d));
        assert(s =~= a + b + c + d);
    } else {
        assert(s =~= a + b);
    }
    if let Some(f) = q.from {
        assert(s[0] == ("from"@, FilterValue::Str(f)));
    }
    if let Some(t) = q.to {
        assert(s[a.len() as int] == ("to"@, FilterValue::Str(t)));
    }
    if q.contract is Some {
        if let Some(r) = contract {
            assert(s[(a.len() + b.len()) as int] == ("contract"@, FilterValue::Id(r)));
        }
        if let Some(n) = q.nft_id {
            assert(s[(a.len() + b.len() + c.len()) as int] == ("nft_id"@, FilterValue::Int(n)));
        }
    }
    assert forall|i: int| 0 <= i < s.len() implies {
        let e = #[trigger] s[i];
        ||| q.from matches Some(f) && e == ("from"@, FilterValue::Str(f))
        ||| q.to matches Some(t) && e == ("to"@, FilterValue::Str(t))
        ||| contract matches Some(r) && q.contract is Some && e == ("contract"@, FilterValue::Id(r))
        ||| q.nft_id matches Some(n) && q.contract is Some && e == ("nft_id"@, FilterValue::Int(n))
    } by {
        if i < a.len() {
            assert(s[i] == a[i]);
        } else if i < a.len() + b.len() {
            assert(s[i] == b[i - a.len()]);
        } else if i < a.len() + b.len() + c.len() {
            assert(s[i] == c[i - a.len() - b.len()]);
        } else {
            assert(s[i] == d[i - a.len() - b.len() - c.len()]);
        }
    }
}

/// A token id is matched only together with the contract that was named:
/// the filter of any request holds a condition on `nft_id` only when the
/// request names a contract, and a served request that names a token id
/// names its contract.
pub proof fn lemma_token_id_needs_contract(q: TransferFilters, contract: Option<RecordId>)
    ensures
        has_field(q.conditions(contract), "nft_id"@) ==> q.contract is Some,
        !q.refused() && q.nft_id is Some ==> q.contract is Some,
{
    reveal_strlit("from");
    reveal_strlit("to");
    reveal_strlit("nft_id");
    lemma_field_witness(q.conditions(contract), "nft_id"@);
}

/// `o` is absent or the empty text.
fn is_blank(o: &Option<String>) -> (b: bool)
    ensures
        b == blank(*o),
{
    match o {
        Some(s) => s.as_str().unicode_len() == 0,
        None => true,
    }
}

/// The answer to a transfers listing: the transfers found, or `NotFound`
/// when the listing failed.
pub fn transfers_reply<T>(found: Option<Vec<T>>) -> (r: Reply<Vec<T>>)
    ensures
        r == found_reply(found, Status::NotFound),
{
    Reply::found(found, Status::NotFound)
}

} // verus!
