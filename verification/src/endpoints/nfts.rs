use crate::filter::{
    Condition, Filter, FilterValue, RecordId, has_field, id_value, int_value, lemma_field_witness,
    optional_condition,
};
use crate::reply::{Reply, Status, found_reply};
use crate::text::{decimal, int_decimal};
use vstd::prelude::*;
use vstd::string::*;

verus! {

/// The NFT endpoints.
pub struct Nfts {}

/// What an NFT listing is asked for: a contract and, maybe, a token id.
#[derive(Clone, Debug, PartialEq, Eq)]
pub struct GetNftParams {
    pub contract: String,
    pub nft_id: Option<i64>,
}

/// What the NFT endpoint tells of one token.
#[derive(Clone, Debug, PartialEq, Eq)]
pub struct NftSummary {
    /// The token id, in decimal.
    pub id: String,
    /// The id of the token's contract.
    pub contract: String,
    /// The address of the token's owner; empty when no owner was found.
    pub owner: String,
}

/// The conditions of a single NFT lookup: the token id, then the record of
/// its contract when the lookup of the contract found one.
pub open spec fn nft_conditions(nft_id: i64, contract: Option<RecordId>) -> Seq<Condition> {
    seq![("id"@, FilterValue::Int(nft_id))] + optional_condition("contract"@, id_value(contract))
}

/// The filter of a single NFT lookup.
pub fn nft_filter(nft_id: i64, contract: Option<RecordId>) -> (f: Filter)
    ensures
        f@ == nft_conditions(nft_id, contract),
{
    proof {
        reveal_strlit("id");
        reveal_strlit("contract");
    }
    let mut f = Filter::single(String::from_str("id"), FilterValue::Int(nft_id));
    let ghost s = f@;
    match contract {
        Some(record) => {
            f.insert(String::from_str("contract"), FilterValue::Id(record));
            assert(!has_field(s, "contract"@)) by {
                lemma_field_witness(s, "contract"@);
            }
        },
        None => {},
    }
    assert(f@ =~= nft_conditions(nft_id, contract));
    f
}

/// The filter that finds the owner record of a token.
pub fn nft_owner_filter(owner: RecordId) -> (f: Filter)
    ensures
        f@ == seq![("_id"@, FilterValue::Id(owner))],
{
    Filter::single(String::from_str("_id"), FilterValue::Id(owner))
}

/// What is told of a token: its id in decimal, its contract's id, and the
/// address of its owner, empty when the owner was not found.
pub fn nft_summary(id: i64, contract_id: String, owner_address: Option<String>) -> (s: NftSummary)
    ensures
        s.id@ == int_decimal(id as int),
        s.contract == contract_id,
        s.owner@ == match owner_address {
            Some(a) => a@,
            None => Seq::<char>::empty(),
        },
{
    let owner = match owner_address {
        Some(a) => a,
        None => String::new(),
    };
    NftSummary { id: decimal(id), contract: contract_id, owner }
}

/// The answer to a single NFT lookup: the token, or `NotFound`.
pub fn nft_reply(summary: Option<NftSummary>) -> (r: Reply<NftSummary>)
    ensures
        r == found_reply(summary, Status::NotFound),
{
    Reply::found(summary, Status::NotFound)
}

impl GetNftParams {
    /// The conditions of an NFT listing: the token id when one is asked
    /// for, then the record of the contract when the lookup found one.
    pub open spec fn listing_conditions(self, contract: Option<RecordId>) -> Seq<Condition> {
        optional_condition("id"@, int_value(self.nft_id)) + optional_condition(
            "contract"@,
            id_value(contract),
        )
    }

    /// The conditions of the transfers of a token: its id, null when none is
    /// asked for, and the contract id as given.
    pub open spec fn transfer_conditions(self) -> Seq<Condition> {
        seq![
            ("nft_id"@, match self.nft_id {
                Some(n) => FilterValue::Int(n),
                None => FilterValue::Null,
            }),
            ("contract"@, FilterValue::Str(self.contract)),
        ]
    }

    /// The filter of an NFT listing.
    pub fn listing_filter(&self, contract: Option<RecordId>) -> (f: Filter)
        ensures
            f@ == self.listing_conditions(contract),
    {
        proof {
            reveal_strlit("id");
            reveal_strlit("contract");
        }
        let mut f = Filter::new();
        match self.nft_id {
            Some(n) => f.insert(String::from_str("id"), FilterValue::Int(n)),
            None => {},
        }
        let ghost s = f@;
        assert(s =~= optional_condition("id"@, int_value(self.nft_id)));
        match contract {
            Some(record) => {
                f.insert(String::from_str("contract"), FilterValue::Id(record));
                assert(!has_field(s, "contract"@)) by {
                    lemma_field_witness(s, "contract"@);
                }
            },
            None => {},
        }
        assert(f@ =~= self.listing_conditions(contract));
        f
    }

    /// The filter of the transfers of a token.
    pub fn transfers_filter(&self) -> (f: Filter)
        ensures
            f@ == self.transfer_conditions(),
    {
        proof {
            reveal_strlit("nft_id");
            reveal_strlit("contract");
        }
        let id = match self.nft_id {
            Some(n) => FilterValue::Int(n),
            None => FilterValue::Null,
        };
        let mut f = Filter::single(String::from_str("nft_id"), id);
        let ghost s = f@;
        f.insert(String::from_str("contract"), FilterValue::Str(self.contract.clone()));
        assert(!has_field(s, "contract"@)) by {
            lemma_field_witness(s, "contract"@);
        }
        assert(f@ =~= self.transfer_conditions());
        f
    }
}

/// What the filter of an NFT listing holds: the asked token id whatever the
/// lookup of the contract found, the found record of the contract whatever
/// token id is asked for, and nothing besides.
pub proof fn lemma_listing_filter_contents(q: GetNftParams, contract: Option<RecordId>)
    ensures
        q.nft_id matches Some(n) ==> q.listing_conditions(contract).contains(
            ("id"@, FilterValue::Int(n)),
        ),
        contract matches Some(r) ==> q.listing_conditions(contract).contains(
            ("contract"@, FilterValue::Id(r)),
        ),
        forall|i: int|
            0 <= i < q.listing_conditions(contract).len() ==> {
                let c = #[trigger] q.listing_conditions(contract)[i];
                ||| q.nft_id matches Some(n) && c == ("id"@, FilterValue::Int(n))
                ||| contract matches Some(r) && c == ("contract"@, FilterValue::Id(r))
            },
        q.nft_id is None && contract is None ==> q.listing_conditions(contract).len() == 0,
{
    let a = optional_condition("id"@, int_value(q.nft_id));
    let b = optional_condition("contract"@, id_value(contract));
    let s = q.listing_conditions(contract);
    assert(s == a + b);
    if let Some(n) = q.nft_id {
        assert(s[0] == ("id"@, FilterValue::Int(n)));
    }
    if let Some(r) = contract {
        assert(s[a.len() as int] == ("contract"@, FilterValue::Id(r)));
    }
    assert forall|i: int| 0 <= i < s.len() implies {
        let c = #[trigger] s[i];
        ||| q.nft_id matches Some(n) && c == ("id"@, FilterValue::Int(n))
        ||| contract matches Some(r) && c == ("contract"@, FilterValue::Id(r))
    } by {
        if i < a.len() {
            assert(s[i] == a[i]);
        } else {
            assert(s[i] == b[i - a.len()]);
        }
    }
}

/// The answer to an NFT listing: the tokens found; when the listing
/// failed, no body, still with `Success`.
pub fn nfts_reply<T>(found: Option<Vec<T>>) -> (r: Reply<Vec<T>>)
    ensures
        r == found_reply(found, Status::Success),
{
    Reply::found(found, Status::Success)
}

/// The answer to a listing of a token's transfers: the transfers found;
/// when the listing failed, no body, still with `Success`.
pub fn nft_transfers_reply<T>(found: Option<Vec<T>>) -> (r: Reply<Vec<T>>)
    ensures
        r == found_reply(found, Status::Success),
{
    Reply::found(found, Status::Success)
}

} // verus!
