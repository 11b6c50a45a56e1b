use vstd::prelude::*;

verus! {

/// The number of records of each collection.
#[derive(Clone, Copy, Debug, PartialEq, Eq)]
pub struct HealthStats {
    pub owners: u64,
    pub transfers: u64,
    pub nfts: u64,
    pub contracts: u64,
}

/// What the health endpoint reports: the record counts and the service's name.
#[derive(Clone, Copy, Debug, PartialEq, Eq)]
pub struct Health {
    pub infos: HealthStats,
    pub service_name: &'static str,
}

/// A count, or zero when it could not be had.
pub open spec fn count_or_zero(count: Option<u64>) -> u64 {
    match count {
        Some(n) => n,
        None => 0,
    }
}

/// The name the service reports.
pub open spec fn service_name() -> Seq<char> {
    "NFT Api"@
}

impl Health {
    /// The report from the counts of owners, transfers, tokens and
    /// contracts, each taken as zero when it could not be had.
    pub fn from_counts(owners: Option<u64>, transfers: Option<u64>, nfts: Option<u64>, contracts: Option<u64>) -> (h: Health)
        ensures
            h.infos.owners == count_or_zero(owners),
            h.infos.transfers == count_or_zero(transfers),
            h.infos.nfts == count_or_zero(nfts),
            h.infos.contracts == count_or_zero(contracts),
            h.service_name@ == service_name(),
    {
        Health {
            infos: HealthStats {
                owners: or_zero(owners),
                transfers: or_zero(transfers),
                nfts: or_zero(nfts),
                contracts: or_zero(contracts),
            },
            service_name: "NFT Api",
        }
    }
}

fn or_zero(count: Option<u64>) -> (n: u64)
    ensures
        n == count_or_zero(count),
{
    match count {
        Some(n) => n,
        None => 0,
    }
}

} // verus!
