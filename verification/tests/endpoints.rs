use nft_api::endpoints::contracts::{contract_lookup_filter, contracts_filter, contracts_reply};
use nft_api::endpoints::health::{Health, HealthStats};
use nft_api::endpoints::nfts::{
    nft_filter, nft_owner_filter, nft_reply, nft_summary, nft_transfers_reply, nfts_reply,
    GetNftParams, NftSummary,
};
use nft_api::endpoints::owners::{
    owner_filter, owner_nfts_filter, owner_nfts_reply, owner_nfts_unknown_owner_reply, owner_reply,
};
use nft_api::endpoints::token::{grant_token, new_token, token_from_draws, TokenGrant, TOKEN_LENGTH};
use nft_api::endpoints::transfers::{transfers_reply, TransferFilters};
use nft_api::endpoints::{
    default_session_id, session_key, unknown_visitor_key, visitor_address, visitor_limit_key,
    IdentityID,
    PaginationParams, DEFAULT_PAGE_SIZE, MAX_PAGE_SIZE,
};
use nft_api::filter::{Filter, FilterValue, RecordId};
use nft_api::reply::{Reply, Status};
use nft_api::text::decimal;

fn s(x: &str) -> String {
    x.to_string()
}

fn entries(f: Filter) -> Vec<(String, FilterValue)> {
    f.into_entries()
}

fn record(n: u8) -> RecordId {
    RecordId { bytes: [n; 12] }
}

fn page(limit: Option<i64>, offset: Option<u64>) -> PaginationParams {
    PaginationParams { limit, offset }
}

#[test]
fn pagination_defaults() {
    assert_eq!(page(None, None).limit(), DEFAULT_PAGE_SIZE);
    assert_eq!(page(None, None).limit(), 10);
    assert_eq!(page(None, None).offset(), 0);
}

#[test]
fn pagination_caps_the_limit() {
    assert_eq!(page(Some(60), None).limit(), 50);
    assert_eq!(page(Some(51), None).limit(), MAX_PAGE_SIZE);
    assert_eq!(page(Some(50), None).limit(), 50);
    assert_eq!(page(Some(20), Some(7)).limit(), 20);
    assert_eq!(page(Some(20), Some(7)).offset(), 7);
    assert_eq!(page(Some(i64::MAX), None).limit(), 50);
}

#[test]
fn pagination_keeps_small_and_negative_limits() {
    assert_eq!(page(Some(0), None).limit(), 0);
    assert_eq!(page(Some(-5), None).limit(), -5);
    assert_eq!(page(None, Some(u64::MAX)).offset(), u64::MAX);
}

#[test]
fn filter_insert_appends_new_fields_in_order() {
    let mut f = Filter::new();
    f.insert(s("a"), FilterValue::Int(1));
    f.insert(s("b"), FilterValue::Bool(false));
    assert_eq!(
        entries(f),
        vec![(s("a"), FilterValue::Int(1)), (s("b"), FilterValue::Bool(false))]
    );
}

#[test]
fn filter_insert_replaces_in_place() {
    let mut f = Filter::new();
    f.insert(s("a"), FilterValue::Int(1));
    f.insert(s("b"), FilterValue::Null);
    f.insert(s("a"), FilterValue::Str(s("x")));
    assert_eq!(
        entries(f),
        vec![(s("a"), FilterValue::Str(s("x"))), (s("b"), FilterValue::Null)]
    );
}

#[test]
fn filter_single_and_empty() {
    assert_eq!(entries(Filter::new()), vec![]);
    assert_eq!(
        entries(Filter::single(s("k"), FilterValue::Id(record(3)))),
        vec![(s("k"), FilterValue::Id(record(3)))]
    );
}

#[test]
fn decimal_matches_to_string() {
    for n in [0i64, 7, 9, 10, 42, -1, -10, 1234567890, i64::MAX, i64::MIN, -987654321] {
        assert_eq!(decimal(n), n.to_string());
    }
}

#[test]
fn decimal_exact_values() {
    assert_eq!(decimal(0), "0");
    assert_eq!(decimal(-305), "-305");
    assert_eq!(decimal(i64::MIN), "-9223372036854775808");
}

#[test]
fn identity_create_id() {
    assert_eq!(IdentityID::create_id(s("42"), s("me@example.org")), "42 me@example.org");
    assert_eq!(IdentityID::create_id(s(""), s("")), " ");
}

#[test]
fn identity_parse_takes_first_two_parts() {
    let p = IdentityID::parse("42 me@example.org");
    assert_eq!(p.id, "42");
    assert_eq!(p.address, "me@example.org");
    let p = IdentityID::parse("a b c");
    assert_eq!(p.id, "a");
    assert_eq!(p.address, "b");
    let p = IdentityID::parse(" x");
    assert_eq!(p.id, "");
    assert_eq!(p.address, "x");
    let p = IdentityID::parse("x ");
    assert_eq!(p.id, "x");
    assert_eq!(p.address, "");
}

#[test]
fn identity_round_trip() {
    let text = IdentityID::create_id(s("0xabc"), s("0x01cf0e2f2f715450"));
    let p = IdentityID::parse(&text);
    assert_eq!(p.id, "0xabc");
    assert_eq!(p.address, "0x01cf0e2f2f715450");
}

#[test]
fn identity_from_session() {
    assert_eq!(IdentityID::from_identity(None), None);
    assert_eq!(IdentityID::from_identity(Some(s("nospace"))), None);
    assert_eq!(
        IdentityID::from_identity(Some(s("u1 addr"))),
        Some(IdentityID { address: s("addr"), id: s("u1") })
    );
}

fn assert_token(t: &str) {
    assert_eq!(t.chars().count(), TOKEN_LENGTH);
    assert_eq!(t.len(), 16);
    assert!(t.chars().all(|c| c.is_ascii_alphanumeric()));
}

#[test]
fn new_token_is_sixteen_letters_and_digits() {
    for _ in 0..50 {
        assert_token(&new_token());
    }
}

#[test]
fn grant_token_keeps_the_stored_token() {
    assert_eq!(grant_token(Some(s("kept"))), TokenGrant::Existing(s("kept")));
}

#[test]
fn grant_token_issues_a_fresh_token() {
    match grant_token(None) {
        TokenGrant::Issued(t) => assert_token(&t),
        other => panic!("unexpected {:?}", other),
    }
}

fn transfer_filters(
    contract: Option<&str>,
    nft_id: Option<i64>,
    from: Option<&str>,
    to: Option<&str>,
) -> TransferFilters {
    TransferFilters {
        contract: contract.map(s),
        nft_id,
        from: from.map(s),
        to: to.map(s),
    }
}

#[test]
fn transfers_refuse_an_empty_request() {
    let q = transfer_filters(None, None, None, None);
    assert_eq!(q.contract_to_look_up(), Err(Status::NotAcceptable));
    let q = transfer_filters(Some(""), None, Some(""), Some(""));
    assert_eq!(q.contract_to_look_up(), Err(Status::NotAcceptable));
}

#[test]
fn transfers_refuse_a_token_without_contract() {
    let q = transfer_filters(None, Some(3), Some("alice"), None);
    assert_eq!(q.contract_to_look_up(), Err(Status::NotAcceptable));
}

#[test]
fn transfers_accept_named_requests() {
    let q = transfer_filters(Some("A.1.Col"), Some(3), None, None);
    assert_eq!(q.contract_to_look_up(), Ok(Some(s("A.1.Col"))));
    let q = transfer_filters(None, None, Some("alice"), None);
    assert_eq!(q.contract_to_look_up(), Ok(None));
    let q = transfer_filters(Some(""), Some(1), None, None);
    assert_eq!(q.contract_to_look_up(), Ok(Some(s(""))));
    let q = transfer_filters(None, None, None, Some("bob"));
    assert_eq!(q.contract_to_look_up(), Ok(None));
}

#[test]
fn transfers_filter_with_everything() {
    let q = transfer_filters(Some("A.1.Col"), Some(3), Some("alice"), Some("bob"));
    assert_eq!(
        entries(q.filter(Some(record(9)))),
        vec![
            (s("from"), FilterValue::Str(s("alice"))),
            (s("to"), FilterValue::Str(s("bob"))),
            (s("contract"), FilterValue::Id(record(9))),
            (s("nft_id"), FilterValue::Int(3)),
        ]
    );
}

#[test]
fn transfers_filter_unknown_contract_keeps_token_id() {
    let q = transfer_filters(Some("A.1.Col"), Some(3), None, None);
    assert_eq!(entries(q.filter(None)), vec![(s("nft_id"), FilterValue::Int(3))]);
}

#[test]
fn transfers_filter_keeps_empty_sender() {
    let q = transfer_filters(None, None, Some(""), Some("bob"));
    assert_eq!(
        entries(q.filter(None)),
        vec![(s("from"), FilterValue::Str(s(""))), (s("to"), FilterValue::Str(s("bob")))]
    );
}

#[test]
fn transfers_reply_statuses() {
    assert_eq!(transfers_reply(Some(vec![1, 2])), Reply { body: Some(vec![1, 2]), status: Status::Success });
    assert_eq!(transfers_reply::<u8>(None), Reply { body: None, status: Status::NotFound });
}

#[test]
fn nft_filters() {
    assert_eq!(
        entries(nft_filter(7, Some(record(1)))),
        vec![(s("id"), FilterValue::Int(7)), (s("contract"), FilterValue::Id(record(1)))]
    );
    assert_eq!(entries(nft_filter(-7, None)), vec![(s("id"), FilterValue::Int(-7))]);
    assert_eq!(
        entries(nft_owner_filter(record(2))),
        vec![(s("_id"), FilterValue::Id(record(2)))]
    );
}

#[test]
fn nft_listing_filters() {
    let q = GetNftParams { contract: s("A.1.Col"), nft_id: Some(5) };
    assert_eq!(
        entries(q.listing_filter(Some(record(4)))),
        vec![(s("id"), FilterValue::Int(5)), (s("contract"), FilterValue::Id(record(4)))]
    );
    let q = GetNftParams { contract: s("A.1.Col"), nft_id: None };
    assert_eq!(entries(q.listing_filter(None)), vec![]);
    assert_eq!(
        entries(q.listing_filter(Some(record(4)))),
        vec![(s("contract"), FilterValue::Id(record(4)))]
    );
}

#[test]
fn nft_transfer_filters() {
    let q = GetNftParams { contract: s("A.1.Col"), nft_id: Some(5) };
    assert_eq!(
        entries(q.transfers_filter()),
        vec![(s("nft_id"), FilterValue::Int(5)), (s("contract"), FilterValue::Str(s("A.1.Col")))]
    );
    let q = GetNftParams { contract: s("c"), nft_id: None };
    assert_eq!(
        entries(q.transfers_filter()),
        vec![(s("nft_id"), FilterValue::Null), (s("contract"), FilterValue::Str(s("c")))]
    );
}

#[test]
fn nft_summary_and_reply() {
    let summary = nft_summary(42, s("A.1.Col"), Some(s("0xabc")));
    assert_eq!(
        summary,
        NftSummary { id: s("42"), contract: s("A.1.Col"), owner: s("0xabc") }
    );
    let orphan = nft_summary(-3, s("c"), None);
    assert_eq!(orphan.id, "-3");
    assert_eq!(orphan.owner, "");
    assert_eq!(nft_reply(Some(orphan.clone())), Reply { body: Some(orphan), status: Status::Success });
    assert_eq!(nft_reply(None), Reply { body: None, status: Status::NotFound });
}

#[test]
fn listing_replies_answer_success_on_failure() {
    assert_eq!(nfts_reply::<u8>(None), Reply { body: None, status: Status::Success });
    assert_eq!(nft_transfers_reply::<u8>(None), Reply { body: None, status: Status::Success });
    assert_eq!(contracts_reply::<u8>(None), Reply { body: None, status: Status::Success });
    assert_eq!(nfts_reply(Some(vec![1u8])), Reply { body: Some(vec![1u8]), status: Status::Success });
}

#[test]
fn owner_endpoints() {
    assert_eq!(
        entries(owner_filter(s("0xabc"))),
        vec![(s("address"), FilterValue::Str(s("0xabc")))]
    );
    assert_eq!(
        entries(owner_nfts_filter(record(8))),
        vec![(s("owner"), FilterValue::Id(record(8)))]
    );
    assert_eq!(owner_reply(Some(1u8)), Reply { body: Some(1u8), status: Status::Success });
    assert_eq!(owner_reply::<u8>(None), Reply { body: None, status: Status::NotFound });
    assert_eq!(owner_nfts_reply::<u8>(None), Reply { body: None, status: Status::NotFound });
}

#[test]
fn contract_filters() {
    assert_eq!(entries(contracts_filter()), vec![(s("done"), FilterValue::Bool(true))]);
    assert_eq!(
        entries(contract_lookup_filter(s("A.1.Col"))),
        vec![(s("id"), FilterValue::Str(s("A.1.Col")))]
    );
}

#[test]
fn health_counts_default_to_zero() {
    let h = Health::from_counts(Some(3), None, Some(10), Some(0));
    assert_eq!(h.infos, HealthStats { owners: 3, transfers: 0, nfts: 10, contracts: 0 });
    assert_eq!(h.service_name, "NFT Api");
}

#[test]
fn visitor_keys() {
    assert_eq!(visitor_address(Some(s("10.0.0.1"))), "10.0.0.1");
    assert_eq!(visitor_address(None), "unknown");
    assert_eq!(unknown_visitor_key(), "unknown");
    assert_eq!(session_key(s("10.0.0.1"), None), "10.0.0.1");
    assert_eq!(session_key(s("10.0.0.1"), Some(Some(s("tok")))), "tok");
}

#[test]
fn default_session_id_appends_the_route() {
    assert_eq!(
        default_session_id(s("10.0.0.1"), None, Some(s("/nfts/{contract_id}/{nft_id}"))),
        Some(s("10.0.0.1/nfts/{contract_id}/{nft_id}"))
    );
    assert_eq!(
        default_session_id(s("10.0.0.1"), Some(Some(s("tok"))), None),
        Some(s("tok"))
    );
    assert_eq!(default_session_id(s("unknown"), None, Some(s(""))), Some(s("unknown")));
}

#[test]
fn filter_set_twice_keeps_second_value() {
    let mut f = Filter::new();
    f.insert(s("x"), FilterValue::Bool(true));
    f.insert(s("k"), FilterValue::Int(1));
    f.insert(s("k"), FilterValue::Int(2));
    assert_eq!(
        entries(f),
        vec![(s("x"), FilterValue::Bool(true)), (s("k"), FilterValue::Int(2))]
    );
}

#[test]
fn transfers_token_id_only_with_contract() {
    let q = transfer_filters(None, None, Some("alice"), Some("bob"));
    let fields: Vec<String> = entries(q.filter(Some(record(1)))).into_iter().map(|e| e.0).collect();
    assert_eq!(fields, vec![s("from"), s("to")]);
}

#[test]
fn same_session_gets_the_same_token() {
    let first = match grant_token(None) {
        TokenGrant::Issued(t) => t,
        other => panic!("unexpected {:?}", other),
    };
    // the login succeeded, so the session keeps the issued token
    let kept = Some(first.clone());
    assert_eq!(grant_token(kept), TokenGrant::Existing(first));
}

#[test]
fn token_from_draws_keeps_every_draw() {
    assert_eq!(token_from_draws(&b"aZ09bY18cX27dW36".to_vec()), "aZ09bY18cX27dW36");
    assert_eq!(token_from_draws(&vec![]), "");
    assert_eq!(token_from_draws(&vec![b'Q', b'q']), "Qq");
}

#[test]
fn new_tokens_differ() {
    let a = new_token();
    let b = new_token();
    assert_ne!(a, b);
}

#[test]
fn visitor_limit_keys() {
    assert_eq!(visitor_limit_key(None, None), Some(s("unknown")));
    assert_eq!(visitor_limit_key(Some(s("tok")), None), Some(s("tok")));
    assert_eq!(visitor_limit_key(Some(s("tok")), Some(Some(s("kept")))), Some(s("kept")));
}

#[test]
fn owner_nfts_unknown_owner() {
    assert_eq!(
        owner_nfts_unknown_owner_reply::<u8>(),
        Reply { body: None, status: Status::NotFound }
    );
}
