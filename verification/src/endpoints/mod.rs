pub mod contracts;
pub mod health;
pub mod nfts;
pub mod owners;
pub mod token;
pub mod transfers;

pub use health::Health;

use actix_identity::Identity;
use vstd::prelude::*;
use vstd::string::*;

verus! {

/// The largest page a listing endpoint returns.
pub const MAX_PAGE_SIZE: i64 = 50;

/// The page size used when the request names none.
pub const DEFAULT_PAGE_SIZE: i64 = 10;

/// Paging asked for by a listing request: how many records and how many to skip.
#[derive(Clone, Debug, PartialEq, Eq)]
pub struct PaginationParams {
    pub limit: Option<i64>,
    pub offset: Option<u64>,
}

/// The page size that a request asking for `limit` gets.
pub open spec fn page_limit(limit: Option<i64>) -> i64 {
    match limit {
        Some(l) => if l > MAX_PAGE_SIZE { MAX_PAGE_SIZE } else { l },
        None => DEFAULT_PAGE_SIZE,
    }
}

/// The number of records skipped for a request asking for `offset`.
pub open spec fn page_offset(offset: Option<u64>) -> u64 {
    match offset {
        Some(o) => o,
        None => 0,
    }
}

impl PaginationParams {
    /// The page size: the one asked for, at most `MAX_PAGE_SIZE`, and
    /// `DEFAULT_PAGE_SIZE` when none was asked for.
    pub fn limit(&self) -> (l: i64)
        ensures
            l == page_limit(self.limit),
            l <= MAX_PAGE_SIZE,
            self.limit matches Some(asked) ==> (asked <= MAX_PAGE_SIZE ==> l == asked),
    {
        let l: i64 = match self.limit {
            Some(l) => l,
            None => DEFAULT_PAGE_SIZE,
        };
        if l > MAX_PAGE_SIZE {
            return MAX_PAGE_SIZE;
        }
        l
    }

    /// The number of records to skip: the one asked for, or none.
    pub fn offset(&self) -> (o: u64)
        ensures
            o == page_offset(self.offset),
    {
        match self.offset {
            Some(o) => o,
            None => 0,
        }
    }
}

/// The page size never exceeds the size asked for nor `MAX_PAGE_SIZE`; a
/// size asked for that is at most `MAX_PAGE_SIZE` is kept as it is, a larger
/// one gives `MAX_PAGE_SIZE`, and no size asked for gives `DEFAULT_PAGE_SIZE`.
/// The records skipped are those asked for, or none.
pub proof fn lemma_page_size(limit: Option<i64>, offset: Option<u64>)
    ensures
        page_limit(limit) <= MAX_PAGE_SIZE,
        limit matches Some(l) ==> page_limit(limit) <= l,
        limit matches Some(l) ==> (l <= MAX_PAGE_SIZE ==> page_limit(limit) == l),
        limit matches Some(l) ==> (l > MAX_PAGE_SIZE ==> page_limit(limit) == MAX_PAGE_SIZE),
        limit is None ==> page_limit(limit) == DEFAULT_PAGE_SIZE,
        offset matches Some(o) ==> page_offset(offset) == o,
        offset is None ==> page_offset(offset) == 0,
{
}

/// The key under which a visitor with no known address is counted.
pub open spec fn unknown_visitor() -> Seq<char> {
    "unknown"@
}

/// The address a visitor is known by: the remote address of the request,
/// or `unknown_visitor()` when the request has none.
pub fn visitor_address(remote_addr: Option<String>) -> (a: String)
    ensures
        a@ == match remote_addr {
            Some(r) => r@,
            None => unknown_visitor(),
        },
{
    match remote_addr {
        Some(r) => r,
        None => unknown_visitor_key(),
    }
}

/// The key `unknown_visitor()`.
pub fn unknown_visitor_key() -> (k: String)
    ensures
        k@ == unknown_visitor(),
{
    String::from_str("unknown")
}

/// The key kept in the session under the visitor's name, or that name when
/// the session keeps none.
pub open spec fn kept_key(name: Seq<char>, stored: Option<Option<String>>) -> Seq<char> {
    match stored {
        Some(Some(k)) => k@,
        _ => name,
    }
}

/// The session keeps a null under the visitor's name.
pub open spec fn stored_null(stored: Option<Option<String>>) -> bool {
    stored matches Some(None)
}

/// The key a visitor named `name` is counted by, given what the session
/// keeps under that name (`stored`; a null there is not accepted).
pub fn session_key(name: String, stored: Option<Option<String>>) -> (k: String)
    requires
        !stored_null(stored),
    ensures
        k@ == kept_key(name@, stored),
{
    match stored {
        Some(Some(k)) => k,
        _ => name,
    }
}

/// The rate-limit key of a request: the key kept for the visitor's address,
/// followed by the route pattern the request matched (nothing when none).
pub fn default_session_id(address: String, stored: Option<Option<String>>, pattern: Option<String>) -> (k: Option<String>)
    requires
        !stored_null(stored),
    ensures
        k matches Some(key) && key@ == kept_key(address@, stored) + match pattern {
            Some(p) => p@,
            None => Seq::<char>::empty(),
        },
{
    let mut key = session_key(address, stored);
    match pattern {
        Some(p) => key.append(p.as_str()),
        None => {},
    }
    Some(key)
}

/// The key by which a request to the whole service is rate-limited: for a
/// visitor who brings a token, the key kept in the session under that token
/// (`stored`), or the token itself when none is kept; for a visitor without
/// one, `unknown_visitor()`.
pub fn visitor_limit_key(token: Option<String>, stored: Option<Option<String>>) -> (k: Option<String>)
    requires
        !stored_null(stored),
    ensures
        k matches Some(key) && key@ == match token {
            Some(t) => kept_key(t@, stored),
            None => unknown_visitor(),
        },
{
    match token {
        Some(t) => Some(session_key(t, stored)),
        None => Some(unknown_visitor_key()),
    }
}

/// The parts of an identity string: the user's id and address.
#[derive(Clone, Debug, PartialEq, Eq)]
pub struct IdentityID {
    pub address: String,
    pub id: String,
}

/// No character of `s` is a space.
pub open spec fn space_free(s: Seq<char>) -> bool {
    forall|i: int| 0 <= i < s.len() ==> s[i] != ' '
}

/// Where the first space of `s` stands, or the length of `s` when it holds none.
pub open spec fn first_space(s: Seq<char>) -> int
    decreases s.len(),
{
    if s.len() == 0 {
        0
    } else if s[0] == ' ' {
        0
    } else {
        1 + first_space(s.drop_first())
    }
}

/// The identity string of a user: the id, a space, then the address.
pub open spec fn identity_text(user_id: Seq<char>, user_email: Seq<char>) -> Seq<char> {
    user_id + seq![' '] + user_email
}

/// The first space-separated part of `s`.
pub open spec fn id_part(s: Seq<char>) -> Seq<char> {
    s.take(first_space(s))
}

/// The second space-separated part of `s`, when `s` holds a space.
pub open spec fn address_part(s: Seq<char>) -> Seq<char> {
    let rest = s.skip(first_space(s) + 1);
    rest.take(first_space(rest))
}

/// `s` holds at least one space.
pub open spec fn has_space(s: Seq<char>) -> bool {
    exists|i: int| 0 <= i < s.len() && s[i] == ' '
}

/// `p` is where the first space of `s` stands (or its length).
pub proof fn lemma_first_space(s: Seq<char>, p: int)
    requires
        0 <= p <= s.len(),
        forall|j: int| 0 <= j < p ==> s[j] != ' ',
        p == s.len() || s[p] == ' ',
    ensures
        first_space(s) == p,
    decreases s.len(),
{
    if s.len() > 0 && p > 0 {
        lemma_first_space(s.drop_first(), p - 1);
    }
}

/// The first space of `s` stands at `first_space(s)`: no character before it
/// is a space, and it is the end of `s` or a space.
pub proof fn lemma_first_space_bounds(s: Seq<char>)
    ensures
        0 <= first_space(s) <= s.len(),
        forall|j: int| 0 <= j < first_space(s) ==> s[j] != ' ',
        first_space(s) == s.len() || s[first_space(s)] == ' ',
    decreases s.len(),
{
    if s.len() > 0 && s[0] != ' ' {
        lemma_first_space_bounds(s.drop_first());
        assert forall|j: int| 0 <= j < first_space(s) implies s[j] != ' ' by {
            if j > 0 {
                assert(s[j] == s.drop_first()[j - 1]);
            }
        }
    }
}

/// How an identity string holding a space is split: the id is the text
/// before its first space and holds no space; the address is the text after
/// that space up to the next space or the end, and holds no space.
pub proof fn lemma_identity_split(t: Seq<char>)
    requires
        has_space(t),
    ensures
        space_free(id_part(t)),
        id_part(t).len() < t.len(),
        t.take(id_part(t).len() as int) == id_part(t),
        t[id_part(t).len() as int] == ' ',
        space_free(address_part(t)),
        id_part(t).len() + 1 + address_part(t).len() <= t.len(),
        t.subrange(
            id_part(t).len() + 1 as int,
            id_part(t).len() + 1 + address_part(t).len() as int,
        ) == address_part(t),
        id_part(t).len() + 1 + address_part(t).len() == t.len() || t[(id_part(t).len() + 1
            + address_part(t).len()) as int] == ' ',
{
    lemma_first_space_bounds(t);
    let p = first_space(t);
    if p == t.len() {
        let k = choose|k: int| 0 <= k < t.len() && t[k] == ' ';
        assert(t[k] != ' ');
    }
    let rest = t.skip(p + 1);
    lemma_first_space_bounds(rest);
    let q = first_space(rest);
    assert(id_part(t) =~= t.take(p));
    assert(address_part(t) =~= rest.take(q));
    assert(t.subrange(p + 1, p + 1 + q) =~= rest.take(q));
    if p + 1 + q < t.len() {
        assert(t[p + 1 + q] == rest[q]);
    }
}

/// Splitting the identity string of a user whose id and address hold no
/// space gives back that id and that address.
pub proof fn lemma_identity_round_trip(user_id: Seq<char>, user_email: Seq<char>)
    requires
        space_free(user_id),
        space_free(user_email),
    ensures
        has_space(identity_text(user_id, user_email)),
        id_part(identity_text(user_id, user_email)) == user_id,
        address_part(identity_text(user_id, user_email)) == user_email,
{
    let t = identity_text(user_id, user_email);
    let p = user_id.len() as int;
    assert(t[p] == ' ');
    lemma_first_space(t, p);
    assert(t.take(p) =~= user_id);
    let rest = t.skip(p + 1);
    assert(rest =~= user_email);
    lemma_first_space(rest, rest.len() as int);
    assert(rest.take(rest.len() as int) =~= user_email);
}

impl IdentityID {
    /// Writes the identity string of a user: the id, a space, the address.
    pub fn create_id(user_id: String, user_email: String) -> (text: String)
        ensures
            text@ == identity_text(user_id@, user_email@),
    {
        let mut text = user_id;
        text.append(" ");
        text.append(user_email.as_str());
        proof {
            reveal_strlit(" ");
        }
        assert(text@ =~= identity_text(user_id@, user_email@));
        text
    }

    /// Splits an identity string at its spaces: the first part is the id,
    /// the second the address.
    pub fn parse(text: &str) -> (parsed: IdentityID)
        requires
            has_space(text@),
        ensures
            parsed.id@ == id_part(text@),
            parsed.address@ == address_part(text@),
    {
        let n = text.unicode_len();
        let mut p: usize = 0;
        while p < n && text.get_char(p) != ' '
            invariant
                n == text@.len(),
                p <= n,
                forall|j: int| 0 <= j < p ==> text@[j] != ' ',
            decreases n - p,
        {
            p = p + 1;
        }
        if p == n {
            assert(false);
        }
        proof {
            lemma_first_space(text@, p as int);
        }
        let id = text.substring_char(0, p).to_owned();
        let start = p + 1;
        let mut q: usize = start;
        while q < n && text.get_char(q) != ' '
            invariant
                n == text@.len(),
                start <= q <= n,
                forall|j: int| start <= j < q ==> text@[j] != ' ',
            decreases n - q,
        {
            q = q + 1;
        }
        let ghost rest = text@.skip(start as int);
        proof {
            lemma_first_space(rest, q - start);
        }
        let address = text.substring_char(start, q).to_owned();
        assert(id@ =~= id_part(text@));
        assert(address@ =~= address_part(text@));
        IdentityID { address, id }
    }
}

/// The outcome of reading an identity string: the identity string is split
/// when it holds a space, and nothing comes out otherwise.
pub open spec fn identity_parts(text: Option<String>, parsed: Option<IdentityID>) -> bool {
    match text {
        None => parsed is None,
        Some(t) => if has_space(t@) {
            parsed matches Some(p) && p.id@ == id_part(t@) && p.address@ == address_part(t@)
        } else {
            parsed is None
        },
    }
}

impl IdentityID {
    /// Splits the identity string read from a session, if there is one and
    /// it holds a space.
    pub fn from_identity(text: Option<String>) -> (parsed: Option<IdentityID>)
        ensures
            identity_parts(text, parsed),
    {
        match &text {
            Some(t) => {
                let n = t.as_str().unicode_len();
                let mut i: usize = 0;
                while i < n
                    invariant
                        text == Some(*t),
                        n == t@.len(),
                        i <= n,
                        forall|j: int| 0 <= j < i ==> t@[j] != ' ',
                    decreases n - i,
                {
                    if t.as_str().get_char(i) == ' ' {
                        assert(t@[i as int] == ' ');
                        let parsed = IdentityID::parse(t.as_str());
                        return Some(parsed);
                    }
                    i = i + 1;
                }
                None
            },
            None => None,
        }
    }
}

/// The identity of a visitor, kept in the visitor's session.
#[verifier::external_type_specification]
#[verifier::external_body]
pub struct ExIdentity(actix_identity::Identity);

/// The identity string of a logged-in visitor (`Identity::id`), when the
/// session holds one; the session's content decides, so nothing more is said.
#[verifier::external_body]
fn identity_string(identity: &Identity) -> (text: Option<String>) {
    identity.id().ok()
}

/// Writing and reading the identity strings that a login stores.
pub trait IdentityTrait {
    /// The identity string of a user.
    fn create_id(user_id: String, user_email: String) -> (text: String)
        ensures
            text@ == identity_text(user_id@, user_email@),
    ;

    /// The id and address of the logged-in visitor; `None` when the session
    /// holds no identity or the identity string holds no space (the two
    /// cases in which splitting cannot give an id and an address).
    fn parse_id(&self) -> (parsed: Option<IdentityID>)
        ensures
            parsed matches Some(p) ==> exists|text: Seq<char>|
                #![trigger id_part(text)]
                has_space(text) && p.id@ == id_part(text) && p.address@ == address_part(text),
    ;
}

impl IdentityTrait for Identity {
    fn create_id(user_id: String, user_email: String) -> (text: String) {
        IdentityID::create_id(user_id, user_email)
    }

    fn parse_id(&self) -> (parsed: Option<IdentityID>) {
        IdentityID::from_identity(identity_string(self))
    }
}

} // verus!
