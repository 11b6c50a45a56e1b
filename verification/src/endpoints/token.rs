use crate::text::push_char;
use vstd::prelude::*;

verus! {

/// The token endpoint.
pub struct Token {}

/// The number of characters of a visitor token.
pub const TOKEN_LENGTH: usize = 16;

/// `c` is an ASCII letter or digit.
pub open spec fn alphanumeric(c: char) -> bool {
    ||| 'A' <= c <= 'Z'
    ||| 'a' <= c <= 'z'
    ||| '0' <= c <= '9'
}

/// `t` is a visitor token: `TOKEN_LENGTH` ASCII letters and digits.
pub open spec fn valid_token(t: Seq<char>) -> bool {
    &&& t.len() == TOKEN_LENGTH
    &&& forall|i: int| 0 <= i < t.len() ==> alphanumeric(#[trigger] t[i])
}

/// One byte drawn from `rand`'s `Alphanumeric` distribution with the
/// thread's generator: an ASCII letter or digit. Which one is left to chance.
#[verifier::external_body]
fn sample_alphanumeric() -> (b: u8)
    ensures
        alphanumeric(b as char),
{
    rand::Rng::sample(&mut rand::thread_rng(), rand::distributions::Alphanumeric)
}

/// The text of the drawn bytes `draws`, each byte read as the character it codes.
pub open spec fn draws_text(draws: Seq<u8>) -> Seq<char> {
    draws.map_values(|b: u8| b as char)
}

/// The token made of the drawn bytes `draws`, one character per byte, in
/// the order drawn.
pub fn token_from_draws(draws: &Vec<u8>) -> (t: String)
    ensures
        t@ == draws_text(draws@),
{
    let mut t = String::new();
    let n = draws.len();
    let mut i: usize = 0;
    while i < n
        invariant
            n == draws@.len(),
            i <= n,
            t@ == draws_text(draws@.take(i as int)),
        decreases n - i,
    {
        push_char(&mut t, draws[i] as char);
        assert(draws@.take(i + 1) =~= draws@.take(i as int).push(draws@[i as int]));
        assert(t@ =~= draws_text(draws@.take(i + 1)));
        i = i + 1;
    }
    assert(draws@.take(n as int) =~= draws@);
    t
}

/// A fresh visitor token: `TOKEN_LENGTH` bytes drawn at random, read as
/// characters.
pub fn new_token() -> (t: String)
    ensures
        valid_token(t@),
{
    let mut draws: Vec<u8> = Vec::new();
    let mut i: usize = 0;
    while i < TOKEN_LENGTH
        invariant
            i <= TOKEN_LENGTH,
            draws@.len() == i,
            forall|j: int| 0 <= j < i ==> alphanumeric(#[trigger] draws@[j] as char),
        decreases TOKEN_LENGTH - i,
    {
        draws.push(sample_alphanumeric());
        i = i + 1;
    }
    let t = token_from_draws(&draws);
    assert forall|j: int| 0 <= j < t@.len() implies alphanumeric(#[trigger] t@[j]) by {
        assert(t@[j] == draws@[j] as char);
    }
    t
}

/// The token a visitor is answered with.
#[derive(Debug, PartialEq, Eq)]
pub enum TokenGrant {
    /// The token already kept in the visitor's session.
    Existing(String),
    /// A fresh token, to be logged in and kept in the session.
    Issued(String),
}

/// `g` is what a visitor whose session keeps `stored` is granted: the kept
/// token when there is one, a fresh valid token otherwise.
pub open spec fn granted(stored: Option<String>, g: TokenGrant) -> bool {
    match stored {
        Some(t) => g == TokenGrant::Existing(t),
        None => g matches TokenGrant::Issued(t) && valid_token(t@),
    }
}

/// The token a grant answers with.
pub open spec fn granted_token(g: TokenGrant) -> String {
    match g {
        TokenGrant::Existing(t) => t,
        TokenGrant::Issued(t) => t,
    }
}

/// The token the session keeps after a request that was granted `g`: a
/// freshly issued token is kept when its login succeeded; otherwise the
/// session keeps what it kept before.
pub open spec fn kept_after(stored: Option<String>, g: TokenGrant, login_ok: bool) -> Option<String> {
    match g {
        TokenGrant::Issued(t) => if login_ok { Some(t) } else { stored },
        TokenGrant::Existing(_) => stored,
    }
}

/// A second token request on the same session is answered with the same
/// token as the first, and no new token is drawn: when the first request
/// found a kept token, or was issued one whose login succeeded, the second
/// gets that token back as `Existing`.
pub proof fn lemma_same_session_same_token(
    stored: Option<String>,
    first: TokenGrant,
    login_ok: bool,
    second: TokenGrant,
)
    requires
        granted(stored, first),
        first is Existing || login_ok,
        granted(kept_after(stored, first, login_ok), second),
    ensures
        second == TokenGrant::Existing(granted_token(first)),
{
}

/// The token for a visitor whose session keeps `stored`: that one when
/// there is one, a fresh one otherwise.
pub fn grant_token(stored: Option<String>) -> (g: TokenGrant)
    ensures
        granted(stored, g),
        match stored {
            Some(t) => g == TokenGrant::Existing(t),
            None => g matches TokenGrant::Issued(t) && valid_token(t@),
        },
{
    match stored {
        Some(t) => TokenGrant::Existing(t),
        None => TokenGrant::Issued(new_token()),
    }
}

} // verus!
