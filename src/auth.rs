//! Account messages of the service, and how a bearer token is read from an
//! authorization header.

use vstd::prelude::*;

verus! {

/// Claims carried by a session token.
#[derive(Clone, Debug)]
pub struct Claims {
    /// User id.
    pub sub: String,
    pub email: String,
    /// Expiry, in seconds since the Unix epoch.
    pub exp: usize,
    /// Issue time, in seconds since the Unix epoch.
    pub iat: usize,
}

#[derive(Clone, Debug)]
pub struct LoginRequest {
    pub email: String,
    pub password: String,
}

#[derive(Clone, Debug)]
pub struct RegisterRequest {
    pub email: String,
    pub password: String,
    pub country_code: Option<String>,
    pub language: Option<String>,
}

/// A user's profile, without credentials.
#[derive(Clone, Debug)]
pub struct UserResponse {
    pub id: String,
    pub email: String,
    pub country_code: String,
    pub language: String,
    pub created_at: String,
}

/// Answer to a successful login or registration.
#[derive(Clone, Debug)]
pub struct AuthResponse {
    pub token: String,
    pub user: UserResponse,
}

/// Scheme word that opens a bearer authorization header, with its space.
pub const BEARER_PREFIX: &'static str = "Bearer ";

pub open spec fn bearer_prefix() -> Seq<char> {
    seq!['B', 'e', 'a', 'r', 'e', 'r', ' ']
}

/// Whether `s` holds `p` at position `i`.
pub open spec fn holds_at(s: Seq<char>, i: int, p: Seq<char>) -> bool {
    0 <= i && i + p.len() <= s.len() && s.subrange(i, i + p.len()) == p
}

/// `s` with every leading repetition of the bearer prefix removed.
pub open spec fn strip_bearer(s: Seq<char>) -> Seq<char>
    decreases s.len(),
{
    if holds_at(s, 0, bearer_prefix()) {
        strip_bearer(s.skip(7))
    } else {
        s
    }
}

/// The token of an authorization header: present only when the header opens
/// with the bearer prefix, and then the header with all leading repetitions
/// of that prefix removed.
pub open spec fn bearer_token_of(header: Seq<char>) -> Option<Seq<char>> {
    if holds_at(header, 0, bearer_prefix()) {
        Some(strip_bearer(header))
    } else {
        None
    }
}

fn holds_prefix_at(s: &str, n: usize, i: usize) -> (r: bool)
    requires
        n == s@.len(),
        i <= n,
    ensures
        r == holds_at(s@, i as int, bearer_prefix()),
{
    let p = BEARER_PREFIX;
    proof {
        reveal_strlit("Bearer ");
    }
    assert(p@ == bearer_prefix());
    if n - i < 7 {
        return false;
    }
    let mut j: usize = 0;
    while j < 7
        invariant
            j <= 7,
            i + 7 <= n,
            n == s@.len(),
            p@ == bearer_prefix(),
            forall|k: int| 0 <= k < j ==> s@[i + k] == bearer_prefix()[k],
        decreases 7 - j,
    {
        if s.get_char(i + j) != p.get_char(j) {
            assert(s@.subrange(i as int, i + 7)[j as int] != bearer_prefix()[j as int]);
            return false;
        }
        j += 1;
    }
    assert(s@.subrange(i as int, i + 7) =~= bearer_prefix());
    true
}

/// The bearer token of an authorization header, if it has one.
pub fn bearer_token(header: &str) -> (r: Option<String>)
    ensures
        r is None <==> bearer_token_of(header@) is None,
        r is Some ==> bearer_token_of(header@) == Some(r->0@),
{
    let n: usize = header.unicode_len();
    if !holds_prefix_at(header, n, 0) {
        return None;
    }
    let mut i: usize = 0;
    assert(header@.skip(0) =~= header@);
    while holds_prefix_at(header, n, i)
        invariant
            i <= n,
            n == header@.len(),
            strip_bearer(header@.skip(i as int)) == strip_bearer(header@),
        decreases n - i,
    {
        let ghost rest = header@.skip(i as int);
        assert(rest.subrange(0, 7) =~= header@.subrange(i as int, i + 7));
        assert(rest.skip(7) =~= header@.skip(i + 7));
        i = i + 7;
    }
    let ghost rest = header@.skip(i as int);
    assert(!holds_at(rest, 0, bearer_prefix())) by {
        if holds_at(rest, 0, bearer_prefix()) {
            assert(rest.subrange(0, 7) =~= header@.subrange(i as int, i + 7));
        }
    }
    let token = header.substring_char(i, n);
    assert(token@ =~= rest);
    Some(token.to_string())
}

} // verus!
