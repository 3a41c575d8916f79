//! Identity Resolver: from an Authorization header to a resolved identity.
//!
//! Per request the resolver reads the header, splits it into scheme and
//! token, verifies the token, and loads the subject's account; any failure
//! short-circuits. A missing header is reported as `MissingCredentials`;
//! every later failure — unparsable header, bad or expired token, unknown
//! subject — collapses into one `InvalidToken`, so a client learns neither
//! which check failed nor whether an account exists. The resolver reads
//! and never writes: rejection is side-effect-free.

use vstd::prelude::*;

use crate::errors::AuthError;
use crate::fold::same_username;
use crate::schemas::{public_of, UserSchema};
use crate::token::{decode_of, verify_model, TokenCodec};
use crate::user_store::{has_username, UserRepository};

verus! {

/// The separators between the scheme and the token.
pub open spec fn is_space(c: char) -> bool {
    c == ' ' || c == '\t'
}

/// The first position at or after `i` whose space-ness is `want_space`,
/// or the end of the text.
pub open spec fn next_boundary(s: Seq<char>, i: int, want_space: bool) -> int
    decreases s.len() - i,
    when 0 <= i <= s.len()
{
    if i >= s.len() {
        s.len() as int
    } else if is_space(s[i]) == want_space {
        i
    } else {
        next_boundary(s, i + 1, want_space)
    }
}

/// `next_boundary` lands in range, on a position of the wanted kind, and
/// skips only positions of the other kind.
pub proof fn lemma_next_boundary(s: Seq<char>, i: int, want_space: bool)
    requires
        0 <= i <= s.len(),
    ensures
        ({
            let b = next_boundary(s, i, want_space);
            &&& i <= b <= s.len()
            &&& b < s.len() ==> is_space(s[b]) == want_space
            &&& forall|j: int| i <= j < b ==> is_space(#[trigger] s[j]) != want_space
        }),
    decreases s.len() - i,
{
    if i < s.len() && is_space(s[i]) != want_space {
        lemma_next_boundary(s, i + 1, want_space);
    }
}

/// The bearer token of an Authorization header text: the second
/// whitespace-separated segment, whatever the first says. Headers without
/// a second segment carry no token.
pub open spec fn spec_bearer_token(s: Seq<char>) -> Option<Seq<char>> {
    let scheme_start = next_boundary(s, 0, false);
    let scheme_end = next_boundary(s, scheme_start, true);
    let token_start = next_boundary(s, scheme_end, false);
    let token_end = next_boundary(s, token_start, true);
    if token_start >= s.len() {
        None
    } else {
        Some(s.subrange(token_start, token_end))
    }
}

/// Scans for the next position of the wanted kind, as `next_boundary`
/// describes.
fn scan(s: &str, from: usize, want_space: bool) -> (r: usize)
    requires
        from <= s@.len(),
    ensures
        from <= r <= s@.len(),
        r == next_boundary(s@, from as int, want_space),
{
    let len = s.unicode_len();
    let mut i = from;
    while i < len
        invariant
            from <= i <= len,
            len == s@.len(),
            next_boundary(s@, from as int, want_space) == next_boundary(s@, i as int, want_space),
        decreases len - i,
    {
        let c = s.get_char(i);
        let space = c == ' ' || c == '\t';
        if space == want_space {
            return i;
        }
        i = i + 1;
    }
    i
}

/// Extracts the bearer token from an Authorization header.
pub fn bearer_token(header: &String) -> (r: Option<String>)
    ensures
        r matches Some(t) ==> spec_bearer_token(header@) == Some(t@),
        r is None ==> spec_bearer_token(header@) is None,
{
    let s = header.as_str();
    let len = s.unicode_len();
    let scheme_start = scan(s, 0, false);
    let scheme_end = scan(s, scheme_start, true);
    let token_start = scan(s, scheme_end, false);
    let token_end = scan(s, token_start, true);
    if token_start >= len {
        None
    } else {
        Some(s.substring_char(token_start, token_end).to_owned())
    }
}

/// Resolves the identity behind a request's Authorization header at
/// instant `now`: absent header, then token extraction, then token
/// verification, then account lookup by the claims' subject; the resolved
/// identity is the public projection of that account.
pub fn resolve(header: Option<&String>, codec: &TokenCodec, users: &UserRepository, now: usize) -> (r:
    Result<UserSchema, AuthError>)
    requires
        users.wf(),
    ensures
        match r {
            Ok(identity) => {
                &&& header matches Some(h)
                &&& spec_bearer_token(h@) matches Some(tok)
                &&& verify_model(decode_of(tok, codec.secret_bytes()), now) matches Ok(claims)
                &&& exists|i: int|
                    0 <= i < users.rows().len() && same_username(
                        (#[trigger] users.rows()[i]).username,
                        claims.sub,
                    ) && identity@ == public_of(users.rows()[i])
            },
            Err(e) => match header {
                None => e == AuthError::MissingCredentials,
                Some(h) => e == AuthError::InvalidToken && !(spec_bearer_token(h@) matches Some(tok)
                    && verify_model(decode_of(tok, codec.secret_bytes()), now) matches Ok(claims)
                    && has_username(users.rows(), claims.sub)),
            },
        },
{
    let h = match header {
        None => {
            return Err(AuthError::MissingCredentials);
        },
        Some(h) => h,
    };
    let token = match bearer_token(h) {
        None => {
            return Err(AuthError::InvalidToken);
        },
        Some(t) => t,
    };
    let claims = match codec.verify(&token, now) {
        Err(_) => {
            return Err(AuthError::InvalidToken);
        },
        Ok(c) => c,
    };
    match users.find_one_by_username(&claims.sub) {
        None => Err(AuthError::InvalidToken),
        Some(account) => {
            let identity = UserSchema::of_user(&account);
            proof {
                let i = choose|i: int|
                    0 <= i < users.rows().len() && #[trigger] users.rows()[i] == account@;
                assert(same_username(users.rows()[i].username, claims.sub@) && identity@
                    == public_of(users.rows()[i]));
            }
            Ok(identity)
        },
    }
}

} // verus!
