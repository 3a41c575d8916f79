//! Token codec: issuing and verifying signed bearer tokens.
//!
//! A token carries a subject username and an expiry instant, is signed
//! with a process-wide secret, and is valid only while the signature
//! verifies and the expiry lies in the future. The signing and the
//! signature check are done by the `jsonwebtoken` crate; both are
//! functions of the token text and the secret alone, so their results are
//! named by uninterpreted spec functions and every contract above speaks
//! of those names.

use vstd::prelude::*;

use jsonwebtoken::errors::ErrorKind;
use jsonwebtoken::{decode, encode, Algorithm, DecodingKey, EncodingKey, Header, Validation};
use serde_json::Value;

use crate::errors::AuthError;

verus! {

/// How long a freshly issued token stays valid, in seconds.
pub const TOKEN_TTL_SECS: usize = 1800;

/// The signed payload carried inside a token: subject username and
/// expiry, in seconds of some fixed epoch.
#[derive(Debug)]
pub struct Claims {
    /// Username
    pub sub: String,
    /// Expiration
    pub exp: usize,
}

/// Mathematical image of `Claims`.
pub struct ClaimsModel {
    pub sub: Seq<char>,
    pub exp: usize,
}

impl View for Claims {
    type V = ClaimsModel;

    open spec fn view(&self) -> ClaimsModel {
        ClaimsModel { sub: self.sub@, exp: self.exp }
    }
}

impl Claims {
    /// Claims for a subject at issue time `now`: the expiry is a rolling
    /// window of `TOKEN_TTL_SECS` past the issue instant.
    pub fn new(username: String, now: usize) -> (r: Claims)
        requires
            now + TOKEN_TTL_SECS <= usize::MAX,
        ensures
            r.sub@ == username@,
            r.exp == now + TOKEN_TTL_SECS,
    {
        Claims { sub: username, exp: now + TOKEN_TTL_SECS }
    }
}

/// Why verification of a token failed.
#[derive(Clone, Copy, Debug, PartialEq, Eq, Structural)]
pub enum TokenError {
    /// The token does not parse as a signed claims document.
    Malformed,
    /// The token parses but its signature does not verify against the
    /// secret.
    BadSignature,
    /// Signature and shape are good, but the expiry is not in the future.
    Expired,
}

/// What decoding a token text against a secret yields, before any expiry
/// check: the claims it carries, or the reason it is rejected.
pub enum DecodeOutcome {
    Claims { sub: Seq<char>, exp: usize },
    Malformed,
    BadSignature,
}

/// The token text that signing the claims `(sub, exp)` with `secret`
/// produces, as computed by `jsonwebtoken::encode` under its default
/// HS256 header.
pub uninterp spec fn token_of(sub: Seq<char>, exp: usize, secret: Seq<u8>) -> Seq<char>;

/// What `jsonwebtoken::decode` yields for a token text and a secret, with
/// the signature checked and the expiry deliberately left to the caller.
pub uninterp spec fn decode_of(token: Seq<char>, secret: Seq<u8>) -> DecodeOutcome;

/// Relies on jsonwebtoken::encode with the default HS256 header: for a
/// given subject, expiry and secret the token text is determined, and
/// decoding that text with the same secret yields the same claims back.
#[verifier::external_body]
fn jwt_encode(sub: &String, exp: usize, secret: &Vec<u8>) -> (r: Option<String>)
    ensures
        r matches Some(token) ==> {
            &&& token@ == token_of(sub@, exp, secret@)
            &&& decode_of(token@, secret@) == (DecodeOutcome::Claims { sub: sub@, exp })
        },
{
    let mut claims = serde_json::Map::new();
    claims.insert("sub".to_string(), Value::String(sub.clone()));
    claims.insert("exp".to_string(), Value::from(exp as u64));
    let key = EncodingKey::from_secret(secret.as_slice());
    encode(&Header::default(), &Value::Object(claims), &key).ok()
}

/// Relies on jsonwebtoken::decode over HS256 with expiry validation
/// switched off: the outcome is a function of the token text and the
/// secret alone; a mismatched signature is the only cause reported as
/// `BadSignature`, and the expiry is never judged here.
#[verifier::external_body]
fn jwt_decode(token: &String, secret: &Vec<u8>) -> (r: Result<Claims, TokenError>)
    ensures
        r matches Ok(c) ==> decode_of(token@, secret@) == (DecodeOutcome::Claims {
            sub: c.sub@,
            exp: c.exp,
        }),
        r matches Err(e) ==> match e {
            TokenError::Malformed => decode_of(token@, secret@) == DecodeOutcome::Malformed,
            TokenError::BadSignature => decode_of(token@, secret@)
                == DecodeOutcome::BadSignature,
            TokenError::Expired => false,
        },
{
    let mut validation = Validation::new(Algorithm::HS256);
    validation.validate_exp = false;
    validation.required_spec_claims.clear();
    let key = DecodingKey::from_secret(secret.as_slice());
    let data = decode::<Value>(token.as_str(), &key, &validation).map_err(|e| match e.kind() {
        ErrorKind::InvalidSignature => TokenError::BadSignature,
        _ => TokenError::Malformed,
    })?;
    let sub = data.claims.get("sub").and_then(|v| v.as_str()).ok_or(TokenError::Malformed)?;
    let exp = data.claims.get("exp").and_then(|v| v.as_u64()).ok_or(TokenError::Malformed)?;
    if exp > usize::MAX as u64 {
        return Err(TokenError::Malformed);
    }
    Ok(Claims { sub: sub.to_string(), exp: exp as usize })
}

/// What verifying a token at instant `now` yields, given its decode
/// outcome: the decode verdict first, then the expiry rule
/// `now < exp`.
pub open spec fn verify_model(outcome: DecodeOutcome, now: usize) -> Result<
    ClaimsModel,
    TokenError,
> {
    match outcome {
        DecodeOutcome::Claims { sub, exp } => if now >= exp {
            Err(TokenError::Expired)
        } else {
            Ok(ClaimsModel { sub, exp })
        },
        DecodeOutcome::Malformed => Err(TokenError::Malformed),
        DecodeOutcome::BadSignature => Err(TokenError::BadSignature),
    }
}

/// Signs and verifies tokens under one injected secret. The secret is
/// process-wide configuration, loaded once at startup; rotating it
/// invalidates every previously issued token.
pub struct TokenCodec {
    secret: Vec<u8>,
}

impl TokenCodec {
    /// The signing secret, visible to specifications only.
    pub closed spec fn secret_bytes(self) -> Seq<u8> {
        self.secret@
    }

    pub fn new(secret: Vec<u8>) -> (r: TokenCodec)
        ensures
            r.secret_bytes() == secret@,
    {
        TokenCodec { secret }
    }

    /// Issues a token for `subject` at instant `now`, expiring
    /// `TOKEN_TTL_SECS` later. Fails only when the signing backend does.
    pub fn issue(&self, subject: &String, now: usize) -> (r: Result<String, AuthError>)
        requires
            now + TOKEN_TTL_SECS <= usize::MAX,
        ensures
            r matches Ok(token) ==> {
                &&& token@ == token_of(subject@, (now + TOKEN_TTL_SECS) as usize, self.secret_bytes())
                &&& decode_of(token@, self.secret_bytes()) == (DecodeOutcome::Claims {
                    sub: subject@,
                    exp: (now + TOKEN_TTL_SECS) as usize,
                })
            },
            r matches Err(e) ==> e == AuthError::TokenCreation,
    {
        let exp = now + TOKEN_TTL_SECS;
        match jwt_encode(subject, exp, &self.secret) {
            Some(token) => Ok(token),
            None => Err(AuthError::TokenCreation),
        }
    }

    /// Verifies a token at instant `now`: decodes and checks the
    /// signature, then requires the expiry to lie strictly in the future.
    /// On success the claims are returned unchanged.
    pub fn verify(&self, token: &String, now: usize) -> (r: Result<Claims, TokenError>)
        ensures
            ({
                let m = verify_model(decode_of(token@, self.secret_bytes()), now);
                match r {
                    Ok(claims) => m == Ok::<ClaimsModel, TokenError>(claims@),
                    Err(e) => m == Err::<ClaimsModel, TokenError>(e),
                }
            }),
    {
        match jwt_decode(token, &self.secret) {
            Ok(claims) => {
                if now >= claims.exp {
                    Err(TokenError::Expired)
                } else {
                    Ok(claims)
                }
            },
            Err(e) => Err(e),
        }
    }
}

/// A freshly issued token verifies before its expiry and returns the same
/// subject: verification of a token whose decode outcome carries claims
/// `(sub, exp)` — which `issue` guarantees of the tokens it returns —
/// succeeds at every instant strictly before `exp` and yields exactly
/// those claims.
pub proof fn lemma_issued_token_verifies(sub: Seq<char>, exp: usize, secret: Seq<u8>, now: usize)
    requires
        decode_of(token_of(sub, exp, secret), secret) == (DecodeOutcome::Claims { sub, exp }),
        now < exp,
    ensures
        verify_model(decode_of(token_of(sub, exp, secret), secret), now) == Ok::<
            ClaimsModel,
            TokenError,
        >(ClaimsModel { sub, exp }),
{
}

/// A token whose signature does not verify against the secret is always
/// rejected with `BadSignature`, at every instant: the expiry check never
/// rescues it and verification never succeeds on it.
pub proof fn lemma_bad_signature_never_verifies(token: Seq<char>, secret: Seq<u8>, now: usize)
    requires
        decode_of(token, secret) == DecodeOutcome::BadSignature,
    ensures
        verify_model(decode_of(token, secret), now) == Err::<ClaimsModel, TokenError>(
            TokenError::BadSignature,
        ),
{
}

/// A token is rejected as expired from its expiry instant on: at any
/// instant `now >= exp` — in particular one second past the end of the
/// issuing window — verification fails with `Expired`, never succeeds.
pub proof fn lemma_token_expires(sub: Seq<char>, exp: usize, secret: Seq<u8>, now: usize)
    requires
        decode_of(token_of(sub, exp, secret), secret) == (DecodeOutcome::Claims { sub, exp }),
        now >= exp,
    ensures
        verify_model(decode_of(token_of(sub, exp, secret), secret), now) == Err::<
            ClaimsModel,
            TokenError,
        >(TokenError::Expired),
{
}

} // verus!
