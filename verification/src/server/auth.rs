//! The bearer-token guard: from a request's `Authorization` header and the
//! current signing keys to the verified claims, or to the reason for turning
//! the request away.
//!
//! A request passes the steps in this order, and the first failure decides:
//! the token is taken from the header, the key identifier is read from the
//! token's header, the key of that identifier is looked up, the signature is
//! checked with it, and the claims are checked.

use vstd::prelude::*;
use vstd::string::*;
use crate::server::cache::CacheError;
use crate::server::jwt::{
    decode_header_key_id,
    decode_payload,
    header_key_id,
    integer_claim,
    integer_claims,
    rs256_validation,
    rsa_components_accepted,
    rsa_decoding_key,
    text_claim,
    text_claims,
};
use crate::server::keys::{find_key, first_match, text_equals, JsonWebKeySet, JwkView};

verus! {

/// Why a request is turned away.
#[derive(Clone, Copy, Debug, PartialEq, Eq, Structural)]
pub enum Rejection {
    /// The token or its header is malformed.
    BadRequest,
    /// The token is missing, invalid, expired or not meant for this service.
    Unauthorized,
    /// The key cache or the key material failed.
    InternalError,
}

impl Rejection {
    /// The HTTP status that stands for the rejection.
    pub open spec fn status(self) -> int {
        match self {
            Rejection::BadRequest => 400,
            Rejection::Unauthorized => 401,
            Rejection::InternalError => 500,
        }
    }

    /// The HTTP status code to answer with.
    pub fn status_code(&self) -> (code: u16)
        ensures
            code == self.status(),
    {
        match self {
            Rejection::BadRequest => 400,
            Rejection::Unauthorized => 401,
            Rejection::InternalError => 500,
        }
    }
}

/// The `Authorization` header of a request as the guard sees it.
#[derive(Debug)]
pub enum AuthorizationHeader {
    /// The request has no such header.
    Missing,
    /// The header's value is not text.
    NotText,
    /// The header's value.
    Text(String),
}

/// The claims of an access token.
#[derive(Debug)]
pub struct CognitoClaims {
    /// Subject: the user's identifier.
    pub sub: String,
    /// Issuer.
    pub iss: String,
    /// The client that the token was issued to.
    pub client_id: String,
    /// Identifier of the session's first token.
    pub origin_jti: String,
    /// What the token is for: `access` or `id`.
    pub token_use: String,
    /// Granted scopes.
    pub scope: String,
    /// Time of authentication, seconds since the epoch.
    pub auth_time: i64,
    /// Expiry, seconds since the epoch.
    pub exp: i64,
    /// Time of issue, seconds since the epoch.
    pub iat: i64,
    /// Identifier of the token.
    pub jti: String,
    /// The user's email address.
    pub email: String,
}

/// The mathematical content of [`CognitoClaims`].
pub struct ClaimsView {
    pub sub: Seq<char>,
    pub iss: Seq<char>,
    pub client_id: Seq<char>,
    pub origin_jti: Seq<char>,
    pub token_use: Seq<char>,
    pub scope: Seq<char>,
    pub auth_time: int,
    pub exp: int,
    pub iat: int,
    pub jti: Seq<char>,
    pub email: Seq<char>,
}

impl View for CognitoClaims {
    type V = ClaimsView;

    open spec fn view(&self) -> ClaimsView {
        ClaimsView {
            sub: self.sub@,
            iss: self.iss@,
            client_id: self.client_id@,
            origin_jti: self.origin_jti@,
            token_use: self.token_use@,
            scope: self.scope@,
            auth_time: self.auth_time as int,
            exp: self.exp as int,
            iat: self.iat as int,
            jti: self.jti@,
            email: self.email@,
        }
    }
}

/// The scheme that the header must begin with, blank included.
pub open spec fn bearer_prefix() -> Seq<char> {
    "Bearer "@
}

/// Whether `text` begins with `prefix`.
pub open spec fn starts_with(text: Seq<char>, prefix: Seq<char>) -> bool {
    prefix.len() <= text.len() && text.subrange(0, prefix.len() as int) == prefix
}

/// The token that a header carries: what follows the scheme, where the header
/// is text that begins with it.
pub open spec fn bearer_token(header: AuthorizationHeader) -> Option<Seq<char>> {
    match header {
        AuthorizationHeader::Text(value) => if starts_with(value@, bearer_prefix()) {
            Some(value@.skip(bearer_prefix().len() as int))
        } else {
            None
        },
        _ => None,
    }
}

/// The key identifier in a token's header; a header that cannot be decoded,
/// or that names no key, is a bad request.
pub open spec fn key_id_of(token: Seq<char>) -> Result<Seq<char>, Rejection> {
    match header_key_id(token) {
        Some(Some(kid)) => Ok(kid),
        _ => Err(Rejection::BadRequest),
    }
}

/// The keys that the cache handed out, if it did.
pub open spec fn available_keys(keys: Result<JsonWebKeySet, CacheError>) -> Option<Seq<JwkView>> {
    match keys {
        Ok(jwks) => Some(jwks@),
        Err(_) => None,
    }
}

/// The key to check a token with. No keys at all is an internal error, no key
/// of that identifier leaves the token unauthorized, and a key whose modulus
/// or exponent cannot be decoded is an internal error again.
pub open spec fn key_selection(keys: Option<Seq<JwkView>>, kid: Seq<char>) -> Result<
    JwkView,
    Rejection,
> {
    match keys {
        None => Err(Rejection::InternalError),
        Some(keys) => match first_match(keys, kid) {
            None => Err(Rejection::Unauthorized),
            Some(key) => if rsa_components_accepted(key.n, key.e) {
                Ok(key)
            } else {
                Err(Rejection::InternalError)
            },
        },
    }
}

/// The rejection that is decided before any signature is looked at, if there
/// is one: `None` means that the token reaches the signature check.
pub open spec fn early_rejection(
    header: AuthorizationHeader,
    keys: Option<Seq<JwkView>>,
) -> Option<Rejection> {
    match bearer_token(header) {
        None => Some(Rejection::Unauthorized),
        Some(token) => match key_id_of(token) {
            Err(rejection) => Some(rejection),
            Ok(kid) => match key_selection(keys, kid) {
                Err(rejection) => Some(rejection),
                Ok(_) => None,
            },
        },
    }
}

/// The claims that a decoded payload holds: all eleven must be there, texts as
/// JSON strings and times as integers.
pub open spec fn payload_claims(payload: serde_json::Value) -> Option<ClaimsView> {
    let texts = text_claims(payload);
    let numbers = integer_claims(payload);
    if texts.contains_key("sub"@) && texts.contains_key("iss"@) && texts.contains_key("client_id"@)
        && texts.contains_key("origin_jti"@) && texts.contains_key("token_use"@)
        && texts.contains_key("scope"@) && numbers.contains_key("auth_time"@)
        && numbers.contains_key("exp"@) && numbers.contains_key("iat"@) && texts.contains_key(
        "jti"@,
    ) && texts.contains_key("email"@) {
        Some(
            ClaimsView {
                sub: texts["sub"@],
                iss: texts["iss"@],
                client_id: texts["client_id"@],
                origin_jti: texts["origin_jti"@],
                token_use: texts["token_use"@],
                scope: texts["scope"@],
                auth_time: numbers["auth_time"@],
                exp: numbers["exp"@],
                iat: numbers["iat"@],
                jti: texts["jti"@],
                email: texts["email"@],
            },
        )
    } else {
        None
    }
}

/// What the guard asks of verified claims at time `now`: not expired, an
/// access token, and issued to the expected client.
pub open spec fn claims_admissible(claims: ClaimsView, client_id: Seq<char>, now: int) -> bool {
    claims.exp >= now && claims.token_use == "access"@ && claims.client_id == client_id
}

/// What becomes of a payload whose signature was found good.
pub open spec fn payload_verdict(payload: serde_json::Value, client_id: Seq<char>, now: int) -> Result<
    ClaimsView,
    Rejection,
> {
    match payload_claims(payload) {
        Some(claims) => if claims_admissible(claims, client_id, now) {
            Ok(claims)
        } else {
            Err(Rejection::Unauthorized)
        },
        None => Err(Rejection::Unauthorized),
    }
}

/// What becomes of the outcome of the signature check.
pub open spec fn decoded_verdict(
    decoded: Result<serde_json::Value, jsonwebtoken::errors::Error>,
    client_id: Seq<char>,
    now: int,
) -> Result<ClaimsView, Rejection> {
    match decoded {
        Ok(payload) => payload_verdict(payload, client_id, now),
        Err(_) => Err(Rejection::Unauthorized),
    }
}

/// Whether `text` begins with `prefix`.
pub fn has_prefix(text: &str, prefix: &str) -> (found: bool)
    ensures
        found == starts_with(text@, prefix@),
{
    let text_len = text.unicode_len();
    let prefix_len = prefix.unicode_len();
    if prefix_len > text_len {
        return false;
    }
    let mut i: usize = 0;
    while i < prefix_len
        invariant
            i <= prefix_len <= text_len,
            prefix_len == prefix@.len(),
            text_len == text@.len(),
            forall|j: int| 0 <= j < i ==> text@[j] == prefix@[j],
        decreases prefix_len - i,
    {
        if text.get_char(i) != prefix.get_char(i) {
            assert(text@.subrange(0, prefix@.len() as int)[i as int] != prefix@[i as int]);
            return false;
        }
        i += 1;
    }
    assert(text@.subrange(0, prefix@.len() as int) =~= prefix@);
    true
}

/// Takes the token out of the `Authorization` header. A request without the
/// header, with one that is not text, or with one that does not begin with
/// `Bearer ` is unauthorized.
pub fn extract_token(header: &AuthorizationHeader) -> (token: Result<&str, Rejection>)
    ensures
        match bearer_token(*header) {
            Some(expected) => token matches Ok(found) && found@ == expected,
            None => token == Err::<&str, Rejection>(Rejection::Unauthorized),
        },
{
    match header {
        AuthorizationHeader::Text(value) => {
            let text = value.as_str();
            proof {
                reveal_strlit("Bearer ");
            }
            if !has_prefix(text, "Bearer ") {
                return Err(Rejection::Unauthorized);
            }
            let len = text.unicode_len();
            let token = text.substring_char(7, len);
            assert(token@ =~= value@.skip(7));
            Ok(token)
        },
        _ => Err(Rejection::Unauthorized),
    }
}

/// Reads the key identifier from a token's header, without checking the
/// signature. A header that cannot be decoded, or that names no key, is a bad
/// request.
pub fn decode_key_id(token: &str) -> (kid: Result<String, Rejection>)
    ensures
        match kid {
            Ok(found) => key_id_of(token@) == Ok::<Seq<char>, Rejection>(found@),
            Err(rejection) => key_id_of(token@) == Err::<Seq<char>, Rejection>(rejection),
        },
{
    match decode_header_key_id(token) {
        Ok(Some(kid)) => Ok(kid),
        Ok(None) => Err(Rejection::BadRequest),
        Err(_) => Err(Rejection::BadRequest),
    }
}

/// Reads the claims from a decoded payload. All eleven must be there, texts
/// as JSON strings and times as integers; other members are ignored.
pub fn claims_from_payload(payload: &serde_json::Value) -> (claims: Option<CognitoClaims>)
    ensures
        match claims {
            Some(found) => payload_claims(*payload) == Some(found@),
            None => payload_claims(*payload).is_none(),
        },
{
    let sub = match text_claim(payload, "sub") {
        Some(text) => text,
        None => return None,
    };
    let iss = match text_claim(payload, "iss") {
        Some(text) => text,
        None => return None,
    };
    let client_id = match text_claim(payload, "client_id") {
        Some(text) => text,
        None => return None,
    };
    let origin_jti = match text_claim(payload, "origin_jti") {
        Some(text) => text,
        None => return None,
    };
    let token_use = match text_claim(payload, "token_use") {
        Some(text) => text,
        None => return None,
    };
    let scope = match text_claim(payload, "scope") {
        Some(text) => text,
        None => return None,
    };
    let auth_time = match integer_claim(payload, "auth_time") {
        Some(number) => number,
        None => return None,
    };
    let exp = match integer_claim(payload, "exp") {
        Some(number) => number,
        None => return None,
    };
    let iat = match integer_claim(payload, "iat") {
        Some(number) => number,
        None => return None,
    };
    let jti = match text_claim(payload, "jti") {
        Some(text) => text,
        None => return None,
    };
    let email = match text_claim(payload, "email") {
        Some(text) => text,
        None => return None,
    };
    Some(
        CognitoClaims {
            sub,
            iss,
            client_id,
            origin_jti,
            token_use,
            scope,
            auth_time,
            exp,
            iat,
            jti,
            email,
        },
    )
}

/// Checks verified claims at time `now` (seconds since the epoch): an expired
/// token, one that is not an access token, and one issued to another client
/// are all unauthorized. Claims that pass are handed back unchanged.
pub fn validate_claims(claims: CognitoClaims, client_id: &str, now: u64) -> (checked: Result<
    CognitoClaims,
    Rejection,
>)
    ensures
        claims_admissible(claims@, client_id@, now as int) ==> checked == Ok::<
            CognitoClaims,
            Rejection,
        >(claims),
        !claims_admissible(claims@, client_id@, now as int) ==> checked == Err::<
            CognitoClaims,
            Rejection,
        >(Rejection::Unauthorized),
{
    if claims.exp < 0 || (claims.exp as u64) < now {
        return Err(Rejection::Unauthorized);
    }
    if !text_equals(&claims.token_use, "access") {
        return Err(Rejection::Unauthorized);
    }
    if !text_equals(&claims.client_id, client_id) {
        return Err(Rejection::Unauthorized);
    }
    Ok(claims)
}

/// Decides on what the signature check handed out: where it failed the token
/// is unauthorized, and where it handed out a payload the claims are read and
/// checked at time `now`.
pub fn admit_decoded(
    decoded: &Result<serde_json::Value, jsonwebtoken::errors::Error>,
    client_id: &str,
    now: u64,
) -> (admitted: Result<CognitoClaims, Rejection>)
    ensures
        match admitted {
            Ok(claims) => decoded_verdict(*decoded, client_id@, now as int) == Ok::<
                ClaimsView,
                Rejection,
            >(claims@),
            Err(rejection) => decoded_verdict(*decoded, client_id@, now as int) == Err::<
                ClaimsView,
                Rejection,
            >(rejection),
        },
{
    match decoded {
        Ok(payload) => match claims_from_payload(payload) {
            Some(claims) => validate_claims(claims, client_id, now),
            None => Err(Rejection::Unauthorized),
        },
        Err(_) => Err(Rejection::Unauthorized),
    }
}

/// Checks a token whose key identifier is `kid` against the keys that the
/// cache handed out. The signature is checked with RSA and SHA-256 whatever
/// algorithm the token's header names.
///
/// Up to the choice of the key the outcome is fixed by the arguments. Whether
/// the signature holds is for the `jsonwebtoken` crate to say: where it says
/// no the token is unauthorized, and what it lets through is still checked
/// here, so that admitted claims are always admissible at `now`.
pub fn authorize(
    token: &str,
    kid: &str,
    keys: &Result<JsonWebKeySet, CacheError>,
    client_id: &str,
    now: u64,
) -> (admitted: Result<CognitoClaims, Rejection>)
    ensures
        match key_selection(available_keys(*keys), kid@) {
            Err(rejection) => admitted == Err::<CognitoClaims, Rejection>(rejection),
            Ok(_) => match admitted {
                Ok(claims) => claims_admissible(claims@, client_id@, now as int),
                Err(rejection) => rejection == Rejection::Unauthorized,
            },
        },
{
    let jwks = match keys {
        Ok(jwks) => jwks,
        Err(_) => return Err(Rejection::InternalError),
    };
    let jwk = match find_key(jwks, kid) {
        Some(jwk) => jwk,
        None => return Err(Rejection::Unauthorized),
    };
    let decoding_key = match rsa_decoding_key(jwk.n.as_str(), jwk.e.as_str()) {
        Ok(key) => key,
        Err(_) => return Err(Rejection::InternalError),
    };
    let validation = rs256_validation();
    let decoded = decode_payload(token, &decoding_key, &validation);
    admit_decoded(&decoded, client_id, now)
}

/// The guard as a whole: from the request's header and the answer of the key
/// cache to the verified claims, or to the rejection. `now` is the time of the
/// request in seconds since the epoch.
pub fn verify_jwt(
    header: &AuthorizationHeader,
    keys: &Result<JsonWebKeySet, CacheError>,
    client_id: &str,
    now: u64,
) -> (admitted: Result<CognitoClaims, Rejection>)
    ensures
        match early_rejection(*header, available_keys(*keys)) {
            Some(rejection) => admitted == Err::<CognitoClaims, Rejection>(rejection),
            None => match admitted {
                Ok(claims) => claims_admissible(claims@, client_id@, now as int),
                Err(rejection) => rejection == Rejection::Unauthorized,
            },
        },
{
    let token = match extract_token(header) {
        Ok(token) => token,
        Err(rejection) => return Err(rejection),
    };
    let kid = match decode_key_id(token) {
        Ok(kid) => kid,
        Err(rejection) => return Err(rejection),
    };
    authorize(token, kid.as_str(), keys, client_id, now)
}


/// A request without the header, with a header that is not text, or with a
/// scheme other than `Bearer` is unauthorized, whatever the keys are.
pub proof fn lemma_no_bearer_token_unauthorized(
    header: AuthorizationHeader,
    keys: Option<Seq<JwkView>>,
)
    requires
        header matches AuthorizationHeader::Text(value) ==> !starts_with(value@, bearer_prefix()),
    ensures
        early_rejection(header, keys) == Some(Rejection::Unauthorized),
{
}

/// A token whose key identifier no key of the current set carries is
/// unauthorized.
pub proof fn lemma_unknown_key_unauthorized(
    header: AuthorizationHeader,
    keys: Seq<JwkView>,
    kid: Seq<char>,
)
    requires
        bearer_token(header) matches Some(token) && key_id_of(token) == Ok::<Seq<char>, Rejection>(
            kid,
        ),
        forall|i: int| 0 <= i < keys.len() ==> (#[trigger] keys[i]).kid != kid,
    ensures
        early_rejection(header, Some(keys)) == Some(Rejection::Unauthorized),
{
    crate::server::keys::lemma_first_match(keys, kid);
}

/// A token that is not an access token is unauthorized even with a good
/// signature.
pub proof fn lemma_other_token_use_unauthorized(
    payload: serde_json::Value,
    client_id: Seq<char>,
    now: int,
)
    requires
        payload_claims(payload) matches Some(claims) && claims.token_use != "access"@,
    ensures
        payload_verdict(payload, client_id, now) == Err::<ClaimsView, Rejection>(
            Rejection::Unauthorized,
        ),
{
}

/// An expired token is unauthorized even with a good signature and with every
/// other claim as expected.
pub proof fn lemma_expired_unauthorized(payload: serde_json::Value, client_id: Seq<char>, now: int)
    requires
        payload_claims(payload) matches Some(claims) && claims.exp < now,
    ensures
        payload_verdict(payload, client_id, now) == Err::<ClaimsView, Rejection>(
            Rejection::Unauthorized,
        ),
{
}

/// A token issued to another client is unauthorized even with a good
/// signature.
pub proof fn lemma_other_client_unauthorized(
    payload: serde_json::Value,
    client_id: Seq<char>,
    now: int,
)
    requires
        payload_claims(payload) matches Some(claims) && claims.client_id != client_id,
    ensures
        payload_verdict(payload, client_id, now) == Err::<ClaimsView, Rejection>(
            Rejection::Unauthorized,
        ),
{
}

/// Every rejection answers with one of the three statuses.
pub proof fn lemma_three_statuses(rejection: Rejection)
    ensures
        rejection.status() == 400 || rejection.status() == 401 || rejection.status() == 500,
{
}

} // verus!
