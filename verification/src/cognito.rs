//! The key set of a Cognito user pool as its well-known document gives it.

use vstd::prelude::*;

verus! {

/// The keys of a user pool, in the order of the document.
#[derive(Debug)]
pub struct CognitoJWKS {
    pub keys: Vec<Jwk>,
}

/// One key of the document.
#[derive(Debug)]
pub struct Jwk {
    /// Key identifier.
    pub kid: String,
    /// Key type.
    pub kty: String,
    /// Algorithm the key is meant for.
    pub alg: String,
    /// Modulus, base64url.
    pub n: String,
    /// Exponent, base64url.
    pub e: String,
    /// Intended usage of the key (the `use` member of the document).
    pub usage: String,
}

} // verus!
