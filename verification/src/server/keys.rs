//! Signing keys as the identity provider publishes them.

use vstd::prelude::*;
use vstd::string::*;
use crate::server::jwt::{
    array_len,
    array_length,
    element_text,
    element_texts,
    parse_json,
    parsed_document,
};

verus! {

/// One published RSA public key.
#[derive(Debug)]
pub struct Jwk {
    /// Key identifier, which a token's header names.
    pub kid: String,
    /// Key type.
    pub kty: String,
    /// Algorithm the key is meant for.
    pub alg: String,
    /// Modulus, base64url.
    pub n: String,
    /// Exponent, base64url.
    pub e: String,
    /// Intended usage of the key (the `use` member of the published record).
    pub usage: String,
}

/// The mathematical content of a [`Jwk`].
pub struct JwkView {
    pub kid: Seq<char>,
    pub kty: Seq<char>,
    pub alg: Seq<char>,
    pub n: Seq<char>,
    pub e: Seq<char>,
    pub usage: Seq<char>,
}

impl View for Jwk {
    type V = JwkView;

    open spec fn view(&self) -> JwkView {
        JwkView {
            kid: self.kid@,
            kty: self.kty@,
            alg: self.alg@,
            n: self.n@,
            e: self.e@,
            usage: self.usage@,
        }
    }
}

impl Clone for Jwk {
    fn clone(&self) -> (copy: Self)
        ensures
            copy@ == self@,
    {
        Jwk {
            kid: self.kid.clone(),
            kty: self.kty.clone(),
            alg: self.alg.clone(),
            n: self.n.clone(),
            e: self.e.clone(),
            usage: self.usage.clone(),
        }
    }
}

/// A key set: the keys in the order in which they were published.
#[derive(Debug)]
pub struct JsonWebKeySet {
    pub keys: Vec<Jwk>,
}

impl View for JsonWebKeySet {
    type V = Seq<JwkView>;

    open spec fn view(&self) -> Seq<JwkView> {
        self.keys@.map_values(|key: Jwk| key@)
    }
}

impl Clone for JsonWebKeySet {
    fn clone(&self) -> (copy: Self)
        ensures
            copy@ == self@,
    {
        let mut keys: Vec<Jwk> = Vec::new();
        let mut i: usize = 0;
        while i < self.keys.len()
            invariant
                i <= self.keys.len(),
                keys@.len() == i,
                forall|j: int| 0 <= j < i ==> (#[trigger] keys@[j])@ == self.keys@[j]@,
            decreases self.keys.len() - i,
        {
            keys.push(self.keys[i].clone());
            i += 1;
        }
        let copy = JsonWebKeySet { keys };
        assert(copy@ =~= self@);
        copy
    }
}

/// The first key of `keys` whose identifier is `kid`, if there is one.
pub open spec fn first_match(keys: Seq<JwkView>, kid: Seq<char>) -> Option<JwkView>
    decreases keys.len(),
{
    if keys.len() == 0 {
        None
    } else if keys[0].kid == kid {
        Some(keys[0])
    } else {
        first_match(keys.drop_first(), kid)
    }
}

/// `first_match` finds nothing exactly when no key carries the identifier,
/// and what it finds is the earliest key that carries it.
pub proof fn lemma_first_match(keys: Seq<JwkView>, kid: Seq<char>)
    ensures
        first_match(keys, kid).is_none() <==> forall|i: int|
            0 <= i < keys.len() ==> (#[trigger] keys[i]).kid != kid,
        first_match(keys, kid) matches Some(key) ==> exists|i: int|
            0 <= i < keys.len() && #[trigger] keys[i] == key && key.kid == kid && forall|j: int|
                0 <= j < i ==> (#[trigger] keys[j]).kid != kid,
    decreases keys.len(),
{
    if keys.len() == 0 {
    } else if keys[0].kid == kid {
        assert(keys[0] == first_match(keys, kid).unwrap());
    } else {
        let rest = keys.drop_first();
        lemma_first_match(rest, kid);
        assert(forall|i: int| 0 <= i < rest.len() ==> rest[i] == keys[i + 1]);
        if first_match(rest, kid).is_none() {
            assert forall|i: int| 0 <= i < keys.len() implies (#[trigger] keys[i]).kid != kid by {
                if i > 0 {
                    assert(rest[i - 1] == keys[i]);
                }
            }
        } else {
            let key = first_match(rest, kid).unwrap();
            let i = choose|i: int|
                0 <= i < rest.len() && #[trigger] rest[i] == key && key.kid == kid && forall|j: int|
                    0 <= j < i ==> (#[trigger] rest[j]).kid != kid;
            assert(keys[i + 1] == key);
            assert forall|j: int| 0 <= j < i + 1 implies (#[trigger] keys[j]).kid != kid by {
                if j > 0 {
                    assert(rest[j - 1] == keys[j]);
                }
            }
            assert(rest[i].kid == kid);
            assert(keys[i + 1].kid == kid);
        }
    }
}

/// Why fetching the key set failed.
#[derive(Debug)]
pub enum FetchError {
    /// The provider could not be reached, or did not answer in time; the text
    /// says what happened.
    Transport(String),
    /// The provider answered with something that is not a key set; the text
    /// says so.
    MalformedBody(String),
}

/// What a malformed body is reported with.
pub open spec fn malformed_body_text() -> Seq<char> {
    "the body does not describe a key set"@
}

/// Whether an error is that of a malformed body, with its fixed text.
pub open spec fn reports_malformed_body(error: FetchError) -> bool {
    error matches FetchError::MalformedBody(text) && text@ == malformed_body_text()
}

/// The key that the element at `index` of a document's `keys` array describes:
/// all six members must be there as JSON strings.
pub open spec fn document_key(document: serde_json::Value, index: int) -> Option<JwkView> {
    let members = element_texts(document, "keys"@, index);
    if members.contains_key("kid"@) && members.contains_key("kty"@) && members.contains_key("alg"@)
        && members.contains_key("n"@) && members.contains_key("e"@) && members.contains_key(
        "use"@,
    ) {
        Some(
            JwkView {
                kid: members["kid"@],
                kty: members["kty"@],
                alg: members["alg"@],
                n: members["n"@],
                e: members["e"@],
                usage: members["use"@],
            },
        )
    } else {
        None
    }
}

/// The key set that a JSON document describes: the document must be an
/// object whose member `keys` is an array, and every element must describe a
/// key. The keys keep the order of the array.
pub open spec fn document_keys(document: serde_json::Value) -> Option<Seq<JwkView>> {
    match array_length(document, "keys"@) {
        None => None,
        Some(length) => if forall|i: int|
            0 <= i < length ==> (#[trigger] document_key(document, i)).is_some() {
            Some(Seq::new(length, |i: int| document_key(document, i).unwrap()))
        } else {
            None
        },
    }
}

/// The key set that the outcome of parsing a body describes, if it does.
pub open spec fn parsed_keys(parsed: Result<serde_json::Value, serde_json::Error>) -> Option<
    Seq<JwkView>,
> {
    match parsed {
        Ok(document) => document_keys(document),
        Err(_) => None,
    }
}

/// The key set that a body describes: the body must be JSON, and the document
/// must describe a key set.
pub open spec fn body_keys(body: Seq<char>) -> Option<Seq<JwkView>> {
    match parsed_document(body) {
        Some(document) => document_keys(document),
        None => None,
    }
}

/// Reads the key at `index` of a document's `keys` array.
fn key_from_document(document: &serde_json::Value, index: usize) -> (key: Option<Jwk>)
    ensures
        match key {
            Some(found) => document_key(*document, index as int) == Some(found@),
            None => document_key(*document, index as int).is_none(),
        },
{
    let kid = match element_text(document, "keys", index, "kid") {
        Some(text) => text,
        None => return None,
    };
    let kty = match element_text(document, "keys", index, "kty") {
        Some(text) => text,
        None => return None,
    };
    let alg = match element_text(document, "keys", index, "alg") {
        Some(text) => text,
        None => return None,
    };
    let n = match element_text(document, "keys", index, "n") {
        Some(text) => text,
        None => return None,
    };
    let e = match element_text(document, "keys", index, "e") {
        Some(text) => text,
        None => return None,
    };
    let usage = match element_text(document, "keys", index, "use") {
        Some(text) => text,
        None => return None,
    };
    Some(Jwk { kid, kty, alg, n, e, usage })
}

/// Reads a key set from the outcome of parsing a body as JSON. A body that is
/// not JSON, and a document that does not describe a key set, give nothing.
pub fn key_set_from_parsed(parsed: &Result<serde_json::Value, serde_json::Error>) -> (jwks: Option<
    JsonWebKeySet,
>)
    ensures
        match jwks {
            Some(found) => parsed_keys(*parsed) == Some(found@),
            None => parsed_keys(*parsed).is_none(),
        },
{
    let document = match parsed {
        Ok(document) => document,
        Err(_) => return None,
    };
    let length = match array_len(document, "keys") {
        Some(length) => length,
        None => return None,
    };
    let mut keys: Vec<Jwk> = Vec::new();
    let mut i: usize = 0;
    while i < length
        invariant
            i <= length,
            parsed_keys(*parsed) == document_keys(*document),
            array_length(*document, "keys"@) == Some(length as nat),
            keys@.len() == i,
            forall|j: int|
                0 <= j < i ==> (#[trigger] document_key(*document, j)) == Some(keys@[j]@),
        decreases length - i,
    {
        match key_from_document(document, i) {
            Some(key) => keys.push(key),
            None => return None,
        }
        i += 1;
    }
    let jwks = JsonWebKeySet { keys };
    assert(jwks@ =~= Seq::new(length as nat, |i: int| document_key(*document, i).unwrap()));
    Some(jwks)
}

/// Reads a key set from the body of the provider's answer:
/// `{ "keys": [ { "kid", "kty", "alg", "n", "e", "use" }, ... ] }`, members
/// beyond these ignored. It succeeds exactly on the bodies that describe a key
/// set, with the keys in the order of the document; on any other body it
/// reports a malformed body. What is JSON is for the `serde_json` crate to say.
pub fn decode_key_set(body: &str) -> (jwks: Result<JsonWebKeySet, FetchError>)
    ensures
        match jwks {
            Ok(found) => body_keys(body@) == Some(found@),
            Err(error) => body_keys(body@).is_none() && reports_malformed_body(error),
        },
{
    let parsed = parse_json(body);
    assert(parsed_keys(parsed) == body_keys(body@));
    match key_set_from_parsed(&parsed) {
        Some(jwks) => Ok(jwks),
        None => Err(FetchError::MalformedBody("the body does not describe a key set".to_owned())),
    }
}

/// Turns what a request to the provider brought into a key set. `answer` is
/// the body of the answer, or the description of why there is none. No answer
/// is a transport failure with that description; a body gives the key set
/// that it describes, and is a malformed body where it describes none.
pub fn fetched_key_set(answer: Result<String, String>) -> (jwks: Result<JsonWebKeySet, FetchError>)
    ensures
        match answer {
            Err(reason) => jwks == Err::<JsonWebKeySet, FetchError>(FetchError::Transport(reason)),
            Ok(body) => match jwks {
                Ok(found) => body_keys(body@) == Some(found@),
                Err(error) => body_keys(body@).is_none() && reports_malformed_body(error),
            },
        },
{
    match answer {
        Ok(body) => decode_key_set(body.as_str()),
        Err(reason) => Err(FetchError::Transport(reason)),
    }
}

/// Whether a text equals a string slice.
pub fn text_equals(text: &String, other: &str) -> (equal: bool)
    ensures
        equal == (text@ == other@),
{
    let owned = other.to_owned();
    *text == owned
}

/// Looks up the key that a token's header names: the first key of the set
/// with that identifier.
pub fn find_key<'a>(jwks: &'a JsonWebKeySet, kid: &str) -> (found: Option<&'a Jwk>)
    ensures
        match found {
            Some(key) => first_match(jwks@, kid@) == Some(key@),
            None => first_match(jwks@, kid@).is_none(),
        },
{
    let mut i: usize = 0;
    assert(jwks@.skip(0) =~= jwks@);
    while i < jwks.keys.len()
        invariant
            i <= jwks.keys.len(),
            first_match(jwks@, kid@) == first_match(jwks@.skip(i as int), kid@),
        decreases jwks.keys.len() - i,
    {
        let ghost rest = jwks@.skip(i as int);
        assert(rest[0] == jwks.keys@[i as int]@);
        assert(rest.drop_first() =~= jwks@.skip(i + 1));
        if text_equals(&jwks.keys[i].kid, kid) {
            return Some(&jwks.keys[i]);
        }
        i += 1;
    }
    assert(jwks@.skip(i as int).len() == 0);
    None
}

} // verus!
