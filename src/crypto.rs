use vstd::prelude::*;

verus! {

/// What bcrypt's check of `password` against the stored verifier `hash`
/// gives: `Some(true)` on a match, `Some(false)` on a mismatch, `None` where
/// the verifier is malformed.
pub uninterp spec fn bcrypt_verdict(password: Seq<char>, hash: Seq<char>) -> Option<bool>;

/// The HS256-signed token with claims `sub`, `role` and `exp`, under `secret`.
pub uninterp spec fn signed_token(sub: Seq<char>, role: Seq<char>, exp: u64, secret: Seq<u8>) -> Seq<char>;

/// Relies on bcrypt::hash: a salted verifier of `password` at work factor
/// `cost`; the salt is random. bcrypt refuses a cost outside 4..=31. The
/// verifier holds its salt and cost, and bcrypt::verify recomputes it from
/// them, so it verifies the password it was made from.
#[verifier::external_body]
pub(crate) fn hash_password(password: &String, cost: u32) -> (r: Option<String>)
    ensures
        !(4 <= cost <= 31) ==> r is None,
        r is Some ==> bcrypt_verdict(password@, r->Some_0@) == Some(true),
{
    bcrypt::hash(password.as_bytes(), cost).ok()
}

/// Relies on bcrypt::verify: recomputes the verifier with the salt and cost
/// stored in `hash` and compares; an error where `hash` is malformed.
#[verifier::external_body]
pub(crate) fn verify_password(password: &String, hash: &String) -> (r: Option<bool>)
    ensures
        r == bcrypt_verdict(password@, hash@),
{
    bcrypt::verify(password.as_bytes(), hash.as_str()).ok()
}

/// Relies on jsonwebtoken::encode with the default header (HS256) and
/// EncodingKey::from_secret: signs the claims `sub`, `role`, `exp`. With an
/// HMAC key and the HS256 header, and claims that always serialise, encode
/// has no error path.
#[verifier::external_body]
pub(crate) fn encode_claims(sub: &String, role: &String, exp: u64, secret: &Vec<u8>) -> (r: Option<String>)
    ensures
        r is Some,
        r->Some_0@ == signed_token(sub@, role@, exp, secret@),
{
    let mut claims = serde_json::Map::new();
    claims.insert("sub".to_string(), serde_json::Value::from(sub.as_str()));
    claims.insert("role".to_string(), serde_json::Value::from(role.as_str()));
    claims.insert("exp".to_string(), serde_json::Value::from(exp));
    let key = jsonwebtoken::EncodingKey::from_secret(secret.as_slice());
    jsonwebtoken::encode(&jsonwebtoken::Header::default(), &claims, &key).ok()
}

} // verus!
