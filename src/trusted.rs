//! The calls into outside crates, each behind one small wrapper whose
//! contract states what the crate's source shows of it.
use vstd::prelude::*;

verus! {

/// The compact HS256 token that jsonwebtoken makes of the claims
/// `{"exp": exp, "role": role, "sub": sub}` under `secret`.
pub uninterp spec fn hs256_token(sub: Seq<char>, role: Seq<char>, exp: u64, secret: Seq<u8>) -> Seq<char>;

/// The claims `(sub, role, exp)` that jsonwebtoken reads from `token` when
/// its header names HS256, its signature under `secret` holds, it carries no
/// audience claim, and the three claims are present as a string, a string
/// and an unsigned integer; `None` otherwise.
pub uninterp spec fn hs256_claims(token: Seq<char>, secret: Seq<u8>) -> Option<(Seq<char>, Seq<char>, u64)>;

/// Relies on jsonwebtoken::encode with the default HS256 header and a key
/// made by `EncodingKey::from_secret`: the key's family matches the header's,
/// a map of strings and a number always serialises, and HMAC signing takes a
/// key of any length, so a token always comes back. Relies on
/// jsonwebtoken::decode too: that token carries the three claims signed and
/// no audience, so reading it back under the same secret gives them again.
#[verifier::external_body]
pub(crate) fn sign_token(sub: &str, role: &str, exp: u64, secret: &[u8]) -> (r: Option<String>)
    ensures
        r is Some,
        r matches Some(t) ==> t@ == hs256_token(sub@, role@, exp, secret@),
        r matches Some(t) ==> hs256_claims(t@, secret@) == Some((sub@, role@, exp)),
{
    let mut claims = serde_json::Map::new();
    claims.insert("sub".to_string(), serde_json::Value::from(sub));
    claims.insert("exp".to_string(), serde_json::Value::from(exp));
    claims.insert("role".to_string(), serde_json::Value::from(role));
    let key = jsonwebtoken::EncodingKey::from_secret(secret);
    jsonwebtoken::encode(&jsonwebtoken::Header::default(), &claims, &key).ok()
}

/// Relies on jsonwebtoken::decode with HS256 only and its own expiry check
/// switched off (the caller compares the expiry with the clock): it checks
/// the signature and hands back the claims, read field by field.
#[verifier::external_body]
pub(crate) fn read_claims(token: &str, secret: &[u8]) -> (r: Option<(String, String, u64)>)
    ensures
        r is Some <==> hs256_claims(token@, secret@) is Some,
        r matches Some(c) ==> hs256_claims(token@, secret@) == Some((c.0@, c.1@, c.2)),
{
    let mut rules = jsonwebtoken::Validation::new(jsonwebtoken::Algorithm::HS256);
    rules.validate_exp = false;
    let key = jsonwebtoken::DecodingKey::from_secret(secret);
    let data = jsonwebtoken::decode::<serde_json::Value>(token, &key, &rules).ok()?;
    let sub = data.claims.get("sub")?.as_str()?.to_string();
    let role = data.claims.get("role")?.as_str()?.to_string();
    let exp = data.claims.get("exp")?.as_u64()?;
    Some((sub, role, exp))
}

/// Relies on rand::random: a value drawn from the thread-local generator.
#[verifier::external_body]
pub(crate) fn draw_session_id() -> (r: usize) {
    rand::random::<usize>()
}

} // verus!
