use vstd::prelude::*;

verus! {

/// What bcrypt's `verify` reports for a password and a stored hash string:
/// `Some(b)` when the stored string parses as a bcrypt hash, where `b` tells
/// whether the password matches it, and `None` when it does not parse.
/// `bcrypt::verify` recomputes the hash from the password and the salt held
/// in the stored string, so its outcome is a function of these two arguments
/// alone.
pub uninterp spec fn verify_outcome(password: Seq<char>, hashed: Seq<char>) -> Option<bool>;

/// The token the HS256 issuer produces for a user's identity and role under
/// a secret key. The claims are serialized in a fixed order and HS256
/// signing is deterministic, so the token is a function of these three
/// arguments alone.
pub uninterp spec fn token_of(user_id: u64, is_admin: bool, secret: Seq<char>) -> Seq<char>;

/// Relies on bcrypt::hash with the crate's default cost. Its result is a
/// 60-character bcrypt hash string beginning with '$', and bcrypt::verify
/// reports a match between the hashed password and that string. The call
/// fails only when the operating system's randomness source does (the salt
/// is drawn from it), so nothing more is promised of when `Some` comes.
#[verifier::external_body]
pub fn hash_password(password: &String) -> (r: Option<String>)
    ensures
        r matches Some(h) ==> h@.len() == 60 && h@[0] == '$' && verify_outcome(password@, h@)
            == Some(true),
{
    bcrypt::hash(password.as_str(), bcrypt::DEFAULT_COST).ok()
}

/// Relies on bcrypt::verify: a deterministic check of the password against
/// the stored hash, `None` exactly when the stored string is not a bcrypt
/// hash.
#[verifier::external_body]
pub fn verify_password(password: &String, hashed: &String) -> (r: Option<bool>)
    ensures
        r == verify_outcome(password@, hashed@),
{
    bcrypt::verify(password.as_str(), hashed.as_str()).ok()
}

/// Relies on jsonwebtoken::encode with the default header (HS256) and a
/// plain secret key: it signs the claims — the user's id under "sub" and the
/// role flag under "role", in fixed (ordered-map) order — so the token is a
/// function of the id, the role and the secret.
#[verifier::external_body]
pub fn issue_token(user_id: u64, is_admin: bool, secret: &String) -> (r: Option<String>)
    ensures
        r matches Some(t) ==> t@ == token_of(user_id, is_admin, secret@),
{
    let mut claims = std::collections::BTreeMap::new();
    claims.insert("sub", user_id.to_string());
    claims.insert("role", is_admin.to_string());
    let key = jsonwebtoken::EncodingKey::from_secret(secret.as_bytes());
    jsonwebtoken::encode(&jsonwebtoken::Header::default(), &claims, &key).ok()
}

} // verus!
