//! Account credentials: canonical e-mail addresses, password hashes, and
//! the opaque access tokens of which a user holds at most two.
use vstd::prelude::*;
use vstd::string::*;
use crate::text::{decimal_text, int_text, lower_of, lowercase, trim_of, trimmed};

verus! {

/// Most access tokens a user holds at once.
pub const MAX_TOKENS: usize = 2;

/// The encoded Argon2i (version 1.3, 512 KiB, two passes, one lane, 32-byte
/// hash) of a password's UTF-8 bytes under a salt's UTF-8 bytes.
pub uninterp spec fn argon2_encoded(password: Seq<char>, salt: Seq<char>) -> Seq<char>;

/// The lowercase hexadecimal SHA-256 digest of a text's UTF-8 bytes.
pub uninterp spec fn sha256_hex(s: Seq<char>) -> Seq<char>;

/// Lengths, in characters, below which a text's UTF-8 bytes (at most four
/// per character) fit in a `u32`.
pub const MAX_HASH_INPUT: usize = 0x4000_0000;

/// Relies on rust-argon2's `hash_encoded` with the parameters above: with
/// them it fails only on a salt under eight bytes or on a password or salt
/// longer than `u32::MAX` bytes.
#[verifier::external_body]
fn argon2_hash(password: &str, salt: &str) -> (r: Option<String>)
    ensures
        r matches Some(h) ==> h@ == argon2_encoded(password@, salt@),
        8 <= salt@.len() < MAX_HASH_INPUT && password@.len() < MAX_HASH_INPUT ==> r is Some,
{
    let config = argon2::Config {
        variant: argon2::Variant::Argon2i,
        version: argon2::Version::Version13,
        mem_cost: 512,
        time_cost: 2,
        lanes: 1,
        thread_mode: argon2::ThreadMode::Parallel,
        secret: &[],
        ad: &[],
        hash_length: 32,
    };
    argon2::hash_encoded(password.as_bytes(), salt.as_bytes(), &config).ok()
}

/// A lowercase hexadecimal digit.
pub open spec fn is_hex_digit(c: char) -> bool {
    (48 <= c as u32 <= 57) || (97 <= c as u32 <= 102)
}

pub open spec fn is_hex_text(s: Seq<char>) -> bool {
    forall|i: int| 0 <= i < s.len() ==> is_hex_digit(#[trigger] s[i])
}

/// Relies on crypto-hash's `hex_digest` with SHA-256: `hex::encode` of a
/// 32-byte digest, two lowercase hex digits per byte.
#[verifier::external_body]
fn sha256_hex_digest(s: &str) -> (r: String)
    ensures
        r@ == sha256_hex(s@),
        r@.len() == 64,
        is_hex_text(r@),
{
    crypto_hash::hex_digest(crypto_hash::Algorithm::SHA256, s.as_bytes())
}

/// An e-mail address as stored and looked up: trimmed, then lowercased.
pub fn canonical_email(email: &str) -> (r: String)
    ensures
        r@ == lower_of(trim_of(email@)),
{
    let t = trimmed(email);
    lowercase(t.as_str())
}

/// The stored hash of a password: the trimmed password hashed under the
/// process-wide salt.
pub fn password_hash(password: &str, salt: &str) -> (r: Option<String>)
    ensures
        r matches Some(h) ==> h@ == argon2_encoded(trim_of(password@), salt@),
        8 <= salt@.len() < MAX_HASH_INPUT && password@.len() < MAX_HASH_INPUT ==> r is Some,
{
    let p = trimmed(password);
    argon2_hash(p.as_str(), salt)
}

#[derive(Clone, Copy, Debug, PartialEq, Eq, Structural)]
pub enum AuthError {
    /// The password could not be hashed.
    HashFailed,
}

/// The columns written for a new user.
#[derive(Clone, Debug)]
pub struct Registration {
    pub name: String,
    pub email: String,
    pub password_hash: String,
}

/// Canonical e-mail address and password hash for a registration.
pub fn prepare_registration(name: &str, email: &str, password: &str, salt: &str) -> (r: Result<
    Registration,
    AuthError,
>)
    ensures
        r matches Ok(reg) ==> reg.name@ == name@ && reg.email@ == lower_of(trim_of(email@))
            && reg.password_hash@ == argon2_encoded(trim_of(password@), salt@),
        8 <= salt@.len() < MAX_HASH_INPUT && password@.len() < MAX_HASH_INPUT ==> r is Ok,
{
    let hash = match password_hash(password, salt) {
        Some(h) => h,
        None => {
            return Err(AuthError::HashFailed);
        },
    };
    Ok(
        Registration {
            name: String::from_str(name),
            email: canonical_email(email),
            password_hash: hash,
        },
    )
}

/// Whether a login password matches the stored hash: the trimmed password,
/// hashed under the salt, equals it. A password that cannot be hashed
/// matches nothing.
pub fn password_matches(stored_hash: &str, password: &str, salt: &str) -> (r: bool)
    ensures
        r ==> stored_hash@ == argon2_encoded(trim_of(password@), salt@),
        8 <= salt@.len() < MAX_HASH_INPUT && password@.len() < MAX_HASH_INPUT ==> r == (
        stored_hash@ == argon2_encoded(trim_of(password@), salt@)),
{
    match password_hash(password, salt) {
        Some(h) => {
            let a = String::from_str(stored_hash);
            a == h
        },
        None => false,
    }
}

/// Whether an access token that expires at `expires_at` is expired at `now`.
pub fn is_expired(expires_at: i64, now: i64) -> (r: bool)
    ensures
        r == (expires_at <= now),
{
    expires_at <= now
}

/// The text an access token is derived from.
pub open spec fn token_payload_spec(user_id: Seq<char>, salt: Seq<char>, timestamp_ms: int) -> Seq<
    char,
> {
    user_id + "/"@ + salt + "/"@ + decimal_text(timestamp_ms) + "/"@
}

/// A new access token for a user, issued at `timestamp_ms`: the hex SHA-256
/// of `{user_id}/{salt}/{timestamp_ms}/`.
pub fn access_token(user_id: &str, salt: &str, timestamp_ms: i64) -> (r: String)
    ensures
        r@ == sha256_hex(token_payload_spec(user_id@, salt@, timestamp_ms as int)),
        r@.len() == 64,
        is_hex_text(r@),
{
    let mut p = String::from_str(user_id);
    p.append("/");
    p.append(salt);
    p.append("/");
    let ts = int_text(timestamp_ms);
    p.append(ts.as_str());
    p.append("/");
    sha256_hex_digest(p.as_str())
}

/// The active access tokens of one user, oldest first.
#[derive(Clone, Debug)]
pub struct TokenRing {
    pub tokens: Vec<String>,
}

impl TokenRing {
    /// Issues `token`: while the user holds two or more tokens the oldest is
    /// evicted, then the new one is added. Returns the evicted tokens, oldest
    /// first.
    pub fn issue(&mut self, token: String) -> (r: Vec<String>)
        ensures
            final(self).tokens@.len() <= MAX_TOKENS,
            final(self).tokens@.len() == if old(self).tokens@.len() == 0 {
                1nat
            } else {
                2nat
            },
            final(self).tokens@.last() == token,
            r@ + final(self).tokens@ == old(self).tokens@.push(token),
            old(self).tokens@.len() < MAX_TOKENS ==> r@.len() == 0,
    {
        let mut evicted: Vec<String> = Vec::new();
        let ghost start = self.tokens@;
        while self.tokens.len() >= MAX_TOKENS
            invariant
                evicted@ + self.tokens@ == start,
                start.len() < MAX_TOKENS ==> evicted@.len() == 0,
                start.len() >= 1 ==> self.tokens@.len() >= 1,
            decreases self.tokens@.len(),
        {
            let ghost before_e = evicted@;
            let ghost before_t = self.tokens@;
            let t = self.tokens.remove(0);
            evicted.push(t);
            assert(evicted@ + self.tokens@ =~= before_e + before_t);
        }
        let ghost mid = self.tokens@;
        self.tokens.push(token);
        assert(evicted@ + self.tokens@ =~= (evicted@ + mid).push(token));
        evicted
    }
}

} // verus!
