//! Salted, memory-hard password hashes: how a password is stored and how a
//! sign-in attempt is held against what was stored.

use argon2::password_hash::rand_core::OsRng;
use argon2::password_hash::SaltString;
use argon2::{Argon2, PasswordHash, PasswordHasher, PasswordVerifier};
use vstd::prelude::*;
use vstd::utf8::encode_utf8;

verus! {

/// The digest, written in unpadded Base64, that `Argon2::default()` gives
/// for the bytes `password` under the salt `salt`; none where it refuses
/// them.
pub uninterp spec fn argon2_digest(password: Seq<u8>, salt: Seq<char>) -> Option<Seq<char>>;

/// Whether `encoded` parses as an encoded hash and Argon2, run with the
/// parameters and the salt named in it, gives its digest for `password`.
pub uninterp spec fn argon2_accepts(password: Seq<u8>, encoded: Seq<char>) -> bool;

/// `argon2::password_hash::Error`: why the crate refused to hash. It is
/// carried out of the call unread and turned into `HashError`.
#[verifier::external_type_specification]
#[verifier::external_body]
pub struct ExPasswordHashError(argon2::password_hash::Error);

/// A password could not be hashed.
#[derive(Clone, Copy, Debug, PartialEq, Eq, Structural)]
pub struct HashError;

/// A character of the Base64 alphabet.
pub open spec fn is_base64_char(c: char) -> bool {
    ||| 'a' <= c <= 'z'
    ||| 'A' <= c <= 'Z'
    ||| '0' <= c <= '9'
    ||| c == '+'
    ||| c == '/'
}

/// A salt as `hash` draws it: 22 characters of Base64.
pub open spec fn is_fresh_salt(salt: Seq<char>) -> bool {
    &&& salt.len() == 22
    &&& forall|i: int| 0 <= i < salt.len() ==> is_base64_char(#[trigger] salt[i])
}

/// An encoded hash: the algorithm, its version, its parameters, the salt
/// and the digest, each behind a `$`. The algorithm is Argon2id in version
/// 19, with 19456 KiB of memory, 2 passes and 1 lane.
pub open spec fn encoded_hash(salt: Seq<char>, digest: Seq<char>) -> Seq<char> {
    "$argon2id$v=19$m=19456,t=2,p=1$"@ + salt + "$"@ + digest
}

/// The encoded hash of `plaintext` under `salt`, if there is one.
pub open spec fn encoding_with(plaintext: Seq<char>, salt: Seq<char>) -> Option<Seq<char>> {
    match argon2_digest(encode_utf8(plaintext), salt) {
        Some(digest) => Some(encoded_hash(salt, digest)),
        None => None,
    }
}

/// Whether `encoded` is a hash of `plaintext`.
pub open spec fn credential_matches(plaintext: Seq<char>, encoded: Seq<char>) -> bool {
    argon2_accepts(encode_utf8(plaintext), encoded)
}

/// An encoded password hash: the algorithm, its parameters, the salt and the
/// digest in one string. The text is held privately and is never printed;
/// `expose` hands it out for the store.
pub struct CredentialHash {
    encoded: String,
}

impl View for CredentialHash {
    type V = Seq<char>;

    closed spec fn view(&self) -> Seq<char> {
        self.encoded@
    }
}

impl CredentialHash {
    /// Takes up an encoded hash that the store has kept. Any text is taken:
    /// one that is no encoded hash matches no password.
    pub fn from_encoded(encoded: String) -> (hash: CredentialHash)
        ensures
            hash@ == encoded@,
    {
        CredentialHash { encoded }
    }

    /// The encoded text, for the store.
    pub fn expose(&self) -> (encoded: &str)
        ensures
            encoded@ == self@,
    {
        self.encoded.as_str()
    }

    /// Another hash with the same text.
    pub fn duplicate(&self) -> (copy: CredentialHash)
        ensures
            copy@ == self@,
    {
        CredentialHash { encoded: self.encoded.clone() }
    }
}

/// Calls `SaltString::generate` on the operating system's random number
/// generator: 16 random bytes, written as 22 characters of unpadded Base64.
/// The call panics where the operating system has no random bytes to give.
#[verifier::external_body]
pub(crate) fn fresh_salt() -> (salt: String)
    ensures
        is_fresh_salt(salt@),
{
    SaltString::generate(&mut OsRng).as_str().to_owned()
}

/// Calls `Argon2::default().hash_password` with `salt` read by
/// `SaltString::from_b64`, and writes the result as a string. The contract
/// names the digest and states the string around it as the crate writes it:
/// the default algorithm, version and parameters, then the salt as it was
/// given, then the digest. It adds what `verify_password` shows in its
/// source: it runs the same computation with the parameters and the salt
/// written in the string and compares the digests, so it accepts the
/// password that the string was made from.
#[verifier::external_body]
fn argon2_hash(password: &[u8], salt: &str) -> (r: Result<String, argon2::password_hash::Error>)
    ensures
        match r {
            Ok(encoded) => argon2_digest(password@, salt@) matches Some(digest) && encoded@
                == encoded_hash(salt@, digest),
            Err(_) => argon2_digest(password@, salt@) is None,
        },
        r matches Ok(encoded) ==> argon2_accepts(password@, encoded@),
{
    let salt = SaltString::from_b64(salt)?;
    Ok(Argon2::default().hash_password(password, &salt)?.to_string())
}

/// Calls `PasswordHash::new` on `encoded` and, where that parses,
/// `Argon2::default().verify_password`; any error counts as a refusal. The
/// computation takes the memory that the parameters in `encoded` name.
#[verifier::external_body]
fn argon2_verify(password: &[u8], encoded: &str) -> (ok: bool)
    ensures
        ok == argon2_accepts(password@, encoded@),
{
    match PasswordHash::new(encoded) {
        Ok(parsed) => Argon2::default().verify_password(password, &parsed).is_ok(),
        Err(_) => false,
    }
}

/// Hashes `plaintext` under the salt `salt`.
pub fn hash_with_salt(plaintext: &str, salt: &str) -> (r: Result<CredentialHash, HashError>)
    ensures
        match encoding_with(plaintext@, salt@) {
            Some(encoded) => r matches Ok(h) && h@ == encoded,
            None => r is Err,
        },
        r matches Ok(h) ==> credential_matches(plaintext@, h@),
{
    match argon2_hash(plaintext.as_bytes(), salt) {
        Ok(encoded) => Ok(CredentialHash::from_encoded(encoded)),
        Err(_) => Err(HashError),
    }
}

/// Hashes `plaintext` under a fresh random salt. The result is a hash of
/// `plaintext`, so `verify` accepts `plaintext` for it.
pub fn hash(plaintext: &str) -> (r: Result<CredentialHash, HashError>)
    ensures
        r matches Ok(h) ==> credential_matches(plaintext@, h@) && exists|salt: Seq<char>|
            is_fresh_salt(salt) && #[trigger] encoding_with(plaintext@, salt) == Some(h@),
        r is Err ==> exists|salt: Seq<char>|
            is_fresh_salt(salt) && #[trigger] encoding_with(plaintext@, salt) is None,
{
    let salt = fresh_salt();
    let r = hash_with_salt(plaintext, salt.as_str());
    proof {
        if r is Ok {
            assert(encoding_with(plaintext@, salt@) == Some(r->Ok_0@));
        } else {
            assert(encoding_with(plaintext@, salt@) is None);
        }
    }
    r
}

/// Tells whether `hash` is a hash of `plaintext`. A text that is no encoded
/// hash at all is a hash of nothing. Nothing is decrypted: the password is
/// hashed again with the parameters and the salt of `hash`, and the digests
/// are compared.
pub fn verify(plaintext: &str, hash: &CredentialHash) -> (ok: bool)
    ensures
        ok == credential_matches(plaintext@, hash@),
{
    argon2_verify(plaintext.as_bytes(), hash.expose())
}

/// Two salts of one length that differ give two encoded hashes that differ,
/// whatever the password: the salt can be read off the hash. So hashing one
/// password twice gives two strings whenever the two salts drawn differ.
pub proof fn lemma_salt_shows_in_hash(
    plaintext: Seq<char>,
    other: Seq<char>,
    salt: Seq<char>,
    other_salt: Seq<char>,
)
    requires
        salt.len() == other_salt.len(),
        salt != other_salt,
        encoding_with(plaintext, salt) is Some,
        encoding_with(other, other_salt) is Some,
    ensures
        encoding_with(plaintext, salt) != encoding_with(other, other_salt),
{
    reveal_strlit("$argon2id$v=19$m=19456,t=2,p=1$");
    let head = "$argon2id$v=19$m=19456,t=2,p=1$"@;
    let one = encoding_with(plaintext, salt)->0;
    let two = encoding_with(other, other_salt)->0;
    if one == two {
        assert forall|i: int| 0 <= i < salt.len() implies salt[i] == other_salt[i] by {
            assert(one[head.len() + i] == salt[i]);
            assert(two[head.len() + i] == other_salt[i]);
        }
        assert(salt =~= other_salt);
    }
}

} // verus!
