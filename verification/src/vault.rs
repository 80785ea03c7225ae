//! Credential vault: password-derived envelope encryption for the API
//! credential, and the bootstrap policy for the locally held passphrase.
//!
//! A token is the three base64 fields `ciphertext,salt,nonce` joined by
//! commas.  The standard base64 alphabet excludes the comma, so splitting on
//! commas recovers the fields exactly.

use vstd::prelude::*;

use crate::errors::{ErrClass, ErrorType};

use aes_gcm::aead::rand_core::RngCore;
use aes_gcm::aead::{Aead, OsRng};
use aes_gcm::{Aes256Gcm, KeyInit, Nonce};
use argon2::password_hash::SaltString;
use argon2::{Argon2, PasswordHasher};
use base64::{engine::general_purpose, Engine as _};

verus! {

use vstd::string::StrSliceExecFns;
use vstd::string::StringSliceAdditionalSpecFns;
use vstd::utf8::{decode_utf8, encode_utf8, valid_utf8};

/// What base64 encoding over the standard alphabet yields for given bytes.
pub uninterp spec fn b64_of(bytes: Seq<u8>) -> Seq<char>;

/// What base64 decoding over the standard alphabet yields for given text:
/// the decoded bytes, or `None` where the text is not a valid encoding.
pub uninterp spec fn b64_decoded(text: Seq<char>) -> Option<Seq<u8>>;

/// The 32-byte key that the memory-hard password hash derives from a
/// password and a salt.
pub uninterp spec fn derived_key_of(password: Seq<char>, salt: Seq<u8>) -> Seq<u8>;

/// The ciphertext-with-tag that the AEAD cipher produces for a key, a nonce
/// and a plaintext.
pub uninterp spec fn sealed(key: Seq<u8>, nonce: Seq<u8>, plain: Seq<u8>) -> Seq<u8>;

/// What AEAD decryption yields for a key, a nonce and a ciphertext: the
/// plaintext, or `None` where the authentication tag does not verify.
pub uninterp spec fn opened(key: Seq<u8>, nonce: Seq<u8>, cipher: Seq<u8>) -> Option<Seq<u8>>;

/// Relies on `rand_core::OsRng::fill_bytes`: fills the buffer from the
/// operating system's randomness source.  Nothing is promised of the bytes
/// beyond their count.
#[verifier::external_body]
fn fill_random(n: usize) -> (r: Vec<u8>)
    ensures
        r@.len() == n,
{
    let mut buf = vec![0u8; n];
    OsRng.fill_bytes(&mut buf);
    buf
}

/// Relies on `base64::Engine::encode` with the standard padded alphabet:
/// the output is a pure function of the input, decodes back to the input,
/// and is drawn from an alphabet that excludes the comma.
#[verifier::external_body]
fn b64_encode(bytes: &[u8]) -> (r: String)
    ensures
        r@ == b64_of(bytes@) && b64_decoded(r@) == Some(bytes@),
        forall|i: int| 0 <= i < r@.len() ==> r@[i] != ',',
{
    general_purpose::STANDARD.encode(bytes)
}

/// Relies on `base64::Engine::decode` with the standard padded alphabet:
/// succeeds exactly on valid encodings, and inverts `encode`.
#[verifier::external_body]
fn b64_decode(text: &str) -> (r: Result<Vec<u8>, ()>)
    ensures
        r is Ok <==> b64_decoded(text@) is Some,
        r matches Ok(v) ==> Some(v@) == b64_decoded(text@),
{
    general_purpose::STANDARD.decode(text).map_err(|_| ())
}

/// Relies on `argon2::Argon2::hash_password` (Argon2id, default parameters,
/// 32-byte output) over `SaltString::encode_b64`: for a password of at most
/// `u32::MAX` bytes and a salt of 8 to 48 bytes both calls succeed, and the
/// hash is a pure function of the password and the salt.
#[verifier::external_body]
fn derive_key(password: &str, salt: &[u8]) -> (r: Result<Vec<u8>, ()>)
    requires
        8 <= salt@.len() <= 48,
    ensures
        r is Ok <==> encode_utf8(password@).len() <= 0xFFFFFFFF,
        r matches Ok(k) ==> k@ == derived_key_of(password@, salt@) && k@.len() == 32,
{
    let salt_string = SaltString::encode_b64(salt).map_err(|_| ())?;
    let argon2 = Argon2::default();
    let password_hash = argon2.hash_password(password.as_bytes(), &salt_string).map_err(|_| ())?;
    let raw_hash = password_hash.hash.ok_or(())?;
    Ok(raw_hash.as_bytes().to_vec())
}

/// Relies on `aes_gcm::Aes256Gcm` via `aead::Aead::encrypt`: with a 32-byte
/// key and a 12-byte nonce it succeeds on any plaintext of at most 2^36
/// bytes, its output is the ciphertext followed by the 16-byte tag, a pure
/// function of key, nonce and plaintext, and AEAD decryption under the
/// same key and nonce recovers the plaintext.
#[verifier::external_body]
fn aead_seal(key: &[u8], nonce: &[u8], plain: &[u8]) -> (r: Result<Vec<u8>, ()>)
    requires
        key@.len() == 32,
        nonce@.len() == 12,
    ensures
        plain@.len() <= 68719476736 ==> r is Ok,
        r matches Ok(c) ==> c@ == sealed(key@, nonce@, plain@) && c@.len() == plain@.len() + 16
            && opened(key@, nonce@, c@) == Some(plain@),
{
    let cipher = Aes256Gcm::new_from_slice(key).unwrap();
    let nonce = Nonce::from_slice(nonce);
    cipher.encrypt(nonce, plain).map_err(|_| ())
}

/// Relies on `aes_gcm::Aes256Gcm` via `aead::Aead::decrypt`: with a 32-byte
/// key and a 12-byte nonce the call fails exactly where the authentication
/// tag does not verify, and otherwise returns the sealed plaintext, a pure
/// function of key, nonce and ciphertext.
#[verifier::external_body]
fn aead_open(key: &[u8], nonce: &[u8], cipher: &[u8]) -> (r: Result<Vec<u8>, ()>)
    requires
        key@.len() == 32,
        nonce@.len() == 12,
    ensures
        r is Ok <==> opened(key@, nonce@, cipher@) is Some,
        r matches Ok(p) ==> Some(p@) == opened(key@, nonce@, cipher@),
{
    let cipher_impl = Aes256Gcm::new_from_slice(key).unwrap();
    let nonce = Nonce::from_slice(nonce);
    cipher_impl.decrypt(nonce, cipher).map_err(|_| ())
}

/// Relies on `String::from_utf8`: succeeds exactly on valid UTF-8 and
/// returns the decoded characters.
#[verifier::external_body]
fn bytes_to_string(v: Vec<u8>) -> (r: Result<String, ()>)
    ensures
        r is Ok <==> valid_utf8(v@),
        r matches Ok(s) ==> s@ == decode_utf8(v@),
{
    String::from_utf8(v).map_err(|_| ())
}

/// The smallest index at or after `from` holding a comma, or the length of
/// `s` where there is none.
pub open spec fn find_from(s: Seq<char>, from: int) -> int
    decreases s.len() - from,
{
    if from < 0 || from >= s.len() {
        s.len() as int
    } else if s[from] == ',' {
        from
    } else {
        find_from(s, from + 1)
    }
}

/// The three comma-separated fields of `s`, or `None` unless `s` splits
/// into exactly three.
pub open spec fn split3(s: Seq<char>) -> Option<(Seq<char>, Seq<char>, Seq<char>)> {
    let i = find_from(s, 0);
    let j = find_from(s, i + 1);
    let k = find_from(s, j + 1);
    if i == s.len() || j == s.len() || k != s.len() {
        None
    } else {
        Some((s.subrange(0, i), s.subrange(i + 1, j), s.subrange(j + 1, s.len() as int)))
    }
}

pub proof fn lemma_find_from_props(s: Seq<char>, from: int)
    requires
        0 <= from <= s.len(),
    ensures
        from <= find_from(s, from) <= s.len(),
        find_from(s, from) < s.len() ==> s[find_from(s, from)] == ',',
        forall|m: int| from <= m < find_from(s, from) ==> s[m] != ',',
    decreases s.len() - from,
{
    if from < s.len() && s[from] != ',' {
        lemma_find_from_props(s, from + 1);
    }
}

pub proof fn lemma_find_from_le(s: Seq<char>, from: int, m: int)
    requires
        0 <= from <= m < s.len(),
        s[m] == ',',
    ensures
        find_from(s, from) <= m,
    decreases m - from,
{
    if from < m && s[from] != ',' {
        lemma_find_from_le(s, from + 1, m);
    }
}

/// Joining three comma-free fields with commas splits back into the fields.
pub proof fn lemma_split3_join(a: Seq<char>, b: Seq<char>, c: Seq<char>)
    requires
        forall|m: int| 0 <= m < a.len() ==> a[m] != ',',
        forall|m: int| 0 <= m < b.len() ==> b[m] != ',',
        forall|m: int| 0 <= m < c.len() ==> c[m] != ',',
    ensures
        split3(a + seq![','] + b + seq![','] + c) == Some((a, b, c)),
{
    let t = a + seq![','] + b + seq![','] + c;
    let la = a.len() as int;
    let lb = b.len() as int;
    let lc = c.len() as int;
    assert(t.len() == la + lb + lc + 2);
    assert(t[la] == ',');
    assert(t[la + 1 + lb] == ',');
    lemma_find_from_props(t, 0);
    lemma_find_from_le(t, 0, la);
    let i = find_from(t, 0);
    assert(i == la) by {
        if i < la {
            assert(t[i] == a[i]);
        }
    }
    lemma_find_from_props(t, la + 1);
    lemma_find_from_le(t, la + 1, la + 1 + lb);
    let j = find_from(t, la + 1);
    assert(j == la + 1 + lb) by {
        if j < la + 1 + lb {
            assert(t[j] == b[j - (la + 1)]);
        }
    }
    lemma_find_from_props(t, j + 1);
    let k = find_from(t, j + 1);
    assert(k == t.len()) by {
        if k < t.len() {
            assert(t[k] == c[k - (j + 1)]);
        }
    }
    assert(t.subrange(0, i) =~= a);
    assert(t.subrange(i + 1, j) =~= b);
    assert(t.subrange(j + 1, t.len() as int) =~= c);
}

/// Splits `s` on commas into exactly three fields, or returns `None`.
pub fn split3_exec(s: &str) -> (r: Option<(String, String, String)>)
    ensures
        r is Some <==> split3(s@) is Some,
        r matches Some(f) ==> split3(s@) matches Some(g) && f.0@ == g.0 && f.1@ == g.1 && f.2@
            == g.2,
{
    let n = s.unicode_len();
    let mut first: Option<usize> = None;
    let mut second: Option<usize> = None;
    let mut idx: usize = 0;
    proof {
        lemma_find_from_props(s@, 0);
    }
    while idx < n
        invariant
            n == s@.len(),
            0 <= idx <= n,
            first is None ==> second is None && find_from(s@, 0) >= idx,
            first matches Some(i) ==> i == find_from(s@, 0) && i < idx && (second is None
                ==> find_from(s@, i + 1) >= idx) && (second matches Some(j) ==> j == find_from(
                s@,
                i + 1,
            ) && j < idx && find_from(s@, j + 1) >= idx),
        decreases n - idx,
    {
        let c = s.get_char(idx);
        if c == ',' {
            if first.is_none() {
                proof {
                    lemma_find_from_le(s@, 0, idx as int);
                    lemma_find_from_props(s@, idx + 1);
                }
                first = Some(idx);
            } else if second.is_none() {
                let i = first.unwrap();
                proof {
                    lemma_find_from_le(s@, i + 1, idx as int);
                    lemma_find_from_props(s@, idx + 1);
                }
                second = Some(idx);
            } else {
                proof {
                    let i = first->0 as int;
                    let j = second->0 as int;
                    lemma_find_from_le(s@, j + 1, idx as int);
                    lemma_find_from_props(s@, 0);
                    lemma_find_from_props(s@, i + 1);
                    lemma_find_from_props(s@, j + 1);
                }
                return None;
            }
        } else {
            proof {
                if first is None {
                    lemma_find_from_props(s@, 0);
                } else if second is None {
                    lemma_find_from_props(s@, first->0 + 1);
                } else {
                    lemma_find_from_props(s@, second->0 + 1);
                }
            }
        }
        idx += 1;
    }
    proof {
        lemma_find_from_props(s@, 0);
        if first is Some {
            lemma_find_from_props(s@, first->0 + 1);
        }
        if second is Some {
            lemma_find_from_props(s@, second->0 + 1);
        }
    }
    match (first, second) {
        (Some(i), Some(j)) => {
            let f0 = s.substring_char(0, i).to_owned();
            let f1 = s.substring_char(i + 1, j).to_owned();
            let f2 = s.substring_char(j + 1, n).to_owned();
            Some((f0, f1, f2))
        },
        _ => None,
    }
}

/// The outcome that `decrypt` must report for a password and a token: the
/// recovered plaintext, or the class of the failure.
///
/// A token that does not split into exactly three comma-separated fields,
/// or whose fields do not base64-decode, or whose nonce is not 12 bytes, is
/// a formatting failure — decided before any cryptographic operation.  A
/// token whose authentication tag does not verify under the derived key is
/// an authentication failure, distinct from the formatting class.
pub open spec fn decrypt_result(password: Seq<char>, token: Seq<char>) -> Result<
    Seq<char>,
    ErrClass,
> {
    match split3(token) {
        Option::None => Result::Err(ErrClass::BadFormatting),
        Option::Some(fields) => match (b64_decoded(fields.0), b64_decoded(fields.1), b64_decoded(
            fields.2,
        )) {
            (Option::Some(cipher), Option::Some(salt), Option::Some(nonce)) => {
                if nonce.len() != 12 {
                    Result::Err(ErrClass::BadFormatting)
                } else if !(8 <= salt.len() <= 48) {
                    Result::Err(ErrClass::Forbidden)
                } else if encode_utf8(password).len() > 0xFFFFFFFF {
                    Result::Err(ErrClass::Forbidden)
                } else {
                    match opened(derived_key_of(password, salt), nonce, cipher) {
                        Option::None => Result::Err(ErrClass::BadToken),
                        Option::Some(plain) => {
                            if valid_utf8(plain) {
                                Result::Ok(decode_utf8(plain))
                            } else {
                                Result::Err(ErrClass::BadFormatting)
                            }
                        },
                    }
                }
            },
            _ => Result::Err(ErrClass::BadFormatting),
        },
    }
}

/// The construction of an encryption token, for a drawn salt and nonce:
/// its three fields decode to the AEAD sealing of the plaintext under the
/// key derived from the password and that 16-byte salt with that 12-byte
/// nonce, and the ciphertext is the plaintext's bytes plus the 16-byte tag.
pub open spec fn sealed_token_for(
    password: Seq<char>,
    plaintext: Seq<char>,
    token: Seq<char>,
    salt: Seq<u8>,
    nonce: Seq<u8>,
) -> bool {
    &&& salt.len() == 16
    &&& nonce.len() == 12
    &&& token_parts(token) == Some(
        (sealed(derived_key_of(password, salt), nonce, encode_utf8(plaintext)), salt, nonce),
    )
    &&& sealed(derived_key_of(password, salt), nonce, encode_utf8(plaintext)).len() == encode_utf8(
        plaintext,
    ).len() + 16
}

/// Encrypt a plaintext under a password: fresh 16-byte salt and 12-byte
/// nonce, a key derived from the password and the salt, AEAD sealing, and a
/// token of the three base64 fields joined by commas.
///
/// Round trip: any token this returns decrypts under the same password to
/// exactly the given plaintext.  Success is owed whenever the password and
/// the plaintext fit the key derivation's and the cipher's byte bounds.
pub fn encrypt(password: &str, plaintext: &str) -> (r: Result<String, ErrorType>)
    ensures
        r matches Ok(token) ==> decrypt_result(password@, token@) == Result::<
            Seq<char>,
            ErrClass,
        >::Ok(plaintext@),
        r matches Ok(token) ==> exists|salt: Seq<u8>, nonce: Seq<u8>|
            sealed_token_for(password@, plaintext@, token@, salt, nonce),
        encode_utf8(password@).len() <= 0xFFFFFFFF && encode_utf8(plaintext@).len()
            <= 68719476736 ==> r is Ok,
        r matches Err(e) ==> e is Forbidden,
{
    if (plaintext.len() as u64) > 68719476736u64 {
        return Err(ErrorType::Forbidden(String::from_str("plaintext too long to seal")));
    }
    let salt = fill_random(16);
    let nonce = fill_random(12);
    let key = match derive_key(password, salt.as_slice()) {
        Ok(k) => k,
        Err(_) => {
            return Err(ErrorType::Forbidden(String::from_str("password hashing failed")));
        },
    };
    let cipher = match aead_seal(key.as_slice(), nonce.as_slice(), plaintext.as_bytes()) {
        Ok(c) => c,
        Err(_) => {
            return Err(ErrorType::Forbidden(String::from_str("encryption failed")));
        },
    };
    let cipher_b64 = b64_encode(cipher.as_slice());
    let salt_b64 = b64_encode(salt.as_slice());
    let nonce_b64 = b64_encode(nonce.as_slice());
    proof {
        reveal_strlit(",");
        lemma_split3_join(cipher_b64@, salt_b64@, nonce_b64@);
        vstd::utf8::encode_utf8_valid_utf8(plaintext@);
        vstd::utf8::encode_utf8_decode_utf8(plaintext@);
    }
    let mut token = cipher_b64;
    token.append(",");
    token.append(salt_b64.as_str());
    token.append(",");
    token.append(nonce_b64.as_str());
    proof {
        assert(token@ =~= cipher_b64@ + seq![','] + salt_b64@ + seq![','] + nonce_b64@);
        assert(token_parts(token@) == Some((cipher@, salt@, nonce@)));
        assert(sealed_token_for(password@, plaintext@, token@, salt@, nonce@));
    }
    Ok(token)
}

/// Decrypt a token under a password, classifying every failure as
/// `decrypt_result` states: malformed structure and decode failures are
/// formatting errors, a failed authentication tag is a token error.
pub fn decrypt(password: &str, token: &str) -> (r: Result<String, ErrorType>)
    ensures
        match r {
            Ok(plain) => decrypt_result(password@, token@) == Result::<Seq<char>, ErrClass>::Ok(
                plain@,
            ),
            Err(e) => decrypt_result(password@, token@) == Result::<Seq<char>, ErrClass>::Err(
                e.spec_class(),
            ),
        },
{
    let fields = match split3_exec(token) {
        Some(f) => f,
        None => {
            return Err(ErrorType::BadFormatting(String::from_str("invalid encrypted format")));
        },
    };
    let (cipher_b64, salt_b64, nonce_b64) = fields;
    let cipher = match b64_decode(cipher_b64.as_str()) {
        Ok(v) => v,
        Err(_) => {
            return Err(ErrorType::BadFormatting(String::from_str("invalid base64 ciphertext")));
        },
    };
    let salt = match b64_decode(salt_b64.as_str()) {
        Ok(v) => v,
        Err(_) => {
            return Err(ErrorType::BadFormatting(String::from_str("invalid base64 salt")));
        },
    };
    let nonce = match b64_decode(nonce_b64.as_str()) {
        Ok(v) => v,
        Err(_) => {
            return Err(ErrorType::BadFormatting(String::from_str("invalid base64 nonce")));
        },
    };
    if nonce.len() != 12 {
        return Err(ErrorType::BadFormatting(String::from_str("nonce must be 12 bytes")));
    }
    if salt.len() < 8 || salt.len() > 48 {
        return Err(ErrorType::Forbidden(String::from_str("salt length not supported")));
    }
    let key = match derive_key(password, salt.as_slice()) {
        Ok(k) => k,
        Err(_) => {
            return Err(ErrorType::Forbidden(String::from_str("password hashing failed")));
        },
    };
    let plain_bytes = match aead_open(key.as_slice(), nonce.as_slice(), cipher.as_slice()) {
        Ok(p) => p,
        Err(_) => {
            return Err(ErrorType::BadToken(String::from_str("decryption failed")));
        },
    };
    match bytes_to_string(plain_bytes) {
        Ok(s) => Ok(s),
        Err(_) => Err(ErrorType::BadFormatting(String::from_str("plaintext is not valid text"))),
    }
}

/// The decoded parts of a token: ciphertext, salt and nonce bytes, where
/// the token splits into three fields that all base64-decode.
pub open spec fn token_parts(token: Seq<char>) -> Option<(Seq<u8>, Seq<u8>, Seq<u8>)> {
    match split3(token) {
        Option::None => Option::None,
        Option::Some(fields) => match (b64_decoded(fields.0), b64_decoded(fields.1), b64_decoded(
            fields.2,
        )) {
            (Option::Some(cipher), Option::Some(salt), Option::Some(nonce)) => Option::Some(
                (cipher, salt, nonce),
            ),
            _ => Option::None,
        },
    }
}

/// A string that does not split into exactly three comma-separated fields
/// fails decryption with the formatting class, for every password — the
/// outcome is decided before any key derivation or cipher call.
pub proof fn lemma_malformed_token_is_formatting(password: Seq<char>, token: Seq<char>)
    requires
        split3(token) is None,
    ensures
        decrypt_result(password, token) == Result::<Seq<char>, ErrClass>::Err(
            ErrClass::BadFormatting,
        ),
{
}

/// Where a token decrypts under some password, an attempt under a password
/// whose derived key fails the authentication tag reports the
/// authentication class, never the formatting class.  This is the provable
/// core of tamper rejection: that the tag does fail under every other
/// password is a property of the cipher itself, which `opened` leaves
/// open, so it is assumed here rather than claimed of the cipher.
pub proof fn lemma_auth_failure_is_token_class(
    good_password: Seq<char>,
    password: Seq<char>,
    token: Seq<char>,
)
    requires
        decrypt_result(good_password, token) is Ok,
        encode_utf8(password).len() <= 0xFFFFFFFF,
        token_parts(token) matches Some(parts) && opened(
            derived_key_of(password, parts.1),
            parts.2,
            parts.0,
        ) is None,
    ensures
        decrypt_result(password, token) == Result::<Seq<char>, ErrClass>::Err(ErrClass::BadToken),
{
}

/// The plan for bootstrapping the locally held passphrase.
#[derive(Debug)]
pub enum SecretPlan {
    /// The secure store already holds a passphrase; use it.
    UseExisting(String),
    /// The secure store holds none; store this fresh base64-encoded
    /// passphrase, generated from 16 random bytes.
    StoreFresh(String),
}

/// Decide how to bootstrap the passphrase from the outcome of reading it
/// out of the secure store: keep an existing value, generate a fresh one
/// where the entry is missing, and propagate a denial without retry.
pub fn bootstrap_secret_plan(fetched: Result<String, ErrorType>) -> (r: Result<
    SecretPlan,
    ErrorType,
>)
    ensures
        match fetched {
            Ok(secret) => r matches Ok(p) && p matches SecretPlan::UseExisting(s) && s@ == secret@,
            Err(e) => {
                if e is Forbidden {
                    r matches Err(e2) && e2 == e
                } else {
                    r matches Ok(p) && p matches SecretPlan::StoreFresh(s) && (exists|b: Seq<u8>|
                        b.len() == 16 && s@ == b64_of(b))
                }
            },
        },
{
    match fetched {
        Ok(secret) => Ok(SecretPlan::UseExisting(secret)),
        Err(e) => {
            if matches!(e.class(), ErrClass::Forbidden) {
                Err(e)
            } else {
                let fresh = fill_random(16);
                let encoded = b64_encode(fresh.as_slice());
                proof {
                    assert(fresh@.len() == 16 && encoded@ == b64_of(fresh@));
                }
                Ok(SecretPlan::StoreFresh(encoded))
            }
        },
    }
}

} // verus!
