//! A user as the store keeps it, and the digests that guard its password.
//!
//! The store itself lives outside this library. What is decided here is how
//! a password becomes the digest that is stored, and whether a password
//! that is offered matches a stored one.
use vstd::prelude::*;
use vstd::string::*;
use sha2::Digest;

verus! {

/// The SHA-256 digest of `data`.
pub uninterp spec fn sha256_output(data: Seq<u8>) -> Seq<u8>;

/// The 32-byte tag that Argon2id (version 19; 19 MiB of memory, two
/// passes, one lane) gives `password` under `salt`, or `None` where Argon2
/// turns the inputs down.
pub uninterp spec fn argon2_output(password: Seq<u8>, salt: Seq<u8>) -> Option<Seq<u8>>;

/// Calls `sha2::Sha256::digest`. Trusted: the bytes returned are the SHA-256
/// digest of `data`, a function of `data` alone.
#[verifier::external_body]
fn sha256(data: &[u8]) -> (digest: [u8; 32])
    ensures
        digest@ == sha256_output(data@),
{
    sha2::Sha256::digest(data).into()
}

/// Calls `argon2::Argon2::hash_password_into` on `Argon2::default()` with a
/// 32-byte output buffer. Trusted: whether it succeeds and the tag it
/// writes are functions of `password` and `salt` alone; no more is claimed
/// of the tag. A failure comes back as the text that `argon2` gives it, of
/// which nothing is claimed.
#[verifier::external_body]
fn argon2_tag(password: &[u8], salt: &[u8; 8]) -> (outcome: Result<[u8; 32], String>)
    ensures
        match outcome {
            Ok(tag) => argon2_output(password@, salt@) == Some(tag@),
            Err(_) => argon2_output(password@, salt@) is None,
        },
{
    let mut tag = [0u8; 32];
    match argon2::Argon2::default().hash_password_into(password, salt, &mut tag) {
        Ok(()) => Ok(tag),
        Err(failure) => Err(failure.to_string()),
    }
}

/// Calls `getrandom::getrandom` on an 8-byte buffer. Nothing is claimed of
/// the bytes it returns, nor of the text that stands for a failure.
#[verifier::external_body]
fn random_salt() -> (outcome: Result<[u8; 8], String>) {
    let mut salt = [0u8; 8];
    match getrandom::getrandom(&mut salt) {
        Ok(()) => Ok(salt),
        Err(failure) => Err(failure.to_string()),
    }
}

/// How passwords are digested: with Argon2, which is slow on purpose, or
/// with one round of SHA-256 over password and salt.
#[derive(Clone, Copy, Debug, PartialEq, Eq, Structural)]
pub enum Hashing {
    Secure,
    Fast,
}

/// Why a password could not be digested. Each failure carries the words
/// of whoever reported it.
#[derive(Debug)]
pub enum HashError {
    /// The system gave no random bytes for a salt.
    Randomness(String),
    /// Argon2 turned the password or the salt down.
    Digest(String),
}

impl HashError {
    /// What the failure carries, as contracts speak of it.
    pub open spec fn detail(&self) -> Seq<char> {
        match self {
            HashError::Randomness(detail) => detail@,
            HashError::Digest(detail) => detail@,
        }
    }

    /// The sentence that reports the failure.
    pub open spec fn spec_message(&self) -> Seq<char> {
        match self {
            HashError::Randomness(detail) => "Could not get OS random: "@ + detail@,
            HashError::Digest(detail) => "Could not hash password: "@ + detail@,
        }
    }

    /// The sentence that reports the failure.
    pub fn message(&self) -> (text: String)
        ensures
            text@ == self.spec_message(),
    {
        match self {
            HashError::Randomness(detail) => String::from_str("Could not get OS random: ").concat(
                detail.as_str(),
            ),
            HashError::Digest(detail) => String::from_str("Could not hash password: ").concat(detail.as_str()),
        }
    }
}

/// The digest under which `password` is stored with `salt`, where there is
/// one: the Argon2 tag of the password's bytes, or the SHA-256 digest of
/// the password's bytes followed by the salt.
pub open spec fn salted_digest(password: Seq<char>, salt: Seq<u8>, hashing: Hashing) -> Option<Seq<u8>> {
    match hashing {
        Hashing::Secure => argon2_output(vstd::utf8::encode_utf8(password), salt),
        Hashing::Fast => Some(sha256_output(vstd::utf8::encode_utf8(password) + salt)),
    }
}

/// Digests `password` with `salt`. Fast hashing never fails.
pub fn hash_with_salt(password: &str, salt: [u8; 8], hashing: Hashing) -> (outcome: Result<[u8; 32], HashError>)
    ensures
        match outcome {
            Ok(digest) => salted_digest(password@, salt@, hashing) == Some(digest@),
            Err(failure) => failure is Digest && salted_digest(password@, salt@, hashing) is None,
        },
{
    let bytes = password.as_bytes();
    match hashing {
        Hashing::Secure => match argon2_tag(bytes, &salt) {
            Ok(tag) => Ok(tag),
            Err(failure) => Err(HashError::Digest(failure)),
        },
        Hashing::Fast => {
            let mut data: Vec<u8> = Vec::new();
            let mut i: usize = 0;
            while i < bytes.len()
                invariant
                    i <= bytes@.len(),
                    data@ == bytes@.take(i as int),
                decreases bytes@.len() - i,
            {
                data.push(bytes[i]);
                i += 1;
                assert(data@ =~= bytes@.take(i as int));
            }
            assert(bytes@.take(i as int) =~= bytes@);
            let mut k: usize = 0;
            while k < 8
                invariant
                    k <= 8,
                    data@ == bytes@ + salt@.take(k as int),
                decreases 8 - k,
            {
                data.push(salt[k]);
                k += 1;
                assert(data@ =~= bytes@ + salt@.take(k as int));
            }
            assert(salt@.take(8) =~= salt@);
            Ok(sha256(data.as_slice()))
        },
    }
}

/// Digests `password` under a fresh random salt and returns digest and
/// salt. Whatever salt the system gives, the digest is the one that
/// belongs to it.
pub fn hash(password: &str, hashing: Hashing) -> (outcome: Result<([u8; 32], [u8; 8]), HashError>)
    ensures
        match outcome {
            Ok(pair) => salted_digest(password@, pair.1@, hashing) == Some(pair.0@),
            Err(failure) => failure is Digest ==> hashing == Hashing::Secure,
        },
{
    let salt = match random_salt() {
        Ok(salt) => salt,
        Err(failure) => {
            return Err(HashError::Randomness(failure));
        },
    };
    match hash_with_salt(password, salt, hashing) {
        Ok(digest) => Ok((digest, salt)),
        Err(failure) => Err(failure),
    }
}

/// Whether two digests are the same, found without stopping at the first
/// byte that differs.
pub fn digests_equal(left: &[u8; 32], right: &[u8; 32]) -> (same: bool)
    ensures
        same == (left@ == right@),
{
    let mut difference: u8 = 0;
    let mut i: usize = 0;
    while i < 32
        invariant
            i <= 32,
            difference == 0 <==> (forall|k: int| 0 <= k < i ==> left@[k] == right@[k]),
        decreases 32 - i,
    {
        let a: u8 = left[i];
        let b: u8 = right[i];
        let before = difference;
        difference = difference | (a ^ b);
        assert(difference == 0 <==> (before == 0 && a == b)) by (bit_vector)
            requires
                difference == before | (a ^ b),
        ;
        assert(a == left@[i as int] && b == right@[i as int]);
        i += 1;
    }
    assert(difference == 0 ==> left@ =~= right@);
    difference == 0
}

/// One row of the store.
#[derive(Debug)]
pub struct User {
    id: u64,
    username: String,
    password: [u8; 32],
    salt: [u8; 8],
    boxes: u64,
    verified: bool,
}

/// A user as contracts speak of it.
pub ghost struct UserView {
    pub id: u64,
    pub username: Seq<char>,
    pub password: Seq<u8>,
    pub salt: Seq<u8>,
    pub boxes: u64,
    pub verified: bool,
}

impl View for User {
    type V = UserView;

    closed spec fn view(&self) -> UserView {
        UserView {
            id: self.id,
            username: self.username@,
            password: self.password@,
            salt: self.salt@,
            boxes: self.boxes,
            verified: self.verified,
        }
    }
}

impl User {
    /// A user with the given row.
    pub fn new(id: u64, username: String, password: [u8; 32], salt: [u8; 8], boxes: u64, verified: bool) -> (user:
        Self)
        ensures
            user@ == (UserView {
                id,
                username: username@,
                password: password@,
                salt: salt@,
                boxes,
                verified,
            }),
    {
        User { id, username, password, salt, boxes, verified }
    }

    /// The key of the row.
    pub fn id(&self) -> (id: u64)
        ensures
            id == self@.id,
    {
        self.id
    }

    /// The name the user registered under.
    pub fn username(&self) -> (name: &str)
        ensures
            name@ == self@.username,
    {
        self.username.as_str()
    }

    /// The board, one bit for each box.
    pub fn boxes(&self) -> (boxes: u64)
        ensures
            boxes == self@.boxes,
    {
        self.boxes
    }

    /// Whether an administrator has verified the user.
    pub fn verified(&self) -> (verified: bool)
        ensures
            verified == self@.verified,
    {
        self.verified
    }

    /// The salt under which the password was digested.
    pub fn salt(&self) -> (salt: [u8; 8])
        ensures
            salt@ == self@.salt,
    {
        self.salt
    }

    /// The stored digest of the password.
    pub fn password(&self) -> (digest: [u8; 32])
        ensures
            digest@ == self@.password,
    {
        self.password
    }
}

/// Whether `password` opens the account that the store found under a
/// name, given as `found`. No account, no entry; else the password's digest
/// under the account's salt must be the stored one.
pub open spec fn authenticates(found: Option<User>, password: Seq<char>, hashing: Hashing) -> Option<bool> {
    match found {
        None => Some(false),
        Some(user) => match salted_digest(password, user@.salt, hashing) {
            Some(digest) => Some(digest == user@.password),
            None => None,
        },
    }
}

/// Checks `password` against what the store found under a name. Fails
/// only where the password could not be digested.
pub fn db_authenticate(found: &Option<User>, password: &str, hashing: Hashing) -> (outcome: Result<
    bool,
    HashError,
>)
    ensures
        match outcome {
            Ok(matches) => authenticates(*found, password@, hashing) == Some(matches),
            Err(failure) => failure is Digest && authenticates(*found, password@, hashing) is None,
        },
{
    match found {
        None => Ok(false),
        Some(user) => match hash_with_salt(password, user.salt, hashing) {
            Ok(digest) => Ok(digests_equal(&digest, &user.password)),
            Err(failure) => Err(failure),
        },
    }
}

} // verus!
