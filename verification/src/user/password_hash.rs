//! The stored form of a password.
use vstd::prelude::*;
use vstd::string::{StrSliceExecFns, StringSliceAdditionalSpecFns};

use crate::database::column_type::DatabaseType;
use crate::database::value::{SqlValue, SqlValueView};
use crate::util::bytes::{to_array32, to_list32};

verus! {

/// The number of bytes of a derived key.
pub const CREDENTIAL_LEN: usize = 32;

/// The number of rounds of the key derivation.
pub const PBKDF_ITERATIONS: u32 = 100_000;

/// The longest password, in bytes, that a key is derived from: the most
/// whose length in bits the hash function can count in 64 bits.
pub const MAX_SECRET_LEN: u64 = 0x1fff_ffff_ffff_ffff;

/// The longest salt, in bytes, that a key is derived from. The salt is
/// hashed behind one block of 64 bytes and before a counter of 4 bytes, so
/// that it is shorter by these than the longest input of the hash function.
pub const MAX_SALT_LEN: u64 = 0x1fff_ffff_ffff_ffbb;

/// The 32 bytes that PBKDF2 with HMAC-SHA256 derives from a password and a
/// salt in the given number of rounds.
pub uninterp spec fn pbkdf2_hmac_sha256(iterations: u32, salt: Seq<u8>, secret: Seq<u8>) -> Seq<
    u8,
>;

/// `ring::pbkdf2::derive` with `PBKDF2_HMAC_SHA256` and an output of 32
/// bytes: the derived key. Inputs that ring refuses as too long are left
/// out.
#[verifier::external_body]
fn derive(salt: &[u8], secret: &[u8]) -> (credential: [u8; 32])
    requires
        salt@.len() <= MAX_SALT_LEN,
        secret@.len() <= MAX_SECRET_LEN,
    ensures
        credential@ == pbkdf2_hmac_sha256(PBKDF_ITERATIONS, salt@, secret@),
{
    let mut credential = [0u8; 32];
    let iterations = core::num::NonZeroU32::new(PBKDF_ITERATIONS).unwrap();
    let algorithm = ring::pbkdf2::PBKDF2_HMAC_SHA256;
    ring::pbkdf2::derive(algorithm, iterations, salt, secret, &mut credential);
    credential
}

/// `ring::pbkdf2::verify` with `PBKDF2_HMAC_SHA256`: whether the key derived
/// from the salt and the password is the key that was derived before. The
/// comparison takes the same time whatever the outcome.
#[verifier::external_body]
fn verify(salt: &[u8], secret: &[u8], previously_derived: &[u8; 32]) -> (matches: bool)
    requires
        salt@.len() <= MAX_SALT_LEN,
        secret@.len() <= MAX_SECRET_LEN,
    ensures
        matches == (pbkdf2_hmac_sha256(PBKDF_ITERATIONS, salt@, secret@) == previously_derived@),
{
    let iterations = core::num::NonZeroU32::new(PBKDF_ITERATIONS).unwrap();
    ring::pbkdf2::verify(
        ring::pbkdf2::PBKDF2_HMAC_SHA256,
        iterations,
        salt,
        secret,
        previously_derived,
    ).is_ok()
}

/// The part of every salt that does not depend on the user.
pub open spec fn fixed_salt() -> Seq<u8> {
    seq![67u8, 104u8, 114u8, 105u8, 115u8]
}

/// The salt of a user: the fixed part, then the bytes of the user's name.
pub open spec fn salt_of(username: Seq<u8>) -> Seq<u8> {
    fixed_salt() + username
}

/// The key derived from a password for a user.
pub open spec fn credential_of(username: Seq<u8>, password: Seq<u8>) -> Seq<u8> {
    pbkdf2_hmac_sha256(PBKDF_ITERATIONS, salt_of(username), password)
}

/// The key derived from a user's password, or the mark that there is none.
#[derive(Debug, Clone, Copy, PartialEq, Eq)]
pub struct PasswordHash(pub [u8; 32], pub bool);

impl PasswordHash {
    /// The hash of a user's password.
    pub fn new(username: &str, password: &str) -> (hash: Self)
        requires
            username.spec_bytes().len() + 5 <= MAX_SALT_LEN,
            password.spec_bytes().len() <= MAX_SECRET_LEN,
        ensures
            hash.1,
            hash.0@ == credential_of(username.spec_bytes(), password.spec_bytes()),
    {
        let salt = PasswordHash::salt(username);
        let credential = derive(salt.as_slice(), password.as_bytes());
        PasswordHash(credential, true)
    }

    /// A hash that no password matches.
    pub fn invalid() -> (hash: Self)
        ensures
            !hash.1,
            hash.0@ == Seq::new(32, |i: int| 0u8),
    {
        let zeroes = [0u8; 32];
        proof {
            vstd::array::axiom_spec_array_fill_for_copy_type::<u8, 32>(0u8);
            vstd::array::array_len_matches_n(&zeroes);
            assert(zeroes@.len() == 32);
            assert forall|i: int| 0 <= i < 32 implies zeroes@[i] == 0u8 by {}
            assert(zeroes@ =~= Seq::new(32, |i: int| 0u8));
        }
        PasswordHash(zeroes, false)
    }

    /// Whether `other_password` is the password of `username` that the hash
    /// was made from. Nothing matches an invalid hash.
    pub fn matches(&self, username: &str, other_password: &str) -> (matches: bool)
        requires
            username.spec_bytes().len() + 5 <= MAX_SALT_LEN,
            other_password.spec_bytes().len() <= MAX_SECRET_LEN,
        ensures
            matches == (self.1 && credential_of(
                username.spec_bytes(),
                other_password.spec_bytes(),
            ) == self.0@),
    {
        if !self.is_valid() {
            return false;
        }
        let salt = PasswordHash::salt(username);
        verify(salt.as_slice(), other_password.as_bytes(), &self.0)
    }

    /// Whether the hash was made from a password.
    pub fn is_valid(&self) -> (valid: bool)
        ensures
            valid == self.1,
    {
        self.1
    }

    /// The salt of a user.
    pub fn salt(username: &str) -> (salt: Vec<u8>)
        ensures
            salt@ == salt_of(username.spec_bytes()),
    {
        let mut salt: Vec<u8> = Vec::new();
        salt.push(67);
        salt.push(104);
        salt.push(114);
        salt.push(105);
        salt.push(115);
        let mut name = username.as_bytes_vec();
        salt.append(&mut name);
        assert(salt@ == salt_of(username.spec_bytes()));
        salt
    }
}

impl DatabaseType for PasswordHash {
    open spec fn raw_column_value_spec() -> Seq<char> {
        "BLOB"@
    }

    open spec fn nullable_spec() -> bool {
        false
    }

    open spec fn is_sortable_spec() -> bool {
        false
    }

    /// A valid hash is stored as its bytes. An invalid hash is not stored.
    open spec fn encode(&self) -> Option<SqlValueView> {
        if self.1 {
            Some(SqlValueView::Blob(self.0@))
        } else {
            None
        }
    }

    open spec fn accepts(value: SqlValueView) -> bool {
        value is Blob && value->Blob_0.len() == 32
    }

    open spec fn decodes(value: SqlValueView, item: PasswordHash) -> bool {
        value is Blob && item.0@ == value->Blob_0 && item.1
    }

    fn raw_column_value() -> (raw: &'static str) {
        "BLOB"
    }

    fn nullable() -> (nullable: bool) {
        false
    }

    fn is_sortable() -> (sortable: bool) {
        false
    }

    fn to_sql(&self) -> (value: Option<SqlValue>) {
        if !self.1 {
            return None;
        }
        Some(SqlValue::Blob(to_list32(&self.0)))
    }

    fn from_sql(value: &SqlValue) -> (item: Option<PasswordHash>) {
        match value {
            SqlValue::Blob(bytes) => match to_array32(bytes) {
                Some(credential) => Some(PasswordHash(credential, true)),
                None => None,
            },
            _ => None,
        }
    }

    proof fn lemma_stored(self) {
    }
}

} // verus!
