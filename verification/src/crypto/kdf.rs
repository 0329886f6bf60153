//! Key derivation: Argon2id from the master password and a salt.
use vstd::prelude::*;
use crate::crypto::random::random_bytes;
use vstd::string::StringSliceAdditionalSpecFns;

verus! {

/// Length of the salt.
pub const SALT_LEN: usize = 32;

/// Length of the derived key.
pub const KEY_LEN: usize = 32;

/// Argon2id cost parameters.
pub struct KdfParams {
    pub m_cost: u32,
    pub t_cost: u32,
    pub p_cost: u32,
    pub output_len: usize,
}

/// Argon2id parameters: 64 MiB of memory, 3 iterations, 4 lanes, a 32-byte key.
pub fn argon2_params() -> (r: KdfParams)
    ensures
        r.m_cost == 65536,
        r.t_cost == 3,
        r.p_cost == 4,
        r.output_len == KEY_LEN,
{
    KdfParams { m_cost: 65536, t_cost: 3, p_cost: 4, output_len: KEY_LEN }
}

/// The 32-byte Argon2id (version 0x13) hash of a password's UTF-8 bytes with
/// a salt and cost parameters.
pub uninterp spec fn argon2id_hash(
    password: Seq<char>,
    salt: Seq<u8>,
    m_cost: u32,
    t_cost: u32,
    p_cost: u32,
) -> Seq<u8>;

/// Argon2id version 0x13 with a 32-byte output: `Params::new`, `Argon2::new`
/// and `Argon2::hash_password_into` on the password's bytes. The result is
/// named by `argon2id_hash`. Under the `requires` (which `Params::new` checks)
/// the argon2 source fails exactly for a password over 2^32 - 1 bytes; a
/// failure returns the error's text.
#[verifier::external_body]
fn argon2id(password: &str, salt: &[u8; 32], m_cost: u32, t_cost: u32, p_cost: u32) -> (r: Result<[u8; 32], String>)
    requires
        8 <= m_cost,
        8 * p_cost <= m_cost,
        1 <= t_cost,
        1 <= p_cost <= 0xFF_FFFF,
    ensures
        r matches Ok(k) ==> k@ == argon2id_hash(password@, salt@, m_cost, t_cost, p_cost),
        r is Ok <==> password.spec_bytes().len() <= 0xFFFF_FFFF,
{
    let params = match argon2::Params::new(m_cost, t_cost, p_cost, Some(32)) {
        Ok(p) => p,
        Err(e) => return Err(e.to_string()),
    };
    let hasher = argon2::Argon2::new(argon2::Algorithm::Argon2id, argon2::Version::V0x13, params);
    let mut key = [0u8; 32];
    match hasher.hash_password_into(password.as_bytes(), salt, &mut key) {
        Ok(()) => Ok(key),
        Err(e) => Err(e.to_string()),
    }
}

/// The text "argon2 KDF failed: ".
pub open spec fn kdf_failed_prefix() -> Seq<char> {
    seq!['a', 'r', 'g', 'o', 'n', '2', ' ', 'K', 'D', 'F', ' ', 'f', 'a', 'i', 'l', 'e', 'd', ':', ' ']
}

/// Derives a 256-bit key from the password and salt with Argon2id.
pub fn derive_key(password: &str, salt: &[u8; SALT_LEN]) -> (r: Result<[u8; KEY_LEN], String>)
    ensures
        r matches Ok(k) ==> k@ == argon2id_hash(password@, salt@, 65536, 3, 4),
        r matches Err(m) ==> m@.len() >= kdf_failed_prefix().len() && m@.subrange(0, kdf_failed_prefix().len() as int) == kdf_failed_prefix(),
        r is Ok <==> password.spec_bytes().len() <= 0xFFFF_FFFF,
{
    let params = argon2_params();
    match argon2id(password, salt, params.m_cost, params.t_cost, params.p_cost) {
        Ok(k) => Ok(k),
        Err(e) => {
            let prefix = String::from_str("argon2 KDF failed: ");
            proof {
                reveal_strlit("argon2 KDF failed: ");
                assert("argon2 KDF failed: "@ =~= kdf_failed_prefix());
            }
            let m = prefix.concat(e.as_str());
            assert(m@.subrange(0, kdf_failed_prefix().len() as int) =~= kdf_failed_prefix());
            Err(m)
        },
    }
}

/// A fresh random salt.
pub fn generate_salt() -> (r: [u8; SALT_LEN]) {
    let bytes = random_bytes(SALT_LEN);
    let mut salt = [0u8; SALT_LEN];
    for i in 0..SALT_LEN
        invariant
            bytes@.len() == SALT_LEN,
    {
        salt[i] = bytes[i];
    }
    salt
}

/// `Zeroize::zeroize` on a 32-byte array: the zeroize source sets every
/// element to zero, with writes the compiler may not remove.
#[verifier::external_body]
fn zeroize_array(key: &mut [u8; 32])
    ensures
        final(key)@ == Seq::new(32, |_i: int| 0u8),
{
    zeroize::Zeroize::zeroize(key);
}

/// Wipes a key after use: every byte becomes zero.
pub fn zeroize_key(key: &mut [u8; KEY_LEN])
    ensures
        final(key)@ == Seq::new(32, |_i: int| 0u8),
{
    zeroize_array(key);
}

} // verus!
