//! The encrypted-file backend: an AES-256-GCM vault on disk whose key is
//! derived from the master password. Reading and writing the files is left to
//! the caller; this type holds the unlocked vault and turns bytes into vault
//! contents and back.
use vstd::prelude::*;
use crate::crypto::aead::{
    VaultFile, VaultFileView, AeadErrorView, VERSION, NONCE_LEN, TAG_LEN, encrypt, decrypt, aead_error_message,
    aes256gcm_open, aes256gcm_seal, vault_file_parse, vault_file_bytes, max_plaintext_len,
    law_vault_file_write_then_read,
};
use crate::crypto::kdf::{derive_key, argon2id_hash, zeroize_key, SALT_LEN, KEY_LEN};
use crate::model::token::{VaultData, VaultEntryView, vault_lookup, vault_set, vault_delete, entry_is};
use crate::model::lookup::some_match;
use crate::text::{decimal, decimal_string, join_path, path_join};
use vstd::string::StringSliceAdditionalSpecFns;

verus! {

/// Storage backend using an AES-256-GCM encrypted local file.
pub struct EncryptedFileBackend {
    vault_path: String,
    salt_path: String,
    unlocked: Option<(VaultData, [u8; KEY_LEN])>,
}

/// The mathematical value of the backend: its two file paths and, once
/// unlocked, the vault contents and the key.
pub struct EncryptedFileView {
    pub vault_path: Seq<char>,
    pub salt_path: Seq<char>,
    pub vault: Option<Seq<VaultEntryView>>,
    pub key: Option<Seq<u8>>,
}

impl View for EncryptedFileBackend {
    type V = EncryptedFileView;

    closed spec fn view(&self) -> EncryptedFileView {
        EncryptedFileView {
            vault_path: self.vault_path@,
            salt_path: self.salt_path@,
            vault: match self.unlocked {
                Some((v, _)) => Some(v@),
                None => None,
            },
            key: match self.unlocked {
                Some((_, k)) => Some(k@),
                None => None,
            },
        }
    }
}

/// The key derived from a password and salt with the library's Argon2id parameters.
pub open spec fn password_key(password: Seq<char>, salt: Seq<u8>) -> Seq<u8> {
    argon2id_hash(password, salt, 65536, 3, 4)
}

/// The error of a locked vault.
pub open spec fn locked_text() -> Seq<char> {
    "vault is locked — call unlock first"@
}

/// The error for a `service:key` the vault does not hold.
pub open spec fn not_in_vault_text(service: Seq<char>, key: Seq<char>) -> Seq<char> {
    "no token found for "@ + service + ":"@ + key + " in vault"@
}

/// The error of a failed key derivation.
pub open spec fn derive_failed_text() -> Seq<char> {
    "failed to derive key"@
}

/// The error of a salt file of the wrong length.
pub open spec fn bad_salt_text(len: nat) -> Seq<char> {
    "invalid salt file: expected 32 bytes, got "@ + decimal(len)
}

/// The error of initialising over an existing vault.
pub open spec fn already_exists_text(vault_path: Seq<char>) -> Seq<char> {
    "vault already exists at "@ + vault_path
}

/// What the bytes of a vault file decrypt to under `key`: the plaintext, or
/// the message of the format or decryption error.
pub open spec fn unseal_outcome(key: Seq<u8>, bytes: Seq<u8>) -> Result<Seq<u8>, Seq<char>> {
    match vault_file_parse(bytes) {
        Err(e) => Err(aead_error_message(e)),
        Ok(f) => match aes256gcm_open(key, f.nonce, f.ciphertext) {
            Some(p) => Ok(p),
            None => Err(aead_error_message(AeadErrorView::DecryptionFailed)),
        },
    }
}

/// The bytes of a version-1 vault file holding `plaintext` sealed under `key`
/// with `nonce`, recording `salt`.
pub open spec fn sealed_file_bytes(key: Seq<u8>, salt: Seq<u8>, nonce: Seq<u8>, plaintext: Seq<u8>) -> Seq<u8> {
    vault_file_bytes(
        VaultFileView { version: VERSION, salt, nonce, ciphertext: aes256gcm_seal(key, nonce, plaintext) },
    )
}

/// What `get` answers on a backend.
pub open spec fn file_get(b: EncryptedFileView, service: Seq<char>, key: Seq<char>) -> Result<Seq<char>, Seq<char>> {
    match b.vault {
        None => Err(locked_text()),
        Some(v) => match vault_lookup(v, service, key) {
            Some(x) => Ok(x),
            None => Err(not_in_vault_text(service, key)),
        },
    }
}

/// The backend after `set`: an unlocked vault gets the value.
pub open spec fn file_set(b: EncryptedFileView, service: Seq<char>, key: Seq<char>, value: Seq<char>) -> EncryptedFileView {
    match b.vault {
        None => b,
        Some(v) => EncryptedFileView { vault: Some(vault_set(v, service, key, value)), ..b },
    }
}

/// The backend after `delete`: an unlocked vault loses every entry for the key.
pub open spec fn file_delete(b: EncryptedFileView, service: Seq<char>, key: Seq<char>) -> EncryptedFileView {
    match b.vault {
        None => b,
        Some(v) => EncryptedFileView { vault: Some(vault_delete(v, service, key)), ..b },
    }
}

/// What `delete` answers on a backend.
pub open spec fn file_delete_result(b: EncryptedFileView, service: Seq<char>, key: Seq<char>) -> Result<(), Seq<char>> {
    match b.vault {
        None => Err(locked_text()),
        Some(v) => if some_match(v, entry_is(service, key)) {
            Ok(())
        } else {
            Err(not_in_vault_text(service, key))
        },
    }
}

/// The result of opening a vault file, as plain values.
pub open spec fn opened_view(r: Result<([u8; KEY_LEN], Vec<u8>), String>) -> Result<(Seq<u8>, Seq<u8>), Seq<char>> {
    match r {
        Ok((k, p)) => Ok((k@, p@)),
        Err(m) => Err(m@),
    }
}

/// What opening the vault file `bytes` with a password gives once the key
/// `key` is derived: the key and the plaintext, or the error's message.
pub open spec fn open_outcome(key: Seq<u8>, bytes: Seq<u8>) -> Result<(Seq<u8>, Seq<u8>), Seq<char>> {
    match unseal_outcome(key, bytes) {
        Ok(p) => Ok((key, p)),
        Err(m) => Err(m),
    }
}

/// Checks the bytes read from the salt file: exactly 32 of them.
pub fn parse_salt(bytes: &[u8]) -> (r: Result<[u8; SALT_LEN], String>)
    ensures
        bytes@.len() == SALT_LEN ==> (r matches Ok(s) && s@ == bytes@),
        bytes@.len() != SALT_LEN ==> (r matches Err(m) && m@ == bad_salt_text(bytes@.len())),
{
    let n = bytes.len();
    if n != SALT_LEN {
        let m = String::from_str("invalid salt file: expected 32 bytes, got ").concat(
            decimal_string(n as u64).as_str(),
        );
        return Err(m);
    }
    let mut salt = [0u8; SALT_LEN];
    for i in 0..SALT_LEN
        invariant
            bytes@.len() == SALT_LEN,
            forall|j: int| 0 <= j < i ==> salt@[j] == bytes@[j],
    {
        salt[i] = bytes[i];
    }
    assert(salt@ =~= bytes@);
    Ok(salt)
}

/// Derives the key from the password and salt, then parses and decrypts the
/// vault file `vault_bytes`: the key and the plaintext, or an error message.
/// A file that `seal_vault` wrote under the key of the same password and
/// salt opens to the plaintext it was written from.
pub fn open_vault(password: &str, salt: &[u8; SALT_LEN], vault_bytes: &[u8]) -> (r: Result<
    ([u8; KEY_LEN], Vec<u8>),
    String,
>)
    ensures
        password.spec_bytes().len() <= 0xFFFF_FFFF ==> opened_view(r) == open_outcome(
            password_key(password@, salt@),
            vault_bytes@,
        ),
        password.spec_bytes().len() > 0xFFFF_FFFF ==> opened_view(r) == Err::<(Seq<u8>, Seq<u8>), Seq<char>>(
            derive_failed_text(),
        ),
        forall|s: Seq<u8>, n: Seq<u8>, p: Seq<u8>|
            s.len() == 32 && n.len() == NONCE_LEN && p.len() <= max_plaintext_len() && aes256gcm_seal(
                password_key(password@, salt@),
                n,
                p,
            ).len() == p.len() + TAG_LEN && password.spec_bytes().len() <= 0xFFFF_FFFF && vault_bytes@ == #[trigger] sealed_file_bytes(
                password_key(password@, salt@),
                s,
                n,
                p,
            ) ==> opened_view(r) == Ok::<(Seq<u8>, Seq<u8>), Seq<char>>((password_key(password@, salt@), p)),
{
    let key = match derive_key(password, salt) {
        Ok(k) => k,
        Err(_) => {
            return Err(String::from_str("failed to derive key"));
        },
    };
    let ghost k = key@;
    let file = match VaultFile::from_bytes(vault_bytes) {
        Ok(f) => f,
        Err(e) => {
            proof {
                assert forall|s: Seq<u8>, n: Seq<u8>, q: Seq<u8>|
                    s.len() == 32 && n.len() == NONCE_LEN && q.len() <= max_plaintext_len()
                        && aes256gcm_seal(k, n, q).len() == q.len() + TAG_LEN && vault_bytes@ == #[trigger] sealed_file_bytes(k, s, n, q) implies false by {
                    let f = VaultFileView { version: VERSION, salt: s, nonce: n, ciphertext: aes256gcm_seal(k, n, q) };
                    law_vault_file_write_then_read(f);
                }
            }
            return Err(e.message());
        },
    };
    assert(vault_file_parse(vault_bytes@) == Ok::<VaultFileView, AeadErrorView>(file@));
    match decrypt(&key, &file) {
        Ok(p) => {
            proof {
                assert forall|s: Seq<u8>, n: Seq<u8>, q: Seq<u8>|
                    s.len() == 32 && n.len() == NONCE_LEN && q.len() <= max_plaintext_len()
                        && aes256gcm_seal(k, n, q).len() == q.len() + TAG_LEN && vault_bytes@ == #[trigger] sealed_file_bytes(k, s, n, q) implies q == p@ by {
                    let f = VaultFileView { version: VERSION, salt: s, nonce: n, ciphertext: aes256gcm_seal(k, n, q) };
                    law_vault_file_write_then_read(f);
                    assert(file@ == f);
                    assert(file.nonce@ == n);
                }
            }
            Ok((key, p))
        },
        Err(e) => {
            proof {
                assert forall|s: Seq<u8>, n: Seq<u8>, q: Seq<u8>|
                    s.len() == 32 && n.len() == NONCE_LEN && q.len() <= max_plaintext_len()
                        && aes256gcm_seal(k, n, q).len() == q.len() + TAG_LEN && vault_bytes@ == #[trigger] sealed_file_bytes(k, s, n, q) implies false by {
                    let f = VaultFileView { version: VERSION, salt: s, nonce: n, ciphertext: aes256gcm_seal(k, n, q) };
                    law_vault_file_write_then_read(f);
                    assert(file@ == f);
                }
            }
            Err(e.message())
        },
    }
}

/// The plaintext a vault file holds under a password and salt, or the error
/// that opening it gives.
pub open spec fn vault_plaintext(password: Seq<char>, password_bytes: nat, salt: Seq<u8>, bytes: Seq<u8>) -> Result<
    Seq<u8>,
    Seq<char>,
> {
    if password_bytes <= 0xFFFF_FFFF {
        unseal_outcome(password_key(password, salt), bytes)
    } else {
        Err(derive_failed_text())
    }
}

/// Changes the master password of a vault file: opens `vault_bytes` with the
/// old password and salt and seals the same plaintext, under a fresh nonce,
/// with the key of the new password and salt. The new file opens with the new
/// password and salt to the plaintext the old one held (see `open_vault`).
pub fn rekey_vault(
    old_password: &str,
    old_salt: &[u8; SALT_LEN],
    vault_bytes: &[u8],
    new_password: &str,
    new_salt: &[u8; SALT_LEN],
) -> (r: Result<Vec<u8>, String>)
    ensures
        vault_plaintext(old_password@, old_password.spec_bytes().len(), old_salt@, vault_bytes@) matches Err(m)
            ==> (r matches Err(e) && e@ == m),
        r matches Ok(b) ==> vault_plaintext(old_password@, old_password.spec_bytes().len(), old_salt@, vault_bytes@)
            matches Ok(p) && exists|n: Seq<u8>|
            n.len() == NONCE_LEN && aes256gcm_seal(password_key(new_password@, new_salt@), n, p).len() == p.len()
                + TAG_LEN && b@ == #[trigger] sealed_file_bytes(password_key(new_password@, new_salt@), new_salt@, n, p),
        vault_plaintext(old_password@, old_password.spec_bytes().len(), old_salt@, vault_bytes@) matches Ok(p) ==> (
        r is Ok <==> new_password.spec_bytes().len() <= 0xFFFF_FFFF && p.len() <= max_plaintext_len()),
        vault_plaintext(old_password@, old_password.spec_bytes().len(), old_salt@, vault_bytes@) is Ok
            && new_password.spec_bytes().len() > 0xFFFF_FFFF ==> (r matches Err(e) && e@ == derive_failed_text()),
{
    let (old_key, plaintext) = open_vault(old_password, old_salt, vault_bytes)?;
    assert(vault_plaintext(old_password@, old_password.spec_bytes().len(), old_salt@, vault_bytes@)
        == Ok::<Seq<u8>, Seq<char>>(plaintext@));
    let mut old_key = old_key;
    zeroize_key(&mut old_key);
    let new_key = match derive_key(new_password, new_salt) {
        Ok(k) => k,
        Err(_) => {
            return Err(String::from_str("failed to derive key"));
        },
    };
    match encrypt(&new_key, new_salt, plaintext.as_slice()) {
        Ok(f) => {
            let b = f.to_bytes();
            assert(f.nonce@.len() == NONCE_LEN);
            assert(new_key@ == password_key(new_password@, new_salt@));
            assert(b@ == sealed_file_bytes(password_key(new_password@, new_salt@), new_salt@, f.nonce@, plaintext@));
            Ok(b)
        },
        Err(e) => Err(e.message()),
    }
}

impl EncryptedFileBackend {
    /// A locked backend whose vault is `vault.enc` and salt `salt` in `tkm_dir`.
    pub fn new(tkm_dir: &str) -> (r: EncryptedFileBackend)
        ensures
            r@.vault_path == path_join(tkm_dir@, "vault.enc"@),
            r@.salt_path == path_join(tkm_dir@, "salt"@),
            r@.vault is None,
            r@.key is None,
    {
        EncryptedFileBackend {
            vault_path: join_path(tkm_dir, "vault.enc"),
            salt_path: join_path(tkm_dir, "salt"),
            unlocked: None,
        }
    }

    /// Path of the vault file.
    pub fn vault_path(&self) -> (r: &str)
        ensures
            r@ == self@.vault_path,
    {
        self.vault_path.as_str()
    }

    /// Path of the salt file.
    pub fn salt_path(&self) -> (r: &str)
        ensures
            r@ == self@.salt_path,
    {
        self.salt_path.as_str()
    }

    /// The unlocked vault, if any.
    pub fn vault(&self) -> (r: Option<&VaultData>)
        ensures
            match r {
                Some(v) => self@.vault == Some(v@),
                None => self@.vault is None,
            },
    {
        match &self.unlocked {
            Some((v, _)) => Some(v),
            None => None,
        }
    }

    /// Starts a new vault under `password` and `salt`: refused when a vault
    /// already exists; otherwise the backend holds an empty vault and the
    /// derived key, ready to be sealed and written.
    pub fn init(&mut self, vault_exists: bool, password: &str, salt: &[u8; SALT_LEN]) -> (r: Result<(), String>)
        ensures
            vault_exists ==> (r matches Err(m) && m@ == already_exists_text(old(self)@.vault_path) && final(self)@ == old(self)@),
            !vault_exists && r is Ok ==> final(self)@ == (EncryptedFileView {
                vault: Some(Seq::empty()),
                key: Some(password_key(password@, salt@)),
                ..old(self)@
            }),
            !vault_exists && r is Err ==> (r matches Err(m) && m@ == derive_failed_text() && final(self)@ == old(self)@),
            !vault_exists ==> (r is Ok <==> password.spec_bytes().len() <= 0xFFFF_FFFF),
    {
        if vault_exists {
            return Err(String::from_str("vault already exists at ").concat(self.vault_path.as_str()));
        }
        match derive_key(password, salt) {
            Ok(key) => {
                self.unlocked = Some((VaultData::new(), key));
                Ok(())
            },
            Err(_) => Err(String::from_str("failed to derive key")),
        }
    }

    /// Holds an opened vault and its key: the backend is unlocked.
    pub fn unlock_with(&mut self, vault: VaultData, key: [u8; KEY_LEN])
        ensures
            final(self)@ == (EncryptedFileView { vault: Some(vault@), key: Some(key@), ..old(self)@ }),
    {
        self.unlocked = Some((vault, key));
    }

    /// Seals the unlocked vault's serialised contents `plaintext` under the
    /// key with a fresh nonce, into the bytes of a vault file recording
    /// `salt`.
    pub fn seal_vault(&self, salt: &[u8; SALT_LEN], plaintext: &[u8]) -> (r: Result<Vec<u8>, String>)
        ensures
            self@.key is None ==> (r matches Err(m) && m@ == locked_text()),
            r matches Ok(b) ==> self@.key is Some && exists|n: Seq<u8>|
                n.len() == NONCE_LEN && aes256gcm_seal(self@.key->0, n, plaintext@).len() == plaintext@.len() + TAG_LEN
                    && b@ == #[trigger] sealed_file_bytes(self@.key->0, salt@, n, plaintext@),
            r is Ok <==> self@.key is Some && plaintext@.len() <= max_plaintext_len(),
    {
        match &self.unlocked {
            None => Err(String::from_str("vault is locked — call unlock first")),
            Some((_, key)) => match encrypt(key, salt, plaintext) {
                Ok(f) => {
                    let b = f.to_bytes();
                    assert(f@ == VaultFileView {
                        version: VERSION,
                        salt: salt@,
                        nonce: f.nonce@,
                        ciphertext: aes256gcm_seal(key@, f.nonce@, plaintext@),
                    });
                    assert(b@ == sealed_file_bytes(key@, salt@, f.nonce@, plaintext@));
                    assert(f.nonce@.len() == NONCE_LEN);
                    assert(self@.key->0 == key@);
                    assert(b@ == sealed_file_bytes(self@.key->0, salt@, f.nonce@, plaintext@));
                    Ok(b)
                },
                Err(e) => Err(e.message()),
            },
        }
    }

    /// The secret stored for `service:key`.
    pub fn get(&self, service: &str, key: &str) -> (r: Result<String, String>)
        ensures
            match r {
                Ok(v) => file_get(self@, service@, key@) == Ok::<Seq<char>, Seq<char>>(v@),
                Err(m) => file_get(self@, service@, key@) == Err::<Seq<char>, Seq<char>>(m@),
            },
    {
        match &self.unlocked {
            None => Err(String::from_str("vault is locked — call unlock first")),
            Some((vault, _)) => match vault.get(service, key) {
                Some(v) => Ok(String::from_str(v)),
                None => Err(
                    String::from_str("no token found for ").concat(service).concat(":").concat(key).concat(
                        " in vault",
                    ),
                ),
            },
        }
    }

    /// Stores a secret in the unlocked vault; the caller then seals and
    /// writes the vault.
    pub fn set(&mut self, service: &str, key: &str, value: &str) -> (r: Result<(), String>)
        ensures
            final(self)@ == file_set(old(self)@, service@, key@, value@),
            old(self)@.vault is None ==> (r matches Err(m) && m@ == locked_text()),
            old(self)@.vault is Some ==> r is Ok,
    {
        match self.unlocked.take() {
            None => Err(String::from_str("vault is locked — call unlock first")),
            Some((vault, k)) => {
                let mut vault = vault;
                vault.set(service, key, value);
                self.unlocked = Some((vault, k));
                Ok(())
            },
        }
    }

    /// Removes a secret from the unlocked vault; an error when there was none.
    pub fn delete(&mut self, service: &str, key: &str) -> (r: Result<(), String>)
        ensures
            final(self)@ == file_delete(old(self)@, service@, key@),
            match r {
                Ok(()) => file_delete_result(old(self)@, service@, key@) is Ok,
                Err(m) => file_delete_result(old(self)@, service@, key@) == Err::<(), Seq<char>>(m@),
            },
    {
        match self.unlocked.take() {
            None => Err(String::from_str("vault is locked — call unlock first")),
            Some((vault, k)) => {
                let mut vault = vault;
                let removed = vault.delete(service, key);
                self.unlocked = Some((vault, k));
                if removed {
                    Ok(())
                } else {
                    Err(
                        String::from_str("no token found for ").concat(service).concat(":").concat(key).concat(
                            " in vault",
                        ),
                    )
                }
            },
        }
    }

    /// Whether the vault must be unlocked before use.
    pub fn needs_unlock(&self) -> (r: bool)
        ensures
            r == self@.vault is None,
    {
        self.unlocked.is_none()
    }

    /// Forgets the vault and wipes the key.
    pub fn lock(&mut self)
        ensures
            final(self)@ == (EncryptedFileView { vault: None, key: None, ..old(self)@ }),
    {
        match &mut self.unlocked {
            Some(pair) => {
                zeroize_key(&mut pair.1);
            },
            None => {},
        }
        self.unlocked = None;
    }

    /// The backend's name.
    pub fn name(&self) -> (r: String)
        ensures
            r@ == "encrypted_file"@,
    {
        String::from_str("encrypted_file")
    }
}

/// Reading a key right after storing it in an unlocked vault gives back the
/// stored value.
pub proof fn law_file_set_then_get(
    b: EncryptedFileView,
    service: Seq<char>,
    key: Seq<char>,
    value: Seq<char>,
)
    requires
        b.vault is Some,
    ensures
        file_get(file_set(b, service, key, value), service, key) == Ok::<Seq<char>, Seq<char>>(value),
{
    crate::model::token::law_vault_set_then_get(b.vault->0, service, key, value);
}

/// A locked backend answers every read with the locked error and ignores
/// writes.
pub proof fn law_file_locked(
    b: EncryptedFileView,
    service: Seq<char>,
    key: Seq<char>,
    value: Seq<char>,
)
    requires
        b.vault is None,
    ensures
        file_get(b, service, key) == Err::<Seq<char>, Seq<char>>(locked_text()),
        file_set(b, service, key, value) == b,
        file_delete(b, service, key) == b,
        file_delete_result(b, service, key) == Err::<(), Seq<char>>(locked_text()),
{
}

/// After a key is deleted from an unlocked vault, reading it finds nothing.
pub proof fn law_file_delete_then_get(b: EncryptedFileView, service: Seq<char>, key: Seq<char>)
    requires
        b.vault is Some,
    ensures
        file_get(file_delete(b, service, key), service, key) == Err::<Seq<char>, Seq<char>>(
            not_in_vault_text(service, key),
        ),
{
    crate::model::token::law_vault_delete_then_get(b.vault->0, service, key);
}

} // verus!
