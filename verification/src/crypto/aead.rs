//! The encrypted vault file: its byte format and AES-256-GCM sealing.
use vstd::prelude::*;
use crate::text::{decimal, decimal_string};
use crate::crypto::random::random_bytes;
use aes_gcm::aead::{Aead, KeyInit};

verus! {

/// Length of an AES-GCM nonce.
pub const NONCE_LEN: usize = 12;

/// The one vault format version this library reads and writes.
pub const VERSION: u32 = 1;

/// Length of the GCM authentication tag.
pub const TAG_LEN: usize = 16;

/// Largest plaintext AES-GCM accepts (2^36 bytes).
pub open spec fn max_plaintext_len() -> int {
    0x10_0000_0000
}

/// Encrypted vault file: `[4B version LE][32B salt][12B nonce][ciphertext + 16B GCM tag]`.
#[derive(Debug)]
pub struct VaultFile {
    pub version: u32,
    pub salt: [u8; 32],
    pub nonce: [u8; NONCE_LEN],
    pub ciphertext: Vec<u8>,
}

pub struct VaultFileView {
    pub version: u32,
    pub salt: Seq<u8>,
    pub nonce: Seq<u8>,
    pub ciphertext: Seq<u8>,
}

impl View for VaultFile {
    type V = VaultFileView;

    open spec fn view(&self) -> VaultFileView {
        VaultFileView {
            version: self.version,
            salt: self.salt@,
            nonce: self.nonce@,
            ciphertext: self.ciphertext@,
        }
    }
}

/// Errors of encryption, decryption and the file format.
#[derive(Debug)]
pub enum AeadError {
    EncryptionFailed(String),
    DecryptionFailed,
    InvalidFormat(String),
}

pub enum AeadErrorView {
    EncryptionFailed(Seq<char>),
    DecryptionFailed,
    InvalidFormat(Seq<char>),
}

impl View for AeadError {
    type V = AeadErrorView;

    open spec fn view(&self) -> AeadErrorView {
        match self {
            AeadError::EncryptionFailed(s) => AeadErrorView::EncryptionFailed(s@),
            AeadError::DecryptionFailed => AeadErrorView::DecryptionFailed,
            AeadError::InvalidFormat(s) => AeadErrorView::InvalidFormat(s@),
        }
    }
}

/// The text of "vault file too short".
pub open spec fn too_short_text() -> Seq<char> {
    seq!['v', 'a', 'u', 'l', 't', ' ', 'f', 'i', 'l', 'e', ' ', 't', 'o', 'o', ' ', 's', 'h', 'o', 'r', 't']
}

/// The text of "unsupported vault version: " followed by the version.
pub open spec fn bad_version_text(v: u32) -> Seq<char> {
    seq![
        'u', 'n', 's', 'u', 'p', 'p', 'o', 'r', 't', 'e', 'd', ' ', 'v', 'a', 'u', 'l', 't', ' ',
        'v', 'e', 'r', 's', 'i', 'o', 'n', ':', ' ',
    ] + decimal(v as nat)
}

/// The message an error displays.
pub open spec fn aead_error_message(e: AeadErrorView) -> Seq<char> {
    match e {
        AeadErrorView::EncryptionFailed(s) => seq![
            'e', 'n', 'c', 'r', 'y', 'p', 't', 'i', 'o', 'n', ' ', 'f', 'a', 'i', 'l', 'e', 'd', ':', ' ',
        ] + s,
        AeadErrorView::DecryptionFailed => seq![
            'd', 'e', 'c', 'r', 'y', 'p', 't', 'i', 'o', 'n', ' ', 'f', 'a', 'i', 'l', 'e', 'd', ':', ' ',
            'w', 'r', 'o', 'n', 'g', ' ', 'p', 'a', 's', 's', 'w', 'o', 'r', 'd', ' ', 'o', 'r', ' ',
            'c', 'o', 'r', 'r', 'u', 'p', 't', 'e', 'd', ' ', 'v', 'a', 'u', 'l', 't',
        ],
        AeadErrorView::InvalidFormat(s) => seq![
            'i', 'n', 'v', 'a', 'l', 'i', 'd', ' ', 'f', 'o', 'r', 'm', 'a', 't', ':', ' ',
        ] + s,
    }
}

impl AeadError {
    /// The message this error displays.
    pub fn message(&self) -> (r: String)
        ensures
            r@ == aead_error_message(self@),
    {
        match self {
            AeadError::EncryptionFailed(s) => {
                let r = String::from_str("encryption failed: ");
                proof { reveal_strlit("encryption failed: "); }
                r.concat(s.as_str())
            },
            AeadError::DecryptionFailed => {
                proof { reveal_strlit("decryption failed: wrong password or corrupted vault"); }
                String::from_str("decryption failed: wrong password or corrupted vault")
            },
            AeadError::InvalidFormat(s) => {
                let r = String::from_str("invalid format: ");
                proof { reveal_strlit("invalid format: "); }
                r.concat(s.as_str())
            },
        }
    }
}

/// The four little-endian bytes of `x`.
pub open spec fn u32_le_bytes(x: u32) -> Seq<u8> {
    seq![
        (x % 256) as u8,
        ((x / 256) % 256) as u8,
        ((x / 65536) % 256) as u8,
        (x / 16777216) as u8,
    ]
}

/// The value of four little-endian bytes.
pub open spec fn u32_from_le(b: Seq<u8>) -> u32 {
    (b[0] + 256 * b[1] + 65536 * b[2] + 16777216 * b[3]) as u32
}

/// The bytes of a vault file.
pub open spec fn vault_file_bytes(f: VaultFileView) -> Seq<u8> {
    u32_le_bytes(f.version) + f.salt + f.nonce + f.ciphertext
}

/// The smallest vault file: version, salt, nonce and a GCM tag.
pub open spec fn min_vault_len() -> int {
    64int
}

/// What reading `d` as a vault file gives.
pub open spec fn vault_file_parse(d: Seq<u8>) -> Result<VaultFileView, AeadErrorView> {
    if d.len() < min_vault_len() {
        Err(AeadErrorView::InvalidFormat(too_short_text()))
    } else if u32_from_le(d.subrange(0, 4)) != VERSION {
        Err(AeadErrorView::InvalidFormat(bad_version_text(u32_from_le(d.subrange(0, 4)))))
    } else {
        Ok(
            VaultFileView {
                version: VERSION,
                salt: d.subrange(4, 36),
                nonce: d.subrange(36, 48),
                ciphertext: d.subrange(48, d.len() as int),
            },
        )
    }
}

/// The view of a parse result.
pub open spec fn parse_result_view(r: Result<VaultFile, AeadError>) -> Result<VaultFileView, AeadErrorView> {
    match r {
        Ok(f) => Ok(f@),
        Err(e) => Err(e@),
    }
}

proof fn lemma_u32_le_roundtrip(x: u32)
    ensures
        u32_from_le(u32_le_bytes(x)) == x,
        u32_le_bytes(x).len() == 4,
{
    let b = u32_le_bytes(x);
    assert(b[0] == x % 256);
    assert(b[1] == (x / 256) % 256);
    assert(b[2] == (x / 65536) % 256);
    assert(b[3] == x / 16777216);
    assert(x % 256 + 256 * ((x / 256) % 256) + 65536 * ((x / 65536) % 256) + 16777216 * (x / 16777216) == x)
        by (nonlinear_arith);
}

impl VaultFile {
    /// Serializes the file.
    pub fn to_bytes(&self) -> (r: Vec<u8>)
        ensures
            r@ == vault_file_bytes(self@),
    {
        let mut buf: Vec<u8> = Vec::new();
        let v = self.version;
        buf.push((v % 256) as u8);
        buf.push(((v / 256) % 256) as u8);
        buf.push(((v / 65536) % 256) as u8);
        buf.push((v / 16777216) as u8);
        assert(buf@ =~= u32_le_bytes(v));
        for i in 0..32
            invariant
                buf@ == u32_le_bytes(v) + self.salt@.take(i as int),
        {
            buf.push(self.salt[i]);
            assert(buf@ =~= u32_le_bytes(v) + self.salt@.take(i + 1));
        }
        assert(self.salt@.take(32) =~= self.salt@);
        for i in 0..NONCE_LEN
            invariant
                buf@ == u32_le_bytes(v) + self.salt@ + self.nonce@.take(i as int),
        {
            buf.push(self.nonce[i]);
            assert(buf@ =~= u32_le_bytes(v) + self.salt@ + self.nonce@.take(i + 1));
        }
        assert(self.nonce@.take(12) =~= self.nonce@);
        let n = self.ciphertext.len();
        for i in 0..n
            invariant
                n == self.ciphertext@.len(),
                buf@ == u32_le_bytes(v) + self.salt@ + self.nonce@ + self.ciphertext@.take(i as int),
        {
            buf.push(self.ciphertext[i]);
            assert(buf@ =~= u32_le_bytes(v) + self.salt@ + self.nonce@ + self.ciphertext@.take(i + 1));
        }
        assert(self.ciphertext@.take(n as int) =~= self.ciphertext@);
        buf
    }

    /// Parses a vault file.
    pub fn from_bytes(data: &[u8]) -> (r: Result<VaultFile, AeadError>)
        ensures
            parse_result_view(r) == vault_file_parse(data@),
    {
        if data.len() < 4 + 32 + NONCE_LEN + TAG_LEN {
            proof {
                reveal_strlit("vault file too short");
                assert("vault file too short"@ =~= too_short_text());
            }
            return Err(AeadError::InvalidFormat(String::from_str("vault file too short")));
        }
        let version: u32 = (data[0] as u32) + 256 * (data[1] as u32) + 65536 * (data[2] as u32) + 16777216
            * (data[3] as u32);
        assert(version == u32_from_le(data@.subrange(0, 4)));
        if version != VERSION {
            let prefix = String::from_str("unsupported vault version: ");
            proof {
                reveal_strlit("unsupported vault version: ");
                assert("unsupported vault version: "@ + decimal(version as nat) =~= bad_version_text(version));
            }
            let msg = prefix.concat(decimal_string(version as u64).as_str());
            return Err(AeadError::InvalidFormat(msg));
        }
        let mut salt = [0u8; 32];
        for i in 0..32
            invariant
                data@.len() >= 64,
                forall|j: int| 0 <= j < i ==> salt@[j] == data@[4 + j],
        {
            salt[i] = data[4 + i];
        }
        assert(salt@ =~= data@.subrange(4, 36));
        let mut nonce = [0u8; NONCE_LEN];
        for i in 0..NONCE_LEN
            invariant
                data@.len() >= 64,
                forall|j: int| 0 <= j < i ==> nonce@[j] == data@[36 + j],
        {
            nonce[i] = data[36 + i];
        }
        assert(nonce@ =~= data@.subrange(36, 48));
        let mut ciphertext: Vec<u8> = Vec::new();
        let mut i: usize = 48;
        while i < data.len()
            invariant
                48 <= i <= data@.len(),
                ciphertext@ == data@.subrange(48, i as int),
            decreases data.len() - i,
        {
            ciphertext.push(data[i]);
            assert(ciphertext@ =~= data@.subrange(48, i + 1));
            i = i + 1;
        }
        Ok(VaultFile { version, salt, nonce, ciphertext })
    }
}

/// Reading the bytes written for a version-1 file with at least a tag's worth
/// of ciphertext gives the same file back.
pub proof fn law_vault_file_write_then_read(f: VaultFileView)
    requires
        f.version == VERSION,
        f.salt.len() == 32,
        f.nonce.len() == 12,
        f.ciphertext.len() >= 16,
    ensures
        vault_file_parse(vault_file_bytes(f)) == Ok::<VaultFileView, AeadErrorView>(f),
{
    let d = vault_file_bytes(f);
    lemma_u32_le_roundtrip(f.version);
    assert(d.subrange(0, 4) =~= u32_le_bytes(f.version));
    assert(d.subrange(4, 36) =~= f.salt);
    assert(d.subrange(36, 48) =~= f.nonce);
    assert(d.subrange(48, d.len() as int) =~= f.ciphertext);
}

/// Writing a file that was read gives back the bytes it was read from.
pub proof fn law_vault_file_read_then_write(d: Seq<u8>)
    requires
        vault_file_parse(d) is Ok,
    ensures
        vault_file_bytes(vault_file_parse(d)->Ok_0) == d,
{
    let f = vault_file_parse(d)->Ok_0;
    let b = d.subrange(0, 4);
    assert(u32_from_le(b) == 1);
    assert(b[0] + 256 * b[1] + 65536 * b[2] + 16777216 * b[3] == 1);
    assert(b[0] == 1 && b[1] == 0 && b[2] == 0 && b[3] == 0);
    assert(u32_le_bytes(1) =~= b);
    assert(vault_file_bytes(f) =~= d);
}

/// What AES-256-GCM encryption with no associated data gives for a key, a
/// nonce and a plaintext (ciphertext followed by the tag).
pub uninterp spec fn aes256gcm_seal(key: Seq<u8>, nonce: Seq<u8>, plaintext: Seq<u8>) -> Seq<u8>;

/// What AES-256-GCM decryption with no associated data gives for a key, a
/// nonce and a ciphertext with its tag: the plaintext, or nothing when the
/// tag does not match.
pub uninterp spec fn aes256gcm_open(key: Seq<u8>, nonce: Seq<u8>, ciphertext: Seq<u8>) -> Option<Seq<u8>>;

/// AES-256-GCM encryption: `Aes256Gcm::new_from_slice` on the key, then
/// `Aead::encrypt` with the nonce. The result is named by `aes256gcm_seal`;
/// as the aes-gcm source shows, the output is the plaintext's length plus the
/// 16-byte tag, and encryption fails exactly for a plaintext over 2^36 bytes
/// (a 32-byte key is always accepted). On failure the error's text is returned.
#[verifier::external_body]
fn seal(key: &[u8; 32], nonce: &[u8; NONCE_LEN], plaintext: &[u8]) -> (r: Result<Vec<u8>, String>)
    ensures
        r matches Ok(c) ==> c@ == aes256gcm_seal(key@, nonce@, plaintext@) && c@.len() == plaintext@.len()
            + TAG_LEN,
        r is Ok <==> plaintext@.len() <= max_plaintext_len(),
{
    let cipher = match aes_gcm::Aes256Gcm::new_from_slice(key) {
        Ok(c) => c,
        Err(e) => return Err(e.to_string()),
    };
    match cipher.encrypt(aes_gcm::Nonce::from_slice(nonce), plaintext) {
        Ok(c) => Ok(c),
        Err(e) => Err(e.to_string()),
    }
}

/// AES-256-GCM decryption: `Aes256Gcm::new_from_slice` on the key, then
/// `Aead::decrypt` with the nonce. The result is named by `aes256gcm_open`;
/// what AEAD correctness gives is stated too: a ciphertext that `seal`
/// produced under the same key and nonce decrypts to its plaintext.
#[verifier::external_body]
fn open(key: &[u8; 32], nonce: &[u8; NONCE_LEN], ciphertext: &[u8]) -> (r: Option<Vec<u8>>)
    ensures
        r matches Some(p) ==> aes256gcm_open(key@, nonce@, ciphertext@) == Some(p@),
        r is None ==> aes256gcm_open(key@, nonce@, ciphertext@) is None,
        forall|p: Seq<u8>| #![trigger aes256gcm_seal(key@, nonce@, p)] p.len() <= max_plaintext_len() && ciphertext@ == aes256gcm_seal(key@, nonce@, p) ==> (r is Some && r->0@ == p),
{
    let cipher = match aes_gcm::Aes256Gcm::new_from_slice(key) {
        Ok(c) => c,
        Err(_) => return None,
    };
    match cipher.decrypt(aes_gcm::Nonce::from_slice(nonce), ciphertext) {
        Ok(p) => Some(p),
        Err(_) => None,
    }
}

/// A fresh random nonce.
fn random_nonce() -> (r: [u8; NONCE_LEN]) {
    let bytes = random_bytes(NONCE_LEN);
    let mut nonce = [0u8; NONCE_LEN];
    for i in 0..NONCE_LEN
        invariant
            bytes@.len() == NONCE_LEN,
    {
        nonce[i] = bytes[i];
    }
    nonce
}

/// Encrypts `plaintext` under `key` with a fresh random nonce, into a version-1
/// vault file that records `salt`.
pub fn encrypt(key: &[u8; 32], salt: &[u8; 32], plaintext: &[u8]) -> (r: Result<VaultFile, AeadError>)
    ensures
        r matches Ok(f) ==> {
            &&& f.version == VERSION
            &&& f.salt@ == salt@
            &&& f.ciphertext@ == aes256gcm_seal(key@, f.nonce@, plaintext@)
            &&& f.ciphertext@.len() == plaintext@.len() + TAG_LEN
        },
        r matches Err(e) ==> e@ is EncryptionFailed,
        r is Ok <==> plaintext@.len() <= max_plaintext_len(),
{
    let nonce = random_nonce();
    match seal(key, &nonce, plaintext) {
        Ok(ciphertext) => Ok(VaultFile { version: VERSION, salt: *salt, nonce, ciphertext }),
        Err(msg) => Err(AeadError::EncryptionFailed(msg)),
    }
}

/// Decrypts a vault file with `key`. A file that `encrypt` made with the same
/// key decrypts to the plaintext it was made from.
pub fn decrypt(key: &[u8; 32], vault: &VaultFile) -> (r: Result<Vec<u8>, AeadError>)
    ensures
        r matches Ok(p) ==> aes256gcm_open(key@, vault.nonce@, vault.ciphertext@) == Some(p@),
        r matches Err(e) ==> e@ == AeadErrorView::DecryptionFailed && aes256gcm_open(
            key@,
            vault.nonce@,
            vault.ciphertext@,
        ) is None,
        forall|p: Seq<u8>|
            p.len() <= max_plaintext_len() && vault.ciphertext@ == #[trigger] aes256gcm_seal(
                key@,
                vault.nonce@,
                p,
            ) ==> (r is Ok && r->Ok_0@ == p),
{
    match open(key, &vault.nonce, vault.ciphertext.as_slice()) {
        Some(p) => Ok(p),
        None => Err(AeadError::DecryptionFailed),
    }
}

} // verus!
