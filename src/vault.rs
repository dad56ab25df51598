//! The envelope of the encrypted credential vault that supplies host
//! records, and the checks made on it before decryption.
use vstd::prelude::*;
use vstd::string::*;
use crate::ssh::with_detail;
use crate::text::{decimal, decimal_u8};

verus! {

/// Errors of the credential vault.
pub enum DataSphereError {
    NotInitialized,
    Encryption(String),
    Decryption(String),
    Io(String),
    Serialization(String),
    NotFound(String),
    Tauri(String),
}

/// Encrypted data: base64 ciphertext and nonce, the salt of a
/// password-derived key, and the format version.
pub struct EncryptedData {
    pub ciphertext: String,
    pub nonce: String,
    pub salt: Option<String>,
    pub version: u8,
}

/// A vault file: magic text, format version, key-derivation salt and the
/// encrypted contents.
pub struct VaultFile {
    pub magic: String,
    pub version: u8,
    pub salt: String,
    pub data: EncryptedData,
}

/// The magic text that opens every vault file.
pub open spec fn vault_magic() -> Seq<char> {
    "NEXUS_VAULT"@
}

/// The vault format version this library reads.
pub const VAULT_VERSION: u8 = 1;

/// What validation says of a vault file: it must carry the magic text and
/// the supported version.
pub open spec fn validation_of(f: VaultFile, r: Result<(), DataSphereError>) -> bool {
    if f.magic@ != vault_magic() {
        r matches Err(DataSphereError::Decryption(m)) && m@ == "Invalid vault file"@
    } else if f.version != VAULT_VERSION {
        r matches Err(DataSphereError::Decryption(m)) && m@ == with_detail(
            "Unsupported vault version: "@,
            decimal(f.version as nat),
        )
    } else {
        r is Ok
    }
}

impl VaultFile {
    /// Checks the magic text, then the version.
    pub fn validate(&self) -> (r: Result<(), DataSphereError>)
        ensures
            validation_of(*self, r),
    {
        if !(self.magic.as_str().to_owned() == "NEXUS_VAULT".to_owned()) {
            return Err(DataSphereError::Decryption(String::from_str("Invalid vault file")));
        }
        if self.version != VAULT_VERSION {
            let v = decimal_u8(self.version);
            return Err(
                DataSphereError::Decryption(crate::ssh::prefixed("Unsupported vault version: ", &v)),
            );
        }
        Ok(())
    }
}

} // verus!
