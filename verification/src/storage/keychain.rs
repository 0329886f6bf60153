//! The OS keychain backend. The keychain itself is reached by the caller;
//! this module names the keychain entries and turns what the keychain
//! answered into the backend's results.
use vstd::prelude::*;

verus! {

/// Prefix of the keychain service names the backend uses.
pub open spec fn service_prefix() -> Seq<char> {
    "tkm"@
}

/// Storage backend using the OS keychain (macOS Keychain, Linux Secret Service, ...).
pub struct KeychainBackend;

/// What a keychain operation answered, as plain values.
pub enum KeyringOutcome<T> {
    /// The operation succeeded with this value.
    Done(T),
    /// The keychain holds no such entry.
    NoEntry,
    /// The entry could not be created.
    EntryFailed,
    /// The keychain reported another error.
    Failed,
}

/// The keychain service name for a token service: `tkm:<service>`.
pub open spec fn keyring_service_name(service: Seq<char>) -> Seq<char> {
    service_prefix() + ":"@ + service
}

/// The error when the keychain entry cannot be created.
pub open spec fn entry_failed_text() -> Seq<char> {
    "failed to create keyring entry"@
}

/// What `get` answers for `service:key` given the keychain's answer.
pub open spec fn keychain_get(service: Seq<char>, key: Seq<char>, o: KeyringOutcome<Seq<char>>) -> Result<
    Seq<char>,
    Seq<char>,
> {
    match o {
        KeyringOutcome::Done(v) => Ok(v),
        KeyringOutcome::NoEntry => Err("no token found for "@ + service + ":"@ + key + " in keychain"@),
        KeyringOutcome::EntryFailed => Err(entry_failed_text()),
        KeyringOutcome::Failed => Err("failed to read "@ + service + ":"@ + key + " from keychain"@),
    }
}

/// What `set` answers for `service:key` given the keychain's answer.
pub open spec fn keychain_set(service: Seq<char>, key: Seq<char>, o: KeyringOutcome<()>) -> Result<(), Seq<char>> {
    match o {
        KeyringOutcome::Done(()) => Ok(()),
        KeyringOutcome::EntryFailed => Err(entry_failed_text()),
        _ => Err("failed to store "@ + service + ":"@ + key + " in keychain"@),
    }
}

/// What `delete` answers for `service:key` given the keychain's answer: an
/// entry that is already gone counts as deleted.
pub open spec fn keychain_delete(service: Seq<char>, key: Seq<char>, o: KeyringOutcome<()>) -> Result<(), Seq<char>> {
    match o {
        KeyringOutcome::Done(()) => Ok(()),
        KeyringOutcome::NoEntry => Ok(()),
        KeyringOutcome::EntryFailed => Err(entry_failed_text()),
        KeyringOutcome::Failed => Err("failed to delete "@ + service + ":"@ + key + " from keychain"@),
    }
}

/// The answer of a keychain read, as plain values.
pub open spec fn outcome_view(o: KeyringOutcome<String>) -> KeyringOutcome<Seq<char>> {
    match o {
        KeyringOutcome::Done(v) => KeyringOutcome::Done(v@),
        KeyringOutcome::NoEntry => KeyringOutcome::NoEntry,
        KeyringOutcome::EntryFailed => KeyringOutcome::EntryFailed,
        KeyringOutcome::Failed => KeyringOutcome::Failed,
    }
}

/// A result with its strings taken as plain values.
pub open spec fn string_result_view(r: Result<String, String>) -> Result<Seq<char>, Seq<char>> {
    match r {
        Ok(v) => Ok(v@),
        Err(m) => Err(m@),
    }
}

/// A unit result with its error taken as a plain value.
pub open spec fn unit_result_view(r: Result<(), String>) -> Result<(), Seq<char>> {
    match r {
        Ok(()) => Ok(()),
        Err(m) => Err(m@),
    }
}

fn error_for(prefix: &str, service: &str, key: &str, suffix: &str) -> (r: String)
    ensures
        r@ == prefix@ + service@ + ":"@ + key@ + suffix@,
{
    String::from_str(prefix).concat(service).concat(":").concat(key).concat(suffix)
}

impl KeychainBackend {
    /// The keychain backend.
    pub fn new() -> (r: KeychainBackend) {
        KeychainBackend
    }

    /// The keychain service name for `service`: `tkm:<service>`.
    pub fn keyring_service(service: &str) -> (r: String)
        ensures
            r@ == keyring_service_name(service@),
    {
        String::from_str("tkm").concat(":").concat(service)
    }

    /// The secret read for `service:key`, from what the keychain answered.
    pub fn get_result(&self, service: &str, key: &str, outcome: KeyringOutcome<String>) -> (r: Result<String, String>)
        ensures
            string_result_view(r) == keychain_get(service@, key@, outcome_view(outcome)),
    {
        match outcome {
            KeyringOutcome::Done(v) => Ok(v),
            KeyringOutcome::NoEntry => Err(error_for("no token found for ", service, key, " in keychain")),
            KeyringOutcome::EntryFailed => Err(String::from_str("failed to create keyring entry")),
            KeyringOutcome::Failed => Err(error_for("failed to read ", service, key, " from keychain")),
        }
    }

    /// The result of storing `service:key`, from what the keychain answered.
    pub fn set_result(&mut self, service: &str, key: &str, outcome: KeyringOutcome<()>) -> (r: Result<(), String>)
        ensures
            unit_result_view(r) == keychain_set(service@, key@, outcome),
    {
        match outcome {
            KeyringOutcome::Done(()) => Ok(()),
            KeyringOutcome::EntryFailed => Err(String::from_str("failed to create keyring entry")),
            _ => Err(error_for("failed to store ", service, key, " in keychain")),
        }
    }

    /// The result of deleting `service:key`, from what the keychain answered.
    pub fn delete_result(&mut self, service: &str, key: &str, outcome: KeyringOutcome<()>) -> (r: Result<(), String>)
        ensures
            unit_result_view(r) == keychain_delete(service@, key@, outcome),
    {
        match outcome {
            KeyringOutcome::Done(()) => Ok(()),
            KeyringOutcome::NoEntry => Ok(()),
            KeyringOutcome::EntryFailed => Err(String::from_str("failed to create keyring entry")),
            KeyringOutcome::Failed => Err(error_for("failed to delete ", service, key, " from keychain")),
        }
    }

    /// The keychain asks the OS for access itself: no unlock is needed.
    pub fn needs_unlock(&self) -> (r: bool)
        ensures
            !r,
    {
        false
    }

    /// The backend's name.
    pub fn name(&self) -> (r: String)
        ensures
            r@ == "keychain"@,
    {
        String::from_str("keychain")
    }
}

} // verus!
