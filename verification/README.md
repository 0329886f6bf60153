# tkm — a verified developer token manager

tkm keeps developer tokens: a plaintext registry (TOML) of metadata, and the
secrets themselves either in an AES-256-GCM encrypted vault file, whose key is
derived from a master password with Argon2id, or in the OS keychain. It has a
command line (`tkm init|get|set|rm|list|import|env|lock|passwd`) and, with no
arguments, a terminal interface.

## Layout

- `src/` — the library, verified with Verus:
  - `model/` — token metadata, the vault contents and the registry, with the
    laws of reading back what was written;
  - `crypto/` — the vault file format, AES-256-GCM sealing and Argon2id key
    derivation (the ciphers themselves are the `aes-gcm` and `argon2` crates);
  - `storage/` — the encrypted-file backend (unlocking, sealing, reading and
    writing secrets) and the keychain backend's naming and error rules;
  - `integrations/` — parsers that find tokens in what `gh`, `glab`, Docker,
    Gradle and Pencil print or store;
  - `cli/` — what the commands decide and print;
  - `tui/` — the terminal interface as a state machine, and what each screen
    shows;
  - `text.rs`, `parse.rs` — string helpers with the meaning std gives them.
- `app/` — the program around it: argument parsing, files, the keychain, the
  clipboard, running the other tools, and drawing the terminal.
- `tests/` — tests of the library.
