# offline-vault

A local, offline-only password manager. The passwords are kept in one encrypted
vault file; nothing ever touches the network.

The library under `src/` is verified with Verus: the key hierarchy, the vault
format, entry validation, the application state machine, the clipboard and
auto-lock timers, the order of an atomic save, the password generator and the
decisions behind every screen. Each function carries a contract, and the
properties that span functions are proof functions beside them.

| Module | What it holds |
| --- | --- |
| `error`, `text`, `clock` | error categories, text and time |
| `security`, `memory_lock`, `platform` | buffers that wipe themselves, memory locking |
| `primitives`, `crypto` | the outside primitives, and the key hierarchy on top |
| `entry`, `vault` | entries, the vault file, the unlocked vault |
| `storage` | reading rules and the atomic replacement |
| `clipboard_port`, `clipboard`, `autolock` | the calls to the clipboard, and the two timers |
| `password_generator` | unbiased generation by rejection |
| `app`, `ui` | the state machine and the screens |

What is taken on trust is in `primitives` (Argon2id, HKDF-SHA256, AES-256-GCM,
Base64, the random source), `security` (wiping, constant-time comparison),
`text` and `clock` (parts of the standard library) and the path type in `app`.

`app/` is the desktop program: the window, the system clipboard, memory locking,
file access and JSON.

## Some of what is proved

- A vault that was saved opens again with its password, with the same entries,
  provided that the JSON is read by the inverse of what wrote it.
- A wrong password and a tampered vault are answered alike.
- At every point of a save the vault file is the old one or the complete new one.
- A poll that finds a copied secret due clears the clipboard if and only if what it
  read from it is that secret. Shutting down makes the same attempt early, and
  nothing else clears it.
- A frame locks an unlocked vault exactly when, by the reading of the timer's
  clock, it has been idle for the timeout.
- Every fresh salt, Vault Key, nonce and entry id is made of random bytes that the
  operating system gave.
- Of the random bytes that the generator accepts, equally many fall on each
  character.

## Limits

Copies of a secret that the allocator or the operating system may have made are
out of reach. Memory locking is best-effort. A lost vault file or a forgotten
master password cannot be recovered.
