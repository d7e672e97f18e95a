# keystone_verified

The core logic of an OpenStack Keystone identity service, written in Verus
and proved against its contracts: password hashing and verification,
security-compliance rules (password policy, lockout, expiry), password
authentication as a state machine, effective role resolution for every kind
of scope, role assignment listing with implied roles, and the API type
conversions.

Layout:

- `src/` — the verified library. Outside crates (bcrypt, scrypt, pbkdf2,
  sha2, base64, rand, regex, uuid) are reached only through the trusted
  items in `src/crypto.rs`, `src/wrappers.rs` and `src/config.rs`, each with
  a doc comment saying what its contract claims.
- `tests/` — tests that run the library with the real outside crates.
- `app/` — the asynchronous service around it: runners that perform the
  queries the library's state machines ask for, the hashing thread pool,
  the clock, and copies of library types with their serde and thiserror
  derives.
