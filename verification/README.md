# otpuac

A verified core for a TOTP-gated credential release service: a Windows UAC
prompt receives a managed administrator credential only after an authenticator
code has been accepted.

The library under `src/` is written in Verus and verified: public functions
carry contracts that Verus proves. Calls into std and the outside crates
(HMAC-SHA1, base32, base64, randomness, zeroization, path joining) go through
small trusted wrappers, marked `external_body`, whose contracts state what
those crates document; the results too large to state are given names.

- `totp`: RFC 4226/6238 codes, acceptance within the configured clock skew,
  base32 secrets and the `otpauth://` enrollment URI.
- `vault`: the vault format, secrets protected through a `SecretProtector`
  and stored as base64, and the release of the managed credential.
- `unlock`: the rate limiter (failure window, lockout, replay of accepted
  steps) and the decisions of the unlock service.
- `ipc`: the provider/service messages and their length-prefixed frames.
- `host`: which client processes may ask for a credential.
- `audit`, `paths`, `state`, `setup`, `provider`, `wide`, `wipe`, `text`,
  `error`: audit records, file locations, persisted state, installation rules,
  credential provider tile logic, UTF-16 text, clearing of secrets, text
  helpers and errors.

Laws that span several operations are stated as `law_*` proof functions next
to the code they are about.

`app/` holds the command-line front end: argument parsing, file I/O, clock,
logging and the serde copies of the library's types. `tests/` runs the library
against the real outside crates.
