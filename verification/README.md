# hhpos_license

Licensing for the HangHoa POS desktop application, verified with Verus.

A license key has the form `HHPOS|{machine_id}|{expiry}|{edition}|{signature}`,
where the signature is the Base64 Ed25519 signature of the first four fields.
The vendor signs keys with a private key; the application checks them with the
matching public key, binds them to a fingerprint of the machine, and keeps its
records (license, trial, last run) encrypted with a key derived from that
fingerprint. A seven-day trial can be started once per machine, and a system
clock set back beyond a five-minute tolerance is reported.

## Layout

- `src/` — the verified library.
  - `text.rs`: character-level text operations (white space, trimming,
    splitting, decimal numbers, case) with their specifications.
  - `crypto.rs`: the embedded public key, Ed25519 signatures in Base64, the
    per-machine file key and the XOR stream cipher; the calls into `sha2`,
    `base64`, `ed25519_dalek` and `rand` sit behind small trusted wrappers.
  - `machine_id.rs`: the `XXXX-XXXX-XXXX` machine fingerprint.
  - `license.rs`: the stored records, key normalization and parsing,
    activation, the trial, and the status decided at each launch.
  - `calendar.rs`: civil dates of Unix times, for display.
  - `backups.rs`: naming and ordering of backup snapshots.
  - `generator.rs`: the vendor's key generator: signing keys, checking keys,
    display grouping, and the state of the generator form.
  - `laws.rs`: properties relating several operations (a generated key
    activates and checks out, the display form normalizes back to the key,
    typed white space and signature hyphens are ignored, normalizing is
    idempotent, an activation or a trial is reported at the next launch, the
    last-run record reads back).
- `tests/` — tests on concrete values.
- `app/` — the command-line program around the library: files, the clock,
  the registry, JSON (de)serialization and printing.
