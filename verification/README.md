# proteus

Backup and restore of Kubernetes persistent volumes into a content-addressed store, with the
decisions and data transformations proved correct in Verus.

## Layout

- `src/` — the verified library.
  - `cas/` — fixed-size chunking, BLAKE3 content ids and their hex form, AES-256-GCM sealing
    of stored blobs, the local store's path layout, and the snapshot plan (which objects to
    store for each volume and the manifest that lists them).
  - `crd/` — the `ProteusRepository`, `ProteusBackup` and `ProteusRestore` resources.
  - `api/` — request validation and the objects the HTTP API creates or lists: repositories,
    backups, managed Secrets, inventory rows, the namespace list.
  - `controller/` — reconcile decisions, progress reporting, the mount Pods used to read and
    write volumes, and the node agent's settings.
  - `ui/` — what the web UI decides: form checks, polling, namespace options and the
    namespace picker.
  - `text.rs` — trimming, case folding, substring search and decimal rendering.
- `app/` — the process around the library: Kubernetes calls, the controller runtime, the HTTP
  server, file I/O for the local store.
- `tests/` — tests of the library.

Trusted, with their contracts stated next to them; everything else in `src/` is verified:

- wrappers of outside crates: `hex::encode` and `hex::decode` (`cas/hash.rs`), `blake3::hash`
  (`cas/hash.rs`), `Aes256Gcm::encrypt` and `Aes256Gcm::decrypt` with the declared
  `aes_gcm::Error` type (`cas/crypto.rs`), `ThreadRng::fill_bytes` (`cas/crypto.rs`) and
  `Uuid::new_v4().simple()` (`controller/pvc_reader.rs`);
- wrappers of std: `<char as Debug>` (`cas/hash.rs`), `<str as Debug>` and `str::to_lowercase`
  (`text.rs`), `String::from_utf8` (`api/secrets.rs`);
- specifications of std functions (`text.rs`): `str::trim`, `String::push`,
  `String::push_str`, `char::to_ascii_lowercase`, `char::is_whitespace`.
