# cookbook_fetch

Verified logic for fetching packages from a signed binary release: checking a
release index against its repository, target and URLs, loading it once per
process through a step-by-step loader, checking downloaded assets against their
size and BLAKE3 hash and installing them only once checked, naming the cached files of binary remotes, and counting
and rendering fetch and download progress.

- `src/` — the library, verified with Verus.
- `app/` — the file system, network, `openssl`, environment and terminal around it.
- `tests/` — tests of the library on concrete values.

The packages of a release index are held as a `Vec` of `(name, package)`
pairs rather than a `BTreeMap`: lookups by a `String` key cannot be proved
against a `BTreeMap` here, while a vector whose names are in order
(`packages_in_name_order`, which a map read from JSON always gives) makes the
lookup provable and each name unique.
