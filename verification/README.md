# wingbird

The Wingbird command-line client creates releases and binary patches of
Flutter Android applications and talks to the Wingbird server.

- `src/` is the library, verified with Verus: the API requests and how replies
  are judged, percent-encoding and URLs, APK inspection (`lib/<arch>/libapp.so`
  entries), architecture selection, bsdiff patches (made and applied) and BLAKE3 digests, keyring
  entry naming, terminal lines, and one step machine per command that
  alternates outside work with decisions (`upload`, `patch`, `release`,
  `init`, `login`). Calls into `zip`, `qbsdiff`, `blake3`, `urlencoding`,
  `reqwest`'s URL and status types and `serde_json` stand behind small trusted
  wrappers whose contracts say what the library relies on.
- `app/` is the program: argument parsing (`clap`), HTTP (`reqwest`), the local
  login callback (`axum`), the keyring, YAML files and coloured output. It
  performs what the library's step machines ask for and reports back.
- `tests/` runs the library against the real outside crates.

## What the commands send

- `patch` records, for each architecture, the upload identifier of its patch
  and the lower-case hexadecimal BLAKE3 digest of the new `libapp.so`
  (`libappHash`), as the patch command computes it.
- `release` records the upload key, the project's version (absent when
  `pubspec.yaml` gives none), the platform and channel, and the APK's digest,
  file name (`app-release.apk`), size and content type, as the release
  command builds its request.
- `release` does not mark the upload as finished before recording the
  release: the API client defines no request for that step, so none is
  sent. The upload is complete once the file has been put at the URL the
  server granted.
