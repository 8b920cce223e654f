# keylime_agent

The decisions of an attestation agent, written and proved in Verus: which quote
requests are answered and with what, how measurement lists are filtered, how
post-quantum signatures are obtained, what the CSV files of measurements hold, and
in which order the agent starts.

- `src/` is the library. Its functions take plain values and the outcomes of steps
  that touch the machine, and say which step comes next. `encoding.rs`, `unicode.rs`
  and `text.rs` hold the declarations that are trusted rather than proved: calls into
  `hex`, `base64` and the standard library.
- `app/` is the program. It performs the steps: TPM, files, devices, processes,
  HTTP. `app/host.rs` needs the `keylime` support crate and a TPM library.
- `tests/` runs the library.
