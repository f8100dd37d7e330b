# xlm_ns

A verified library for the XLM name service on Stellar, written in Verus.

- `src/` is the library. Every function carries a contract that Verus proves:
  name and label validation, registration lifetimes and pricing, the registry,
  NFT and bridge contract state machines (with their consistency laws), SDK
  error decoding and retry configuration, the captive-core ingestion
  supervisor, contract state comparison, and the text the command line prints.
  Calls into other crates (regex, rand, chrono, colored) go through small
  trusted wrappers whose doc comments say what is assumed of them.
- `tests/` runs the library on concrete cases.
- `app/` is the `xlm-ns` program: argument parsing, files, terminal output and
  the error log, around the library.
