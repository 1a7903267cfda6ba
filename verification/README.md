# kitest

Building blocks for custom test harnesses: filtering, ignoring, grouping, panic handling,
output capture, run reports and `cargo test` style formatting, each with a contract that
Verus checks.

- `src/` is the library, verified with Verus. It decides everything a run decides: which
  tests take part, which are ignored, what status a test call earns, how tests are grouped,
  how many workers run them, what the formatters print and what the report's exit status is.
- `app/` is ordinary Rust around it: calling test functions and catching their panics,
  worker threads and channels, the capture-aware print macros and panic hook, and the
  debugging formatter built from closures over `std::fmt::Formatter`.
- `tests/` exercises the library on concrete values.
