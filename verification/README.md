# fgc — Fast Git Cloner

`fgc` clones large Git repositories with a strategy chosen for them (blobless,
sparse, shallow or full), falls back to simpler strategies when a server refuses
a partial clone, resumes interrupted clones, fetches LFS objects (with aria2c when
it is there), shows progress in the terminal or a dashboard, and benchmarks
strategies against each other.

## Layout

- `src/` is the library, verified with Verus. It holds the decisions and text of
  every step: strategy selection, `git` argument lists and error messages, the
  fallback run (`executor::CloneAttempts`), the clone pipeline with its saved
  state (`pipeline::ClonePipeline`, `resume`), progress parsing and the progress
  models (`progress`, `bars`, `dashboard`), configuration, the LFS fetch (`lfs::LfsPull`), the LFS batch
  answer, credentials and aria2c input, and the benchmark run (`benchmark::BenchmarkRun`: one result per
  strategy, directories kept or removed). `src/outside.rs` holds
  the calls into `std`, `regex`, `url` and `base64` whose contracts are trusted.
- `app/` is the `fgc` program around it: command-line parsing (clap), files and
  processes, HTTP (reqwest), the terminal bars (indicatif) and the dashboard
  (ratatui). It runs the library's state machines and does what they ask.
- `tests/` exercises the library on concrete values.
