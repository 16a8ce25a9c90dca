# cce_e2e

Support library for end-to-end retrieval benchmarks of the Code Context
Engine, written in Verus.

- `src/` — the verified library: fixture specifications and paths, output
  and report layout, benchmark judgment tables, BM25 term statistics and the
  integer parts of scoring, the file-cohort entity graph and its bounded
  traversal, the assembly-review call graph and rendering, the parameter
  sweep's parameter sets, observation grouping and Markdown tables, the
  plain-text export's source grouping, display sections and display
  document, the conversion plans of grouped entities, and the byte-level
  pieces of the mock HTTP services (request framing, header parsing,
  response bytes, candidate ids, token buckets).
- `tests/` — tests of the library on concrete values.
- `app/` — ordinary Rust around the library: logging set-up, fixture
  directories and report files on disk, the mock servers on tokio, and the
  floating-point parts of scoring, boosting and the sweep's averages.
