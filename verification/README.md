# log_analyzer

The verified core of a desktop log analyzer: it searches local logs with
`|`-separated keywords, filters results by level, time range and file
pattern, imports ZIP / TAR / GZ / 7Z archives (nested ones too) into a
content-addressed store, and keeps the books of the blocking pool and the
backpressure controller that run the work.

Everything under `src/` is checked by Verus: each public function states
in `ensures` what it returns or changes, and the library's laws (what a
pruned search keeps, what a release of handles leaves, what deleting a
just-added keyword group gives back, ...) are public proof functions named
`law_*`.

## Layout

- `src/text.rs`, `src/pathname.rs`: characters, strings and paths, with
  the few standard-library calls the rest relies on.
- `src/query.rs`, `src/search.rs`, `src/filters.rs`: query splitting,
  structured queries, result tallies, and the level / time / file filters
  with segment pruning.
- `src/handlers.rs`, `src/security.rs`, `src/paths.rs`: archive formats,
  entry-path screening, extraction limits, and path and identifier rules.
- `src/pipeline.rs`, `src/traversal.rs`, `src/resources.rs`: import
  decisions, directory walks, file handles and temporary files.
- `src/progress.rs`, `src/errors.rs`: progress reporting, error codes and
  categories.
- `src/pool.rs`: blocking-pool accounting, concurrency settings,
  backpressure permits and the adaptive limit.
- `src/api.rs`, `src/keywords.rs`, `src/benchmark.rs`: answers of the
  command and HTTP layers, keyword groups, generated benchmark inputs.
- `app/`: the unverified shell around the library: file-system walks,
  archive readers, workspace cleanup, threads, floating-point rules and
  serializable copies of the records.
- `tests/`: tests of the library through its public interface.
