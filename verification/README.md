# intel_mac_parity

Verified core of a tuning suite for Intel Core Ultra (Meteor Lake) laptops.

- `src/` — the library, verified with Verus:
  - `text` — trimming, substring and prefix tests, decimal parsing and line
    splitting with the meaning Rust's standard library gives them;
  - `thread_pinning` — sysfs CPU entries, frequency-based P/E/LP core
    classification, the sorted topology, per-type CPU lists and pool pinning;
  - `system_tuner` — the kernel-parameter audit, its score and the root
    script that applies every recommendation;
  - `memory` — huge-page buffer geometry and the `/proc/meminfo` report lines;
  - `compute_offload` — OpenVINO device strings and the device report.
- `app/` — the program: sysfs/procfs reads, `mlock`/`mmap`, Rayon pools pinned
  with `core_affinity`, `wgpu`, OpenVINO and the floating-point benchmarks.
- `tests/` — tests of the library.
