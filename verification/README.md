# aiq_runner

Verified rules of the AIQ controlled benchmark runner, written in Verus.

The library states in `requires`/`ensures` what each rule accepts and
returns, and proves it:

- `capacity` — capacity admission of a run: runnable cells, worker and
  evaluator permits, the list-scheduling bound and whether the run fits
  before the next schedule slot.
- `corpus` — corpus commitments: grammars, run provenance, the model
  toolchain (observed files hashed from their bytes), the catalog and
  selected tasks, source manifests checked against the files' current
  bytes, the deterministic execution digests, the commitment document's own
  canonical digest, and the admission of committed executables.
- `seal` — the rules of a create-new corpus seal: corpus kinds, acceptance
  classes, catalog identity and order, runtime authority, the execution
  provenance document, controlled trees and the runner source manifest
  addressed by their files' bytes, the authoring documents, the sealed
  commitment and the seal receipt.
- `release_gate` — the private candidate release gate: the signed public
  admission, the twenty-one-unit private plan, path isolation, the
  four-component evaluator score, the Ed25519 execution authorization, the
  protected release trust policy, the signed control plane checked before
  any private corpus is opened, and the create-once output ledger.
- `cli` — the runner's I/O-free decisions: submission verdicts, bounded
  arguments, task and model selection, the dispatch window,
  permission-evidence digests, the options a task validation run needs and
  whether a live run reads an Official admission.
- `report` — the public-safe task validation report.
- `digest`, `text`, `model` — content addresses (SHA-256 over bytes and
  canonical JSON), character classes and the fixed model matrix.

Laws that span functions are public proof functions named `law_*`.

`app/` is a small command-line program that runs some of the library's
decisions on real files, the environment, the clock and child processes
(observation instants, acceptance suites, version probes, executable and
controlled-tree addresses, admission trust), and holds the create-once
output files of a signed plan on disk around the verified output ledger
(reserve, resume, one atomic fill per output, read-back by digest). The
runner's full command line,
which orchestrates runs, preflight and packaging through modules outside
this crate, is not part of it. `tests/` runs the library on concrete values
with the real outside crates linked.
