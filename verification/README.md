# baselines

Baseline correction of signals, spectra and row-major two-dimensional
surfaces.

- `src/` is the Verus-verified library: matrix shapes and views, fit records,
  method names and their parsing, parameter records with their defaults and
  checks, classification masks (dilation, pruning, refinement, peak
  segments), edge reflections, banded-storage indexing, polynomial basis
  enumeration, morphology window geometry, anchor ordering, batch and
  system shape checks, and the builders. Each public function carries a
  contract, and the laws that relate functions are stated as proof
  functions.
- `app/` holds the floating-point algorithms (morphology, smoothing,
  classification statistics, penalized splines, banded and pentadiagonal
  solvers, BEADS, corner cutting, two-dimensional polynomial and morphology
  fits) on top of the library, and the error type with its messages.
- `tests/` exercises the library on concrete values.
