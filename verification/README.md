# brush_render

Shape logic of a Gaussian-splat renderer, verified with Verus.

- `src/sh.rs`: spherical-harmonic band counts (`(degree + 1)^2` coefficients per
  channel) and the degree a coefficient count stands for.
- `src/gaussian_splats.rs`: `SplatDims`, the dimensions of the five per-splat
  parameter tensors; building them from flat data lengths or tensor dimensions,
  changing the SH degree, the shape checks, and the laws relating these.
- `src/lib.rs`: render options (`AlphaMode`) and render statistics.
- `app/lib.rs`: the burn-tensor `Splats` type, which asks the library for every
  shape decision and does the floating-point tensor work itself.
