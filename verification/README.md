# dlss_wgpu

Verified planning for DLSS Ray Reconstruction with wgpu.

- `src/` is the Verus library. It decides the creation parameters and
  resolutions of a Ray Reconstruction feature (`create.rs`,
  `ray_reconstruction.rs`), the resources handed to NGX for an evaluation
  (`eval.rs`), and the texture transitions recorded before it
  (`render_parameters.rs`, `transitions.rs`). `laws.rs` proves properties
  that span these functions.
- `app/` is the unverified glue: it records transitions and submits command
  buffers with wgpu, calls the NGX entry points through a trait that the
  program linking the DLSS SDK implements, and holds the floating-point
  jitter and mip-bias suggestions.
