//! Planning and bookkeeping for DLSS Ray Reconstruction on top of wgpu.
//!
//! The library decides everything that the NGX calls are handed: the render
//! resolution of a feature, its creation parameters, the resources bound for
//! an evaluation and the texture transitions recorded before it. The GPU and
//! NGX calls themselves are made by the caller with the values planned here.

pub mod create;
pub mod error;
pub mod eval;
pub mod laws;
pub mod modes;
pub mod ray_reconstruction;
pub mod render_parameters;
pub mod transitions;

pub use create::{DlssRayReconstructionCreateParams, DlssRayReconstructionSettings};
pub use error::DlssError;
pub use eval::DlssRayReconstructionEvalInputs;
pub use modes::{DlssRayReconstructionDepthMode, DlssRayReconstructionRoughnessMode};
pub use ray_reconstruction::{
    DlssRayReconstruction, DlssRayReconstructionRenderPlan, DlssRayReconstructionView,
};
pub use render_parameters::{
    DlssRayReconstructionRenderParameters, DlssRayReconstructionSpecularGuide, DlssTextureBarrier,
    DlssTextureState,
};
pub use transitions::texture_transitions;
