use vstd::prelude::*;

verus! {

/// NGX value of `NVSDK_NGX_DLSS_Denoise_Mode_DLUnified`, the only denoise mode used.
pub const NGX_DENOISE_MODE_DL_UNIFIED: u32 = 1;

/// NGX value of `NVSDK_NGX_DLSS_Roughness_Mode_Unpacked`.
pub const NGX_ROUGHNESS_MODE_UNPACKED: u32 = 0;

/// NGX value of `NVSDK_NGX_DLSS_Roughness_Mode_Packed`.
pub const NGX_ROUGHNESS_MODE_PACKED: u32 = 1;

/// NGX value of `NVSDK_NGX_DLSS_Depth_Type_Linear`.
pub const NGX_DEPTH_TYPE_LINEAR: u32 = 0;

/// NGX value of `NVSDK_NGX_DLSS_Depth_Type_HW`.
pub const NGX_DEPTH_TYPE_HW: u32 = 1;

/// How roughness will be provided to [`crate::DlssRayReconstruction`].
#[derive(Clone, Copy, Debug, PartialEq, Eq, Structural)]
pub enum DlssRayReconstructionRoughnessMode {
    /// Roughness is provided as a standalone texture in
    /// [`crate::DlssRayReconstructionRenderParameters::roughness`].
    Unpacked,
    /// Roughness is packed into the alpha channel of the normal texture in
    /// [`crate::DlssRayReconstructionRenderParameters::normals`].
    Packed,
}

/// How depth will be provided to [`crate::DlssRayReconstruction`].
#[derive(Clone, Copy, Debug, PartialEq, Eq, Structural)]
pub enum DlssRayReconstructionDepthMode {
    /// Depth will be linear in view-space.
    Linear,
    /// Depth is a hardware depth buffer.
    Hardware,
}

impl DlssRayReconstructionRoughnessMode {
    /// The NGX roughness mode that this mode is handed to NGX as.
    pub open spec fn spec_ngx_value(self) -> u32 {
        match self {
            DlssRayReconstructionRoughnessMode::Unpacked => NGX_ROUGHNESS_MODE_UNPACKED,
            DlssRayReconstructionRoughnessMode::Packed => NGX_ROUGHNESS_MODE_PACKED,
        }
    }

    /// The NGX roughness mode (`InRoughnessMode`) for this mode.
    pub fn ngx_value(&self) -> (value: u32)
        ensures
            value == self.spec_ngx_value(),
    {
        match self {
            DlssRayReconstructionRoughnessMode::Unpacked => NGX_ROUGHNESS_MODE_UNPACKED,
            DlssRayReconstructionRoughnessMode::Packed => NGX_ROUGHNESS_MODE_PACKED,
        }
    }
}

impl DlssRayReconstructionDepthMode {
    /// The NGX depth type that this mode is handed to NGX as.
    pub open spec fn spec_ngx_value(self) -> u32 {
        match self {
            DlssRayReconstructionDepthMode::Linear => NGX_DEPTH_TYPE_LINEAR,
            DlssRayReconstructionDepthMode::Hardware => NGX_DEPTH_TYPE_HW,
        }
    }

    /// The NGX depth type (`InUseHWDepth`) for this mode.
    pub fn ngx_value(&self) -> (value: u32)
        ensures
            value == self.spec_ngx_value(),
    {
        match self {
            DlssRayReconstructionDepthMode::Linear => NGX_DEPTH_TYPE_LINEAR,
            DlssRayReconstructionDepthMode::Hardware => NGX_DEPTH_TYPE_HW,
        }
    }
}

} // verus!
