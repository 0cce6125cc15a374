use crate::error::DlssError;
use crate::modes::{
    DlssRayReconstructionDepthMode, DlssRayReconstructionRoughnessMode,
    NGX_DENOISE_MODE_DL_UNIFIED,
};
use vstd::prelude::*;

verus! {

/// The NGX feature flag `NVSDK_NGX_DLSS_Feature_Flags_AutoExposure`, which
/// Ray Reconstruction does not support.
pub const NGX_DLSS_FEATURE_FLAG_AUTO_EXPOSURE: i32 = 64;

/// Whether NGX feature flags ask for auto exposure.
pub open spec fn asks_for_auto_exposure(feature_create_flags: i32) -> bool {
    feature_create_flags & NGX_DLSS_FEATURE_FLAG_AUTO_EXPOSURE != 0
}

/// The settings a [`crate::DlssRayReconstruction`] is created with.
///
/// The quality mode and the feature flags arrive resolved to the values NGX
/// takes: `perf_quality_value` is the `NVSDK_NGX_PerfQuality_Value` of the
/// chosen quality mode for `upscaled_resolution`, `dlaa` says whether that mode
/// is DLAA, and `feature_create_flags` are the NGX feature flags.
#[derive(Clone, Copy, Debug)]
pub struct DlssRayReconstructionSettings {
    /// The resolution DLSS will output at.
    pub upscaled_resolution: [u32; 2],
    /// The NGX performance/quality value of the chosen quality mode.
    pub perf_quality_value: u32,
    /// Whether the chosen quality mode is DLAA (render at the output resolution).
    pub dlaa: bool,
    /// The NGX feature creation flags.
    pub feature_create_flags: i32,
    /// Whether the feature flags ask for output subrects.
    pub enable_output_subrects: bool,
    /// How roughness will be provided.
    pub roughness_mode: DlssRayReconstructionRoughnessMode,
    /// How depth will be provided.
    pub depth_mode: DlssRayReconstructionDepthMode,
}

/// The parameters handed to NGX to create a Ray Reconstruction feature
/// (`NVSDK_NGX_DLSSD_Create_Params`).
#[derive(Clone, Copy, Debug, PartialEq, Eq, Structural)]
pub struct DlssRayReconstructionCreateParams {
    /// `InDenoiseMode`.
    pub denoise_mode: u32,
    /// `InRoughnessMode`.
    pub roughness_mode: u32,
    /// `InUseHWDepth`.
    pub use_hw_depth: u32,
    /// `InWidth`: the render width.
    pub width: u32,
    /// `InHeight`: the render height.
    pub height: u32,
    /// `InTargetWidth`: the upscaled width.
    pub target_width: u32,
    /// `InTargetHeight`: the upscaled height.
    pub target_height: u32,
    /// `InPerfQualityValue`.
    pub perf_quality_value: u32,
    /// `InFeatureCreateFlags`.
    pub feature_create_flags: i32,
    /// `InEnableOutputSubrects`.
    pub enable_output_subrects: bool,
}

/// The resolution the camera renders at: the output resolution under DLAA,
/// else the optimal render resolution that NGX suggested.
pub open spec fn planned_render_resolution(
    settings: DlssRayReconstructionSettings,
    optimal_render_resolution: [u32; 2],
) -> [u32; 2] {
    if settings.dlaa {
        settings.upscaled_resolution
    } else {
        optimal_render_resolution
    }
}

impl DlssRayReconstructionSettings {
    /// Checks the settings: refuses feature flags that ask for auto exposure,
    /// which Ray Reconstruction does not support.
    pub fn validate(&self) -> (result: Result<(), DlssError>)
        ensures
            result is Err <==> asks_for_auto_exposure(self.feature_create_flags),
            result matches Err(e) ==> e == DlssError::AutoExposureUnsupported,
    {
        if self.feature_create_flags & NGX_DLSS_FEATURE_FLAG_AUTO_EXPOSURE != 0 {
            Err(DlssError::AutoExposureUnsupported)
        } else {
            Ok(())
        }
    }
}

impl DlssRayReconstructionCreateParams {
    /// The render resolution these parameters create the feature for.
    pub open spec fn spec_render_resolution(self) -> [u32; 2] {
        [self.width, self.height]
    }

    /// The upscaled resolution these parameters create the feature for.
    pub open spec fn spec_upscaled_resolution(self) -> [u32; 2] {
        [self.target_width, self.target_height]
    }

    /// The creation parameters for `settings`, given the optimal render
    /// resolution that NGX suggested for them; an error when the settings ask
    /// for auto exposure, which Ray Reconstruction does not support.
    pub open spec fn spec_new(
        settings: DlssRayReconstructionSettings,
        optimal_render_resolution: [u32; 2],
    ) -> Result<Self, DlssError> {
        if asks_for_auto_exposure(settings.feature_create_flags) {
            Err(DlssError::AutoExposureUnsupported)
        } else {
            let render_resolution = planned_render_resolution(settings, optimal_render_resolution);
            Ok(
                DlssRayReconstructionCreateParams {
                    denoise_mode: NGX_DENOISE_MODE_DL_UNIFIED,
                    roughness_mode: settings.roughness_mode.spec_ngx_value(),
                    use_hw_depth: settings.depth_mode.spec_ngx_value(),
                    width: render_resolution[0],
                    height: render_resolution[1],
                    target_width: settings.upscaled_resolution[0],
                    target_height: settings.upscaled_resolution[1],
                    perf_quality_value: settings.perf_quality_value,
                    feature_create_flags: settings.feature_create_flags,
                    enable_output_subrects: settings.enable_output_subrects,
                },
            )
        }
    }

    /// The creation parameters for `settings`, given the optimal render
    /// resolution that NGX suggested for them.
    ///
    /// Refuses settings whose feature flags ask for auto exposure.
    pub fn new(
        settings: &DlssRayReconstructionSettings,
        optimal_render_resolution: [u32; 2],
    ) -> (result: Result<Self, DlssError>)
        ensures
            result == Self::spec_new(*settings, optimal_render_resolution),
            result matches Ok(params) ==> {
                &&& params.spec_render_resolution() == planned_render_resolution(
                    *settings,
                    optimal_render_resolution,
                )
                &&& params.spec_upscaled_resolution() == settings.upscaled_resolution
            },
    {
        settings.validate()?;
        let render_resolution = if settings.dlaa {
            settings.upscaled_resolution
        } else {
            optimal_render_resolution
        };
        let params = DlssRayReconstructionCreateParams {
            denoise_mode: NGX_DENOISE_MODE_DL_UNIFIED,
            roughness_mode: settings.roughness_mode.ngx_value(),
            use_hw_depth: settings.depth_mode.ngx_value(),
            width: render_resolution[0],
            height: render_resolution[1],
            target_width: settings.upscaled_resolution[0],
            target_height: settings.upscaled_resolution[1],
            perf_quality_value: settings.perf_quality_value,
            feature_create_flags: settings.feature_create_flags,
            enable_output_subrects: settings.enable_output_subrects,
        };
        assert(params.spec_render_resolution() =~= render_resolution);
        assert(params.spec_upscaled_resolution() =~= settings.upscaled_resolution);
        Ok(params)
    }
}

} // verus!
