use crate::create::{DlssRayReconstructionCreateParams, NGX_DLSS_FEATURE_FLAG_AUTO_EXPOSURE, asks_for_auto_exposure};
use crate::error::DlssError;
use crate::eval::DlssRayReconstructionEvalInputs;
use crate::render_parameters::{DlssRayReconstructionRenderParameters, DlssTextureBarrier};
use vstd::prelude::*;

verus! {

/// Camera-specific object for using DLSS Ray Reconstruction.
///
/// `H` holds the created NGX feature together with what is needed to use and
/// release it; the library only carries it.
pub struct DlssRayReconstruction<H> {
    upscaled_resolution: [u32; 2],
    render_resolution: [u32; 2],
    feature: H,
}

/// The resolutions a [`DlssRayReconstruction`] was created for.
pub struct DlssRayReconstructionView {
    /// The upscaled resolution DLSS outputs at.
    pub upscaled_resolution: [u32; 2],
    /// The resolution the camera renders at, pre-upscaling.
    pub render_resolution: [u32; 2],
}

impl DlssRayReconstructionView {
    /// The resolutions of an object created with `create_params`.
    pub open spec fn of_create_params(create_params: DlssRayReconstructionCreateParams) -> Self {
        DlssRayReconstructionView {
            upscaled_resolution: create_params.spec_upscaled_resolution(),
            render_resolution: create_params.spec_render_resolution(),
        }
    }
}

impl<H> View for DlssRayReconstruction<H> {
    type V = DlssRayReconstructionView;

    closed spec fn view(&self) -> DlssRayReconstructionView {
        DlssRayReconstructionView {
            upscaled_resolution: self.upscaled_resolution,
            render_resolution: self.render_resolution,
        }
    }
}

/// What one evaluation of Ray Reconstruction needs: the inputs handed to NGX,
/// and the texture transitions to record before it.
pub struct DlssRayReconstructionRenderPlan<T, F, M> {
    /// The inputs handed to NGX.
    pub eval_inputs: DlssRayReconstructionEvalInputs<T, F, M>,
    /// The texture transitions, in the order they are recorded.
    pub barriers: Vec<DlssTextureBarrier<T>>,
}

impl<H> DlssRayReconstruction<H> {
    /// The feature this object carries.
    pub closed spec fn spec_feature(&self) -> H {
        self.feature
    }

    /// A Ray Reconstruction object for the feature that NGX created with
    /// `create_params`.
    ///
    /// Refuses parameters whose feature flags ask for auto exposure.
    pub fn new(create_params: &DlssRayReconstructionCreateParams, feature: H) -> (result: Result<
        Self,
        DlssError,
    >)
        ensures
            result is Err <==> asks_for_auto_exposure(create_params.feature_create_flags),
            result matches Err(e) ==> e == DlssError::AutoExposureUnsupported,
            result matches Ok(dlss) ==> {
                &&& dlss@ == DlssRayReconstructionView::of_create_params(*create_params)
                &&& dlss.spec_feature() == feature
            },
    {
        if create_params.feature_create_flags & NGX_DLSS_FEATURE_FLAG_AUTO_EXPOSURE != 0 {
            return Err(DlssError::AutoExposureUnsupported);
        }
        let dlss = DlssRayReconstruction {
            upscaled_resolution: [create_params.target_width, create_params.target_height],
            render_resolution: [create_params.width, create_params.height],
            feature,
        };
        assert(dlss@.upscaled_resolution =~= create_params.spec_upscaled_resolution());
        assert(dlss@.render_resolution =~= create_params.spec_render_resolution());
        Ok(dlss)
    }

    /// The upscaled resolution DLSS will output at.
    pub fn upscaled_resolution(&self) -> (resolution: [u32; 2])
        ensures
            resolution == self@.upscaled_resolution,
    {
        self.upscaled_resolution
    }

    /// The resolution the camera should render at, pre-upscaling.
    pub fn render_resolution(&self) -> (resolution: [u32; 2])
        ensures
            resolution == self@.render_resolution,
    {
        self.render_resolution
    }

    /// The feature this object carries.
    pub fn feature(&self) -> (feature: &H)
        ensures
            *feature == self.spec_feature(),
    {
        &self.feature
    }

    /// Plans one evaluation of Ray Reconstruction with `render_parameters`:
    /// what NGX is handed, and the texture transitions to record first.
    ///
    /// A missing motion vector scale is handed over as
    /// `default_motion_vector_scale`. The texture transitions and the
    /// evaluation are to be recorded in a command buffer that is submitted in
    /// the same submit as the caller's command encoder, immediately after it.
    pub fn render<T: Copy, F: Copy, M: Copy>(
        &mut self,
        render_parameters: DlssRayReconstructionRenderParameters<T, F, M>,
        default_motion_vector_scale: F,
    ) -> (result: Result<DlssRayReconstructionRenderPlan<T, F, M>, DlssError>)
        ensures
            *final(self) == *old(self),
            result is Ok,
            result matches Ok(plan) ==> {
                &&& plan.barriers@ == render_parameters.spec_barrier_list()
                &&& plan.eval_inputs == DlssRayReconstructionEvalInputs::spec_new(
                    render_parameters,
                    old(self)@.render_resolution,
                    default_motion_vector_scale,
                )
            },
    {
        render_parameters.validate()?;
        let eval_inputs = DlssRayReconstructionEvalInputs::new(
            &render_parameters,
            self.render_resolution,
            default_motion_vector_scale,
        );
        let barriers = render_parameters.barrier_list();
        Ok(DlssRayReconstructionRenderPlan { eval_inputs, barriers })
    }
}

} // verus!
