use crate::render_parameters::{
    DlssRayReconstructionRenderParameters, DlssRayReconstructionSpecularGuide,
};
use vstd::prelude::*;

verus! {

/// The resources and values handed to NGX for one evaluation of Ray
/// Reconstruction (the bound fields of `NVSDK_NGX_VK_DLSSD_Eval_Params`).
///
/// A `None` texture is handed to NGX as a null resource; every resource slot
/// that is not listed here is handed over null, and every other value zero.
#[derive(Clone, Copy)]
pub struct DlssRayReconstructionEvalInputs<T, F, M> {
    /// `pInResponsivityMask`.
    pub responsivity_mask: Option<T>,
    /// `pInDiffuseAlbedo`.
    pub diffuse_albedo: T,
    /// `pInSpecularAlbedo`.
    pub specular_albedo: T,
    /// `pInNormals`.
    pub normals: T,
    /// `pInRoughness`.
    pub roughness: Option<T>,
    /// `pInColor`.
    pub color: T,
    /// `pInAlpha`.
    pub alpha: Option<T>,
    /// `pInOutput`.
    pub output: T,
    /// `pInOutputAlpha`.
    pub output_alpha: Option<T>,
    /// `pInDepth`.
    pub depth: T,
    /// `pInMotionVectors`.
    pub motion_vectors: T,
    /// `InJitterOffsetX` and `InJitterOffsetY`.
    pub jitter_offset: F,
    /// `InRenderSubrectDimensions`.
    pub render_subrect_dimensions: [u32; 2],
    /// `InReset`.
    pub reset: i32,
    /// `InMVScaleX` and `InMVScaleY`.
    pub motion_vector_scale: F,
    /// The base of every subrect (`In*SubrectBase`): each subrect starts at
    /// the origin of its texture.
    pub subrect_base: [u32; 2],
    /// `pInScreenSpaceSubsurfaceScatteringGuide`.
    pub screen_space_subsurface_scattering_guide: Option<T>,
    /// `pInTransparencyLayer`.
    pub transparency_layer: Option<T>,
    /// `pInColorBeforeTransparency`.
    pub color_before_transparency: Option<T>,
    /// `pInDepthOfFieldGuide`.
    pub depth_of_field_guide: Option<T>,
    /// `pInSpecularHitDistance`.
    pub specular_hit_distance: Option<T>,
    /// `pInWorldToViewMatrix`.
    pub world_to_view_matrix: Option<M>,
    /// `pInViewToClipMatrix`.
    pub view_to_clip_matrix: Option<M>,
    /// `pInMotionVectorsReflections`.
    pub motion_vectors_reflections: Option<T>,
}

/// The texture of an optional resource as a sequence of at most one texture.
pub open spec fn optional_texture<T>(texture_view: Option<T>) -> Seq<T> {
    match texture_view {
        Some(t) => seq![t],
        None => Seq::empty(),
    }
}

/// The rectangle DLSS works on: the partial texture size when one is given,
/// else the whole render resolution.
pub open spec fn render_subrect<T, F, M>(
    render_parameters: DlssRayReconstructionRenderParameters<T, F, M>,
    render_resolution: [u32; 2],
) -> [u32; 2] {
    match render_parameters.partial_texture_size {
        Some(size) => size,
        None => render_resolution,
    }
}

impl<T, F, M> DlssRayReconstructionEvalInputs<T, F, M> {
    /// What NGX is handed to evaluate Ray Reconstruction with
    /// `render_parameters` on a feature created for `render_resolution`: each
    /// texture in its slot, every subrect based at the origin, the specular
    /// guide as reflection motion vectors or as a hit distance with its two
    /// camera matrices, the reset flag as 1 or
    /// 0, the render subrect, and `default_motion_vector_scale` where no
    /// motion vector scale is given.
    pub open spec fn spec_new(
        render_parameters: DlssRayReconstructionRenderParameters<T, F, M>,
        render_resolution: [u32; 2],
        default_motion_vector_scale: F,
    ) -> Self {
        let (motion_vectors_reflections, specular_hit_distance, world_to_view, view_to_clip) =
            match render_parameters.specular_guide {
            DlssRayReconstructionSpecularGuide::SpecularMotionVectors(t) => (
                Some(t),
                None,
                None,
                None,
            ),
            DlssRayReconstructionSpecularGuide::SpecularHitDistance {
                texture_view,
                world_to_view_rows_array,
                view_to_clip_rows_array,
            } => (
                None,
                Some(texture_view),
                Some(world_to_view_rows_array),
                Some(view_to_clip_rows_array),
            ),
        };
        DlssRayReconstructionEvalInputs {
            responsivity_mask: render_parameters.responsivity_mask,
            diffuse_albedo: render_parameters.diffuse_albedo,
            specular_albedo: render_parameters.specular_albedo,
            normals: render_parameters.normals,
            roughness: render_parameters.roughness,
            color: render_parameters.color,
            alpha: render_parameters.alpha,
            output: render_parameters.dlss_output,
            output_alpha: render_parameters.dlss_output_alpha,
            depth: render_parameters.depth,
            motion_vectors: render_parameters.motion_vectors,
            jitter_offset: render_parameters.jitter_offset,
            render_subrect_dimensions: render_subrect(render_parameters, render_resolution),
            reset: if render_parameters.reset { 1i32 } else { 0i32 },
            motion_vector_scale: match render_parameters.motion_vector_scale {
                Some(scale) => scale,
                None => default_motion_vector_scale,
            },
            subrect_base: [0u32, 0u32],
            screen_space_subsurface_scattering_guide:
                render_parameters.screen_space_subsurface_scattering_guide,
            transparency_layer: render_parameters.transparency_overlay,
            color_before_transparency: render_parameters.color_before_transparency,
            depth_of_field_guide: render_parameters.depth_of_field_guide,
            specular_hit_distance,
            world_to_view_matrix: world_to_view,
            view_to_clip_matrix: view_to_clip,
            motion_vectors_reflections,
        }
    }

    /// Every texture bound for NGX to read, in the order the render
    /// parameters list them.
    pub open spec fn spec_read_textures(self) -> Seq<T> {
        seq![self.diffuse_albedo, self.specular_albedo, self.normals]
            + optional_texture(self.roughness)
            + seq![self.color, self.depth, self.motion_vectors]
            + self.spec_specular_guide_textures()
            + self.spec_optional_read_textures()
    }

    /// The bound specular guide textures: the hit distance, then the
    /// reflection motion vectors, each if bound.
    pub open spec fn spec_specular_guide_textures(self) -> Seq<T> {
        optional_texture(self.specular_hit_distance)
            + optional_texture(self.motion_vectors_reflections)
    }

    /// The bound optional textures NGX reads after the specular guide.
    pub open spec fn spec_optional_read_textures(self) -> Seq<T> {
        optional_texture(self.screen_space_subsurface_scattering_guide)
            + optional_texture(self.transparency_layer)
            + optional_texture(self.color_before_transparency)
            + optional_texture(self.depth_of_field_guide)
            + optional_texture(self.responsivity_mask)
            + optional_texture(self.alpha)
    }

    /// Every texture bound for NGX to write.
    pub open spec fn spec_written_textures(self) -> Seq<T> {
        seq![self.output] + optional_texture(self.output_alpha)
    }
}

impl<T: Copy, F: Copy, M: Copy> DlssRayReconstructionEvalInputs<T, F, M> {
    /// What NGX is handed to evaluate Ray Reconstruction with
    /// `render_parameters` on a feature created for `render_resolution`.
    ///
    /// A missing motion vector scale is handed over as
    /// `default_motion_vector_scale`.
    pub fn new(
        render_parameters: &DlssRayReconstructionRenderParameters<T, F, M>,
        render_resolution: [u32; 2],
        default_motion_vector_scale: F,
    ) -> (inputs: Self)
        ensures
            inputs == Self::spec_new(*render_parameters, render_resolution, default_motion_vector_scale),
    {
        let render_subrect_dimensions = match render_parameters.partial_texture_size {
            Some(size) => size,
            None => render_resolution,
        };
        let motion_vector_scale = match render_parameters.motion_vector_scale {
            Some(scale) => scale,
            None => default_motion_vector_scale,
        };
        let reset: i32 = if render_parameters.reset { 1 } else { 0 };
        let mut motion_vectors_reflections: Option<T> = None;
        let mut specular_hit_distance: Option<T> = None;
        let mut world_to_view_matrix: Option<M> = None;
        let mut view_to_clip_matrix: Option<M> = None;
        match &render_parameters.specular_guide {
            DlssRayReconstructionSpecularGuide::SpecularMotionVectors(t) => {
                motion_vectors_reflections = Some(*t);
            },
            DlssRayReconstructionSpecularGuide::SpecularHitDistance {
                texture_view,
                world_to_view_rows_array,
                view_to_clip_rows_array,
            } => {
                specular_hit_distance = Some(*texture_view);
                world_to_view_matrix = Some(*world_to_view_rows_array);
                view_to_clip_matrix = Some(*view_to_clip_rows_array);
            },
        }
        DlssRayReconstructionEvalInputs {
            responsivity_mask: render_parameters.responsivity_mask,
            diffuse_albedo: render_parameters.diffuse_albedo,
            specular_albedo: render_parameters.specular_albedo,
            normals: render_parameters.normals,
            roughness: render_parameters.roughness,
            color: render_parameters.color,
            alpha: render_parameters.alpha,
            output: render_parameters.dlss_output,
            output_alpha: render_parameters.dlss_output_alpha,
            depth: render_parameters.depth,
            motion_vectors: render_parameters.motion_vectors,
            jitter_offset: render_parameters.jitter_offset,
            render_subrect_dimensions,
            reset,
            motion_vector_scale,
            subrect_base: [0u32, 0u32],
            screen_space_subsurface_scattering_guide:
                render_parameters.screen_space_subsurface_scattering_guide,
            transparency_layer: render_parameters.transparency_overlay,
            color_before_transparency: render_parameters.color_before_transparency,
            depth_of_field_guide: render_parameters.depth_of_field_guide,
            specular_hit_distance,
            world_to_view_matrix,
            view_to_clip_matrix,
            motion_vectors_reflections,
        }
    }
}

} // verus!
