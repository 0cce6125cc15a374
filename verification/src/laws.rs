use crate::create::{
    DlssRayReconstructionCreateParams, DlssRayReconstructionSettings, asks_for_auto_exposure,
};
use crate::error::DlssError;
use crate::modes::{
    DlssRayReconstructionDepthMode, DlssRayReconstructionRoughnessMode, NGX_DENOISE_MODE_DL_UNIFIED,
    NGX_DEPTH_TYPE_HW, NGX_DEPTH_TYPE_LINEAR, NGX_ROUGHNESS_MODE_PACKED,
    NGX_ROUGHNESS_MODE_UNPACKED,
};
use crate::eval::{DlssRayReconstructionEvalInputs, optional_texture};
use crate::ray_reconstruction::{DlssRayReconstruction, DlssRayReconstructionView};
use crate::render_parameters::{
    DlssRayReconstructionRenderParameters, DlssRayReconstructionSpecularGuide, DlssTextureBarrier,
    DlssTextureState, optional_barriers, resource_barrier, storage_barrier,
};
use vstd::prelude::*;

verus! {

/// The transitions of `textures`, each moved to `state`.
pub open spec fn barriers_to<T>(textures: Seq<T>, state: DlssTextureState) -> Seq<DlssTextureBarrier<T>> {
    textures.map_values(|t: T| DlssTextureBarrier { texture_view: t, state })
}

proof fn lemma_barriers_to_concat<T>(a: Seq<T>, b: Seq<T>, state: DlssTextureState)
    ensures
        barriers_to(a + b, state) == barriers_to(a, state) + barriers_to(b, state),
{
    assert(barriers_to(a + b, state) =~= barriers_to(a, state) + barriers_to(b, state));
}

proof fn lemma_barriers_to_optional<T>(texture_view: Option<T>, state: DlssTextureState)
    ensures
        barriers_to(optional_texture(texture_view), state) == optional_barriers(texture_view, state),
{
    assert(barriers_to(optional_texture(texture_view), state) =~= optional_barriers(
        texture_view,
        state,
    ));
}

proof fn lemma_barriers_to_optionals<T>(
    a: Option<T>,
    b: Option<T>,
    c: Option<T>,
    d: Option<T>,
    e: Option<T>,
    f: Option<T>,
    state: DlssTextureState,
)
    ensures
        barriers_to(
            optional_texture(a) + optional_texture(b) + optional_texture(c) + optional_texture(d)
                + optional_texture(e) + optional_texture(f),
            state,
        ) == optional_barriers(a, state) + optional_barriers(b, state) + optional_barriers(
            c,
            state,
        ) + optional_barriers(d, state) + optional_barriers(e, state) + optional_barriers(
            f,
            state,
        ),
{
    let (oa, ob, oc) = (optional_texture(a), optional_texture(b), optional_texture(c));
    let (od, oe, of) = (optional_texture(d), optional_texture(e), optional_texture(f));
    lemma_barriers_to_concat(oa, ob, state);
    lemma_barriers_to_concat(oa + ob, oc, state);
    lemma_barriers_to_concat(oa + ob + oc, od, state);
    lemma_barriers_to_concat(oa + ob + oc + od, oe, state);
    lemma_barriers_to_concat(oa + ob + oc + od + oe, of, state);
    lemma_barriers_to_optional(a, state);
    lemma_barriers_to_optional(b, state);
    lemma_barriers_to_optional(c, state);
    lemma_barriers_to_optional(d, state);
    lemma_barriers_to_optional(e, state);
    lemma_barriers_to_optional(f, state);
}

/// One if an optional texture is given, else zero.
pub open spec fn given<T>(texture_view: Option<T>) -> nat {
    if texture_view is Some { 1 } else { 0 }
}

/// Creation refuses exactly the settings that ask for auto exposure. Every
/// other settings give parameters that an object accepts, and that object
/// outputs at the requested resolution; under DLAA it renders at that same
/// resolution, and otherwise at the optimal render resolution that NGX
/// suggested.
pub proof fn lemma_creation(
    settings: DlssRayReconstructionSettings,
    optimal_render_resolution: [u32; 2],
)
    ensures
        DlssRayReconstructionCreateParams::spec_new(settings, optimal_render_resolution) is Err
            <==> asks_for_auto_exposure(settings.feature_create_flags),
        DlssRayReconstructionCreateParams::spec_new(settings, optimal_render_resolution) matches Ok(
            create_params,
        ) ==> {
            let view = DlssRayReconstructionView::of_create_params(create_params);
            &&& !asks_for_auto_exposure(create_params.feature_create_flags)
            &&& view.upscaled_resolution == settings.upscaled_resolution
            &&& settings.dlaa ==> view.render_resolution == view.upscaled_resolution
            &&& !settings.dlaa ==> view.render_resolution == optimal_render_resolution
        },
{
    if let Ok(create_params) = DlssRayReconstructionCreateParams::spec_new(
        settings,
        optimal_render_resolution,
    ) {
        let view = DlssRayReconstructionView::of_create_params(create_params);
        assert(view.upscaled_resolution =~= settings.upscaled_resolution);
        if settings.dlaa {
            assert(view.render_resolution =~= view.upscaled_resolution);
        } else {
            assert(view.render_resolution =~= optimal_render_resolution);
        }
    }
}

/// Eight textures are always transitioned before an evaluation, plus one for
/// each optional texture that is given.
pub proof fn lemma_barrier_count<T, F, M>(
    render_parameters: DlssRayReconstructionRenderParameters<T, F, M>,
)
    ensures
        render_parameters.spec_barrier_list().len() == 8 + given(render_parameters.roughness)
            + given(render_parameters.screen_space_subsurface_scattering_guide) + given(
            render_parameters.transparency_overlay,
        ) + given(render_parameters.color_before_transparency) + given(
            render_parameters.depth_of_field_guide,
        ) + given(render_parameters.responsivity_mask) + given(render_parameters.alpha) + given(
            render_parameters.dlss_output_alpha,
        ),
{
}

/// The textures transitioned before an evaluation are exactly the textures
/// NGX is handed for it, in order: first every texture it reads, each moved
/// to the resource state, then every texture it writes, each moved to the
/// storage state.
pub proof fn lemma_barriers_cover_eval_inputs<T, F, M>(
    render_parameters: DlssRayReconstructionRenderParameters<T, F, M>,
    render_resolution: [u32; 2],
    default_motion_vector_scale: F,
)
    ensures
        ({
            let inputs = DlssRayReconstructionEvalInputs::spec_new(
                render_parameters,
                render_resolution,
                default_motion_vector_scale,
            );
            render_parameters.spec_barrier_list() == barriers_to(
                inputs.spec_read_textures(),
                DlssTextureState::Resource,
            ) + barriers_to(inputs.spec_written_textures(), DlssTextureState::StorageReadWrite)
        }),
{
    let p = render_parameters;
    let inputs = DlssRayReconstructionEvalInputs::spec_new(
        p,
        render_resolution,
        default_motion_vector_scale,
    );
    let r = DlssTextureState::Resource;
    let w = DlssTextureState::StorageReadWrite;
    let head = seq![inputs.diffuse_albedo, inputs.specular_albedo, inputs.normals];
    let roughness = optional_texture(inputs.roughness);
    let middle = seq![inputs.color, inputs.depth, inputs.motion_vectors];
    let guide = inputs.spec_specular_guide_textures();
    let tail = inputs.spec_optional_read_textures();
    lemma_barriers_to_concat(head, roughness, r);
    lemma_barriers_to_concat(head + roughness, middle, r);
    lemma_barriers_to_concat(head + roughness + middle, guide, r);
    lemma_barriers_to_concat(head + roughness + middle + guide, tail, r);
    assert(barriers_to(head, r) == seq![
        resource_barrier(p.diffuse_albedo),
        resource_barrier(p.specular_albedo),
        resource_barrier(p.normals),
    ]) by {
        assert(barriers_to(head, r) =~= seq![
            resource_barrier(p.diffuse_albedo),
            resource_barrier(p.specular_albedo),
            resource_barrier(p.normals),
        ]);
    }
    lemma_barriers_to_optional(p.roughness, r);
    assert(barriers_to(middle, r) == seq![
        resource_barrier(p.color),
        resource_barrier(p.depth),
        resource_barrier(p.motion_vectors),
    ]) by {
        assert(barriers_to(middle, r) =~= seq![
            resource_barrier(p.color),
            resource_barrier(p.depth),
            resource_barrier(p.motion_vectors),
        ]);
    }
    assert(barriers_to(guide, r) == seq![resource_barrier(p.specular_guide.spec_texture_view())])
        by {
        assert(barriers_to(guide, r) =~= seq![
            resource_barrier(p.specular_guide.spec_texture_view()),
        ]);
    }
    lemma_barriers_to_optionals(
        p.screen_space_subsurface_scattering_guide,
        p.transparency_overlay,
        p.color_before_transparency,
        p.depth_of_field_guide,
        p.responsivity_mask,
        p.alpha,
        r,
    );
    assert(barriers_to(inputs.spec_read_textures(), r) == p.spec_input_barriers());
    lemma_barriers_to_concat(seq![inputs.output], optional_texture(inputs.output_alpha), w);
    lemma_barriers_to_optional(p.dlss_output_alpha, w);
    assert(barriers_to(seq![inputs.output], w) == seq![storage_barrier(p.dlss_output)]) by {
        assert(barriers_to(seq![inputs.output], w) =~= seq![storage_barrier(p.dlss_output)]);
    }
}

/// NGX receives the specular guide in exactly one form: reflection motion
/// vectors alone, or a hit distance together with both camera matrices.
pub proof fn lemma_specular_guide_bound_once<T, F, M>(
    render_parameters: DlssRayReconstructionRenderParameters<T, F, M>,
    render_resolution: [u32; 2],
    default_motion_vector_scale: F,
)
    ensures
        ({
            let inputs = DlssRayReconstructionEvalInputs::spec_new(
                render_parameters,
                render_resolution,
                default_motion_vector_scale,
            );
            &&& (inputs.motion_vectors_reflections is Some) != (inputs.specular_hit_distance is Some)
            &&& inputs.world_to_view_matrix is Some <==> inputs.specular_hit_distance is Some
            &&& inputs.view_to_clip_matrix is Some <==> inputs.specular_hit_distance is Some
        }),
{
}

/// Without a partial texture size, DLSS works on the whole render resolution
/// of the object it evaluates; with one, on exactly that size.
pub proof fn lemma_render_subrect<T, F, M, H>(
    dlss: DlssRayReconstruction<H>,
    render_parameters: DlssRayReconstructionRenderParameters<T, F, M>,
    default_motion_vector_scale: F,
)
    ensures
        ({
            let inputs = DlssRayReconstructionEvalInputs::spec_new(
                render_parameters,
                dlss@.render_resolution,
                default_motion_vector_scale,
            );
            &&& render_parameters.partial_texture_size is None
                ==> inputs.render_subrect_dimensions == dlss@.render_resolution
            &&& render_parameters.partial_texture_size matches Some(size)
                ==> inputs.render_subrect_dimensions == size
        }),
{
}

/// Each roughness mode reaches NGX as its own NGX roughness mode, and each
/// depth mode as its own NGX depth type.
pub proof fn lemma_mode_values()
    ensures
        DlssRayReconstructionRoughnessMode::Unpacked.spec_ngx_value() == NGX_ROUGHNESS_MODE_UNPACKED,
        DlssRayReconstructionRoughnessMode::Packed.spec_ngx_value() == NGX_ROUGHNESS_MODE_PACKED,
        DlssRayReconstructionDepthMode::Linear.spec_ngx_value() == NGX_DEPTH_TYPE_LINEAR,
        DlssRayReconstructionDepthMode::Hardware.spec_ngx_value() == NGX_DEPTH_TYPE_HW,
        NGX_ROUGHNESS_MODE_UNPACKED == 0,
        NGX_ROUGHNESS_MODE_PACKED == 1,
        NGX_DEPTH_TYPE_LINEAR == 0,
        NGX_DEPTH_TYPE_HW == 1,
{
}

/// Auto exposure is asked for exactly when the NGX auto exposure bit (64) of
/// the feature flags is set; no other bit matters.
pub proof fn lemma_auto_exposure_is_one_bit(feature_create_flags: i32)
    ensures
        asks_for_auto_exposure(feature_create_flags) <==> feature_create_flags & 64 != 0,
{
}

/// Creation refuses settings exactly when their feature flags carry the auto
/// exposure bit. Every other settings give creation parameters that hand NGX
/// the denoise mode DL-unified; roughness `Unpacked` as the unpacked and
/// `Packed` as the packed roughness mode; depth `Linear` as linear and
/// `Hardware` as hardware depth; the requested output resolution as target;
/// the output resolution as render resolution under DLAA and the suggested
/// optimal one otherwise; and the quality value, feature flags and output
/// subrect choice unchanged.
pub proof fn lemma_create_params_fields(
    settings: DlssRayReconstructionSettings,
    optimal_render_resolution: [u32; 2],
)
    ensures
        DlssRayReconstructionCreateParams::spec_new(settings, optimal_render_resolution)
            == Err::<DlssRayReconstructionCreateParams, DlssError>(
            DlssError::AutoExposureUnsupported,
        ) <==> settings.feature_create_flags & 64 != 0,
        DlssRayReconstructionCreateParams::spec_new(settings, optimal_render_resolution) is Ok
            <==> settings.feature_create_flags & 64 == 0,
        DlssRayReconstructionCreateParams::spec_new(settings, optimal_render_resolution) matches Ok(
            params,
        ) ==> {
            &&& params.denoise_mode == NGX_DENOISE_MODE_DL_UNIFIED
            &&& settings.roughness_mode == DlssRayReconstructionRoughnessMode::Unpacked
                ==> params.roughness_mode == NGX_ROUGHNESS_MODE_UNPACKED
            &&& settings.roughness_mode == DlssRayReconstructionRoughnessMode::Packed
                ==> params.roughness_mode == NGX_ROUGHNESS_MODE_PACKED
            &&& settings.depth_mode == DlssRayReconstructionDepthMode::Linear
                ==> params.use_hw_depth == NGX_DEPTH_TYPE_LINEAR
            &&& settings.depth_mode == DlssRayReconstructionDepthMode::Hardware
                ==> params.use_hw_depth == NGX_DEPTH_TYPE_HW
            &&& params.target_width == settings.upscaled_resolution[0]
            &&& params.target_height == settings.upscaled_resolution[1]
            &&& settings.dlaa ==> params.width == settings.upscaled_resolution[0]
                && params.height == settings.upscaled_resolution[1]
            &&& !settings.dlaa ==> params.width == optimal_render_resolution[0]
                && params.height == optimal_render_resolution[1]
            &&& params.perf_quality_value == settings.perf_quality_value
            &&& params.feature_create_flags == settings.feature_create_flags
            &&& params.enable_output_subrects == settings.enable_output_subrects
        },
{
}

/// NGX is handed each texture of the render parameters in its own slot; the
/// jitter unchanged; a reset of 1 exactly when a reset is asked for and 0
/// otherwise; the given motion vector scale, or the default one when none is
/// given; the partial texture size as render subrect, or the whole render
/// resolution when none is given; every subrect based at the origin; and the
/// specular guide as reflection motion vectors, or as a hit distance with its
/// two camera matrices. None of these depends on another field.
pub proof fn lemma_eval_inputs_fields<T, F, M>(
    render_parameters: DlssRayReconstructionRenderParameters<T, F, M>,
    render_resolution: [u32; 2],
    default_motion_vector_scale: F,
)
    ensures
        ({
            let p = render_parameters;
            let inputs = DlssRayReconstructionEvalInputs::spec_new(
                p,
                render_resolution,
                default_motion_vector_scale,
            );
            &&& inputs.diffuse_albedo == p.diffuse_albedo
            &&& inputs.specular_albedo == p.specular_albedo
            &&& inputs.normals == p.normals
            &&& inputs.roughness == p.roughness
            &&& inputs.color == p.color
            &&& inputs.depth == p.depth
            &&& inputs.motion_vectors == p.motion_vectors
            &&& inputs.screen_space_subsurface_scattering_guide
                == p.screen_space_subsurface_scattering_guide
            &&& inputs.transparency_layer == p.transparency_overlay
            &&& inputs.color_before_transparency == p.color_before_transparency
            &&& inputs.depth_of_field_guide == p.depth_of_field_guide
            &&& inputs.responsivity_mask == p.responsivity_mask
            &&& inputs.alpha == p.alpha
            &&& inputs.output == p.dlss_output
            &&& inputs.output_alpha == p.dlss_output_alpha
            &&& inputs.jitter_offset == p.jitter_offset
            &&& p.reset ==> inputs.reset == 1
            &&& !p.reset ==> inputs.reset == 0
            &&& p.motion_vector_scale matches Some(scale) ==> inputs.motion_vector_scale == scale
            &&& p.motion_vector_scale is None ==> inputs.motion_vector_scale
                == default_motion_vector_scale
            &&& p.partial_texture_size matches Some(size) ==> inputs.render_subrect_dimensions
                == size
            &&& p.partial_texture_size is None ==> inputs.render_subrect_dimensions
                == render_resolution
            &&& inputs.subrect_base[0] == 0
            &&& inputs.subrect_base[1] == 0
            &&& p.specular_guide matches DlssRayReconstructionSpecularGuide::SpecularMotionVectors(t)
                ==> {
                &&& inputs.motion_vectors_reflections == Some(t)
                &&& inputs.specular_hit_distance is None
                &&& inputs.world_to_view_matrix is None
                &&& inputs.view_to_clip_matrix is None
            }
            &&& p.specular_guide matches DlssRayReconstructionSpecularGuide::SpecularHitDistance {
                texture_view,
                world_to_view_rows_array,
                view_to_clip_rows_array,
            } ==> {
                &&& inputs.motion_vectors_reflections is None
                &&& inputs.specular_hit_distance == Some(texture_view)
                &&& inputs.world_to_view_matrix == Some(world_to_view_rows_array)
                &&& inputs.view_to_clip_matrix == Some(view_to_clip_rows_array)
            }
        }),
{
}

} // verus!
