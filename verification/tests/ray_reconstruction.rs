use dlss_wgpu::{
    texture_transitions, DlssError, DlssRayReconstruction, DlssRayReconstructionCreateParams, DlssRayReconstructionDepthMode,
    DlssRayReconstructionEvalInputs, DlssRayReconstructionRenderParameters,
    DlssRayReconstructionRoughnessMode, DlssRayReconstructionSettings,
    DlssRayReconstructionSpecularGuide, DlssTextureBarrier, DlssTextureState,
};

fn settings(dlaa: bool) -> DlssRayReconstructionSettings {
    DlssRayReconstructionSettings {
        upscaled_resolution: [3840, 2160],
        perf_quality_value: 2,
        dlaa,
        feature_create_flags: 0b101,
        enable_output_subrects: true,
        roughness_mode: DlssRayReconstructionRoughnessMode::Unpacked,
        depth_mode: DlssRayReconstructionDepthMode::Hardware,
    }
}

fn minimal_parameters() -> DlssRayReconstructionRenderParameters<&'static str, [f32; 2], [f32; 16]> {
    DlssRayReconstructionRenderParameters {
        diffuse_albedo: "diffuse",
        specular_albedo: "specular",
        normals: "normals",
        roughness: None,
        color: "color",
        depth: "depth",
        motion_vectors: "motion",
        specular_guide: DlssRayReconstructionSpecularGuide::SpecularMotionVectors("reflections"),
        screen_space_subsurface_scattering_guide: None,
        transparency_overlay: None,
        color_before_transparency: None,
        depth_of_field_guide: None,
        responsivity_mask: None,
        alpha: None,
        dlss_output_alpha: None,
        dlss_output: "output",
        reset: false,
        jitter_offset: [0.25, -0.25],
        partial_texture_size: None,
        motion_vector_scale: None,
    }
}

fn full_parameters() -> DlssRayReconstructionRenderParameters<&'static str, [f32; 2], [f32; 16]> {
    let mut world_to_view = [0.0f32; 16];
    world_to_view[0] = 1.0;
    let mut view_to_clip = [0.0f32; 16];
    view_to_clip[5] = 2.0;
    DlssRayReconstructionRenderParameters {
        roughness: Some("roughness"),
        specular_guide: DlssRayReconstructionSpecularGuide::SpecularHitDistance {
            texture_view: "hit_distance",
            world_to_view_rows_array: world_to_view,
            view_to_clip_rows_array: view_to_clip,
        },
        screen_space_subsurface_scattering_guide: Some("sss"),
        transparency_overlay: Some("transparency"),
        color_before_transparency: Some("before_transparency"),
        depth_of_field_guide: Some("depth_of_field"),
        responsivity_mask: Some("responsivity"),
        alpha: Some("alpha"),
        dlss_output_alpha: Some("output_alpha"),
        reset: true,
        partial_texture_size: Some([640, 360]),
        motion_vector_scale: Some([2.0, 3.0]),
        ..minimal_parameters()
    }
}

fn textures_and_states(
    parameters: &DlssRayReconstructionRenderParameters<&'static str, [f32; 2], [f32; 16]>,
) -> Vec<(&'static str, DlssTextureState)> {
    parameters.barrier_list().into_iter().map(|b| (b.texture_view, b.state)).collect()
}

#[test]
fn mode_values_match_ngx() {
    assert_eq!(DlssRayReconstructionRoughnessMode::Unpacked.ngx_value(), 0);
    assert_eq!(DlssRayReconstructionRoughnessMode::Packed.ngx_value(), 1);
    assert_eq!(DlssRayReconstructionDepthMode::Linear.ngx_value(), 0);
    assert_eq!(DlssRayReconstructionDepthMode::Hardware.ngx_value(), 1);
}

#[test]
fn create_params_use_optimal_resolution_without_dlaa() {
    let params = DlssRayReconstructionCreateParams::new(&settings(false), [1920, 1080]).unwrap();
    assert_eq!(params.denoise_mode, 1);
    assert_eq!(params.roughness_mode, 0);
    assert_eq!(params.use_hw_depth, 1);
    assert_eq!((params.width, params.height), (1920, 1080));
    assert_eq!((params.target_width, params.target_height), (3840, 2160));
    assert_eq!(params.perf_quality_value, 2);
    assert_eq!(params.feature_create_flags, 0b101);
    assert!(params.enable_output_subrects);
}

#[test]
fn create_params_render_at_output_resolution_with_dlaa() {
    let params = DlssRayReconstructionCreateParams::new(&settings(true), [1920, 1080]).unwrap();
    assert_eq!((params.width, params.height), (3840, 2160));
    assert_eq!((params.target_width, params.target_height), (3840, 2160));
}

#[test]
fn new_records_resolutions_and_feature() {
    let params = DlssRayReconstructionCreateParams::new(&settings(false), [1280, 720]).unwrap();
    let dlss = DlssRayReconstruction::new(&params, 42u64).unwrap();
    assert_eq!(dlss.upscaled_resolution(), [3840, 2160]);
    assert_eq!(dlss.render_resolution(), [1280, 720]);
    assert_eq!(*dlss.feature(), 42);
}

#[test]
fn dlaa_object_renders_at_upscaled_resolution() {
    let params = DlssRayReconstructionCreateParams::new(&settings(true), [1280, 720]).unwrap();
    let dlss = DlssRayReconstruction::new(&params, ()).unwrap();
    assert_eq!(dlss.render_resolution(), dlss.upscaled_resolution());
}

#[test]
fn validate_accepts_parameters() {
    assert!(minimal_parameters().validate().is_ok());
    assert!(full_parameters().validate().is_ok());
}

#[test]
fn barrier_list_of_required_textures() {
    assert_eq!(
        textures_and_states(&minimal_parameters()),
        vec![
            ("diffuse", DlssTextureState::Resource),
            ("specular", DlssTextureState::Resource),
            ("normals", DlssTextureState::Resource),
            ("color", DlssTextureState::Resource),
            ("depth", DlssTextureState::Resource),
            ("motion", DlssTextureState::Resource),
            ("reflections", DlssTextureState::Resource),
            ("output", DlssTextureState::StorageReadWrite),
        ]
    );
}

#[test]
fn barrier_list_of_all_textures() {
    assert_eq!(
        textures_and_states(&full_parameters()),
        vec![
            ("diffuse", DlssTextureState::Resource),
            ("specular", DlssTextureState::Resource),
            ("normals", DlssTextureState::Resource),
            ("roughness", DlssTextureState::Resource),
            ("color", DlssTextureState::Resource),
            ("depth", DlssTextureState::Resource),
            ("motion", DlssTextureState::Resource),
            ("hit_distance", DlssTextureState::Resource),
            ("sss", DlssTextureState::Resource),
            ("transparency", DlssTextureState::Resource),
            ("before_transparency", DlssTextureState::Resource),
            ("depth_of_field", DlssTextureState::Resource),
            ("responsivity", DlssTextureState::Resource),
            ("alpha", DlssTextureState::Resource),
            ("output", DlssTextureState::StorageReadWrite),
            ("output_alpha", DlssTextureState::StorageReadWrite),
        ]
    );
}

#[test]
fn barrier_count_grows_with_each_optional_texture() {
    let mut parameters = minimal_parameters();
    assert_eq!(parameters.barrier_list().len(), 8);
    parameters.depth_of_field_guide = Some("depth_of_field");
    assert_eq!(parameters.barrier_list().len(), 9);
    parameters.dlss_output_alpha = Some("output_alpha");
    assert_eq!(parameters.barrier_list().len(), 10);
    assert_eq!(full_parameters().barrier_list().len(), 16);
}

#[test]
fn specular_guide_texture_of_each_kind() {
    assert_eq!(minimal_parameters().specular_guide_texture_view(), "reflections");
    assert_eq!(full_parameters().specular_guide_texture_view(), "hit_distance");
}

#[test]
fn eval_inputs_with_motion_vector_guide() {
    let inputs = DlssRayReconstructionEvalInputs::new(&minimal_parameters(), [1280, 720], [1.0, 1.0]);
    assert_eq!(inputs.diffuse_albedo, "diffuse");
    assert_eq!(inputs.specular_albedo, "specular");
    assert_eq!(inputs.normals, "normals");
    assert_eq!(inputs.roughness, None);
    assert_eq!(inputs.color, "color");
    assert_eq!(inputs.depth, "depth");
    assert_eq!(inputs.motion_vectors, "motion");
    assert_eq!(inputs.output, "output");
    assert_eq!(inputs.output_alpha, None);
    assert_eq!(inputs.motion_vectors_reflections, Some("reflections"));
    assert_eq!(inputs.specular_hit_distance, None);
    assert_eq!(inputs.transparency_layer, None);
    assert_eq!(inputs.color_before_transparency, None);
    assert_eq!(inputs.depth_of_field_guide, None);
    assert_eq!(inputs.subrect_base, [0, 0]);
    assert!(inputs.world_to_view_matrix.is_none());
    assert!(inputs.view_to_clip_matrix.is_none());
    assert_eq!(inputs.render_subrect_dimensions, [1280, 720]);
    assert_eq!(inputs.reset, 0);
    assert_eq!(inputs.jitter_offset, [0.25, -0.25]);
    assert_eq!(inputs.motion_vector_scale, [1.0, 1.0]);
}

#[test]
fn eval_inputs_with_hit_distance_guide() {
    let parameters = full_parameters();
    let inputs = DlssRayReconstructionEvalInputs::new(&parameters, [1280, 720], [1.0, 1.0]);
    assert_eq!(inputs.roughness, Some("roughness"));
    assert_eq!(inputs.alpha, Some("alpha"));
    assert_eq!(inputs.output_alpha, Some("output_alpha"));
    assert_eq!(inputs.responsivity_mask, Some("responsivity"));
    assert_eq!(inputs.transparency_layer, Some("transparency"));
    assert_eq!(inputs.color_before_transparency, Some("before_transparency"));
    assert_eq!(inputs.depth_of_field_guide, Some("depth_of_field"));
    assert_eq!(inputs.subrect_base, [0, 0]);
    assert_eq!(inputs.screen_space_subsurface_scattering_guide, Some("sss"));
    assert_eq!(inputs.motion_vectors_reflections, None);
    assert_eq!(inputs.specular_hit_distance, Some("hit_distance"));
    assert_eq!(inputs.world_to_view_matrix.unwrap()[0], 1.0);
    assert_eq!(inputs.view_to_clip_matrix.unwrap()[5], 2.0);
    assert_eq!(inputs.render_subrect_dimensions, [640, 360]);
    assert_eq!(inputs.reset, 1);
    assert_eq!(inputs.motion_vector_scale, [2.0, 3.0]);
}

#[test]
fn render_plans_from_render_resolution() {
    let params = DlssRayReconstructionCreateParams::new(&settings(false), [1280, 720]).unwrap();
    let mut dlss = DlssRayReconstruction::new(&params, ()).unwrap();
    let plan = dlss.render(minimal_parameters(), [1.0, 1.0]).unwrap();
    assert_eq!(plan.eval_inputs.render_subrect_dimensions, [1280, 720]);
    assert_eq!(plan.barriers.len(), 8);
    assert_eq!(dlss.render_resolution(), [1280, 720]);
    assert_eq!(dlss.upscaled_resolution(), [3840, 2160]);

    let plan = dlss.render(full_parameters(), [1.0, 1.0]).unwrap();
    assert_eq!(plan.eval_inputs.render_subrect_dimensions, [640, 360]);
    assert_eq!(plan.barriers.len(), 16);
}

#[test]
fn barriers_cover_exactly_the_eval_inputs() {
    for parameters in [minimal_parameters(), full_parameters()] {
        let inputs = DlssRayReconstructionEvalInputs::new(&parameters, [1280, 720], [1.0, 1.0]);
        let mut read = vec![inputs.diffuse_albedo, inputs.specular_albedo, inputs.normals];
        read.extend(inputs.roughness);
        read.extend([inputs.color, inputs.depth, inputs.motion_vectors]);
        read.extend(inputs.specular_hit_distance);
        read.extend(inputs.motion_vectors_reflections);
        read.extend(inputs.screen_space_subsurface_scattering_guide);
        read.extend(inputs.transparency_layer);
        read.extend(inputs.color_before_transparency);
        read.extend(inputs.depth_of_field_guide);
        read.extend(inputs.responsivity_mask);
        read.extend(inputs.alpha);
        let mut written = vec![inputs.output];
        written.extend(inputs.output_alpha);
        let mut expected: Vec<(&str, DlssTextureState)> =
            read.into_iter().map(|t| (t, DlssTextureState::Resource)).collect();
        expected.extend(written.into_iter().map(|t| (t, DlssTextureState::StorageReadWrite)));
        assert_eq!(textures_and_states(&parameters), expected);
    }
}

#[test]
fn auto_exposure_is_refused_at_creation() {
    let mut auto_exposure = settings(false);
    auto_exposure.feature_create_flags = 0b101 | 64;
    assert_eq!(
        DlssRayReconstructionCreateParams::new(&auto_exposure, [1920, 1080]).unwrap_err(),
        DlssError::AutoExposureUnsupported
    );
    auto_exposure.feature_create_flags = 64;
    assert!(DlssRayReconstructionCreateParams::new(&auto_exposure, [1920, 1080]).is_err());
}

#[test]
fn object_refuses_auto_exposure_parameters() {
    let mut params = DlssRayReconstructionCreateParams::new(&settings(false), [1280, 720]).unwrap();
    params.feature_create_flags |= 64;
    assert_eq!(
        DlssRayReconstruction::new(&params, ()).err(),
        Some(DlssError::AutoExposureUnsupported)
    );
}

#[test]
fn other_flags_are_accepted_at_creation() {
    let mut other = settings(false);
    other.feature_create_flags = 1 | 2 | 4 | 8 | 32 | 128;
    let params = DlssRayReconstructionCreateParams::new(&other, [1920, 1080]).unwrap();
    assert_eq!(params.feature_create_flags, 1 | 2 | 4 | 8 | 32 | 128);
    assert!(DlssRayReconstruction::new(&params, ()).is_ok());
}

#[test]
fn texture_transitions_name_each_view_texture() {
    let (device, _queue) = wgpu::Device::noop(&wgpu::DeviceDescriptor::default());
    let make_texture = |width: u32| {
        device.create_texture(&wgpu::TextureDescriptor {
            label: None,
            size: wgpu::Extent3d { width, height: 4, depth_or_array_layers: 1 },
            mip_level_count: 1,
            sample_count: 1,
            dimension: wgpu::TextureDimension::D2,
            format: wgpu::TextureFormat::Rgba8Unorm,
            usage: wgpu::TextureUsages::TEXTURE_BINDING | wgpu::TextureUsages::STORAGE_BINDING,
            view_formats: &[],
        })
    };
    let input = make_texture(8);
    let output = make_texture(16);
    let input_view = input.create_view(&wgpu::TextureViewDescriptor::default());
    let output_view = output.create_view(&wgpu::TextureViewDescriptor::default());
    let barriers = [
        DlssTextureBarrier { texture_view: &input_view, state: DlssTextureState::Resource },
        DlssTextureBarrier { texture_view: &output_view, state: DlssTextureState::StorageReadWrite },
    ];
    let transitions = texture_transitions(&barriers);
    assert_eq!(transitions.len(), 2);
    assert!(*transitions[0].0 == input);
    assert_eq!(transitions[0].0.width(), 8);
    assert_eq!(transitions[0].1, DlssTextureState::Resource);
    assert!(*transitions[1].0 == output);
    assert_eq!(transitions[1].0.width(), 16);
    assert_eq!(transitions[1].1, DlssTextureState::StorageReadWrite);
}

#[test]
fn settings_validate_refuses_only_auto_exposure() {
    assert!(settings(false).validate().is_ok());
    let mut auto_exposure = settings(true);
    auto_exposure.feature_create_flags = 64;
    assert_eq!(auto_exposure.validate(), Err(DlssError::AutoExposureUnsupported));
}
