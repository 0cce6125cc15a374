use crate::error::DlssError;
use vstd::prelude::*;

verus! {

/// Inputs and output resources needed for rendering [`crate::DlssRayReconstruction`].
///
/// `T` is how the caller refers to a texture view, `F` a pair of floats
/// (a jitter offset or a motion vector scale) and `M` a camera matrix given
/// as a rows array. Values of `F` and `M` are handed to NGX unchanged.
#[derive(Clone, Copy)]
pub struct DlssRayReconstructionRenderParameters<T, F, M> {
    /// Diffuse albedo.
    pub diffuse_albedo: T,
    /// Specular albedo.
    pub specular_albedo: T,
    /// Normals, view-space or world-space.
    ///
    /// Must have linear material roughness in the alpha channel when using
    /// [`crate::DlssRayReconstructionRoughnessMode::Packed`].
    pub normals: T,
    /// Linear material roughness.
    ///
    /// Must be provided when using [`crate::DlssRayReconstructionRoughnessMode::Unpacked`].
    pub roughness: Option<T>,
    /// Main color view of the camera.
    pub color: T,
    /// Depth buffer, in the format of [`crate::DlssRayReconstructionDepthMode`].
    pub depth: T,
    /// Motion vectors.
    pub motion_vectors: T,
    /// Specular material guide.
    pub specular_guide: DlssRayReconstructionSpecularGuide<T, M>,
    /// Screen-space subsurface scattering guide.
    pub screen_space_subsurface_scattering_guide: Option<T>,
    /// Optional transparency overlay, composited by DLSS over its output.
    pub transparency_overlay: Option<T>,
    /// Optional color of the scene before transparent objects were drawn.
    pub color_before_transparency: Option<T>,
    /// Optional depth-of-field guide.
    pub depth_of_field_guide: Option<T>,
    /// Optional per-pixel hint to make DLSS more or less responsive.
    pub responsivity_mask: Option<T>,
    /// Optional alpha texture to upscale, instead of the alpha channel of [`Self::color`].
    pub alpha: Option<T>,
    /// Optional texture DLSS outputs alpha to, instead of the alpha channel of
    /// [`Self::dlss_output`].
    pub dlss_output_alpha: Option<T>,
    /// The texture DLSS outputs to.
    pub dlss_output: T,
    /// Whether DLSS should reset temporal history, useful for camera cuts.
    pub reset: bool,
    /// Subpixel jitter that was applied to the camera.
    pub jitter_offset: F,
    /// Optionally use only a specific subrect of the input textures, rather
    /// than the whole textures.
    pub partial_texture_size: Option<[u32; 2]>,
    /// Optional scaling factor to apply to the values contained within
    /// [`Self::motion_vectors`].
    pub motion_vector_scale: Option<F>,
}

/// Guide buffer for specular material handling.
#[derive(Clone, Copy)]
pub enum DlssRayReconstructionSpecularGuide<T, M> {
    /// Motion vectors for objects reflected in specular material pixels.
    SpecularMotionVectors(T),
    /// World-space distance between primary vertex and hit point from tracing
    /// specular material pixels.
    SpecularHitDistance {
        /// Specular hit distance texture.
        texture_view: T,
        /// World-space to view-space camera matrix, as rows array.
        world_to_view_rows_array: M,
        /// View-space to clip-space camera matrix, as rows array.
        view_to_clip_rows_array: M,
    },
}

/// The state a texture is transitioned to before DLSS runs.
#[derive(Clone, Copy, Debug, PartialEq, Eq, Structural)]
pub enum DlssTextureState {
    /// Read by DLSS as a sampled resource.
    Resource,
    /// Written by DLSS as a storage texture.
    StorageReadWrite,
}

/// A texture transition recorded before DLSS runs.
#[derive(Clone, Copy, Debug)]
pub struct DlssTextureBarrier<T> {
    /// The texture view whose texture is transitioned.
    pub texture_view: T,
    /// The state it is transitioned to.
    pub state: DlssTextureState,
}

/// The transition of a texture that DLSS reads.
pub open spec fn resource_barrier<T>(texture_view: T) -> DlssTextureBarrier<T> {
    DlssTextureBarrier { texture_view, state: DlssTextureState::Resource }
}

/// The transition of a texture that DLSS writes.
pub open spec fn storage_barrier<T>(texture_view: T) -> DlssTextureBarrier<T> {
    DlssTextureBarrier { texture_view, state: DlssTextureState::StorageReadWrite }
}

/// The transitions for an optional texture: one when it is given, none otherwise.
pub open spec fn optional_barriers<T>(
    texture_view: Option<T>,
    state: DlssTextureState,
) -> Seq<DlssTextureBarrier<T>> {
    match texture_view {
        Some(t) => seq![DlssTextureBarrier { texture_view: t, state }],
        None => Seq::empty(),
    }
}

impl<T, M> DlssRayReconstructionSpecularGuide<T, M> {
    /// The texture of the specular guide, whichever kind it is.
    pub open spec fn spec_texture_view(self) -> T {
        match self {
            DlssRayReconstructionSpecularGuide::SpecularMotionVectors(t) => t,
            DlssRayReconstructionSpecularGuide::SpecularHitDistance { texture_view, .. } => {
                texture_view
            },
        }
    }
}

impl<T, F, M> DlssRayReconstructionRenderParameters<T, F, M> {
    /// The transitions of the optional textures DLSS reads after the
    /// specular guide, in the order the fields are listed.
    pub open spec fn spec_optional_input_barriers(self) -> Seq<DlssTextureBarrier<T>> {
        optional_barriers(self.screen_space_subsurface_scattering_guide, DlssTextureState::Resource)
            + optional_barriers(self.transparency_overlay, DlssTextureState::Resource)
            + optional_barriers(self.color_before_transparency, DlssTextureState::Resource)
            + optional_barriers(self.depth_of_field_guide, DlssTextureState::Resource)
            + optional_barriers(self.responsivity_mask, DlssTextureState::Resource)
            + optional_barriers(self.alpha, DlssTextureState::Resource)
    }

    /// The transitions of the textures DLSS reads, in the order the fields
    /// are listed.
    pub open spec fn spec_input_barriers(self) -> Seq<DlssTextureBarrier<T>> {
        seq![
            resource_barrier(self.diffuse_albedo),
            resource_barrier(self.specular_albedo),
            resource_barrier(self.normals),
        ] + optional_barriers(self.roughness, DlssTextureState::Resource) + seq![
            resource_barrier(self.color),
            resource_barrier(self.depth),
            resource_barrier(self.motion_vectors),
        ] + seq![resource_barrier(self.specular_guide.spec_texture_view())]
            + self.spec_optional_input_barriers()
    }

    /// The transitions of the textures DLSS writes.
    pub open spec fn spec_output_barriers(self) -> Seq<DlssTextureBarrier<T>> {
        seq![storage_barrier(self.dlss_output)] + optional_barriers(
            self.dlss_output_alpha,
            DlssTextureState::StorageReadWrite,
        )
    }

    /// Every texture transition recorded before DLSS runs, in order: the inputs
    /// DLSS reads, then the outputs it writes.
    pub open spec fn spec_barrier_list(self) -> Seq<DlssTextureBarrier<T>> {
        self.spec_input_barriers() + self.spec_output_barriers()
    }

    /// Checks the parameters before rendering. No combination is refused.
    pub fn validate(&self) -> (result: Result<(), DlssError>)
        ensures
            result is Ok,
    {
        Ok(())
    }
}

/// Appends the transition of `texture_view`, if given, to `barriers`.
fn push_optional_barrier<T: Copy>(
    barriers: &mut Vec<DlssTextureBarrier<T>>,
    texture_view: Option<T>,
    state: DlssTextureState,
)
    ensures
        final(barriers)@ == old(barriers)@ + optional_barriers(texture_view, state),
{
    match texture_view {
        Some(t) => {
            barriers.push(DlssTextureBarrier { texture_view: t, state });
        },
        None => {},
    }
    assert(barriers@ =~= old(barriers)@ + optional_barriers(texture_view, state));
}

impl<T: Copy, F, M> DlssRayReconstructionRenderParameters<T, F, M> {
    /// The texture of the specular guide, whichever kind it is.
    pub fn specular_guide_texture_view(&self) -> (texture_view: T)
        ensures
            texture_view == self.specular_guide.spec_texture_view(),
    {
        match &self.specular_guide {
            DlssRayReconstructionSpecularGuide::SpecularMotionVectors(t) => *t,
            DlssRayReconstructionSpecularGuide::SpecularHitDistance { texture_view, .. } => {
                *texture_view
            },
        }
    }

    /// Appends the transitions of the optional textures DLSS reads after the
    /// specular guide to `barriers`.
    fn push_optional_input_barriers(&self, barriers: &mut Vec<DlssTextureBarrier<T>>)
        ensures
            final(barriers)@ == old(barriers)@ + self.spec_optional_input_barriers(),
    {
        push_optional_barrier(
            barriers,
            self.screen_space_subsurface_scattering_guide,
            DlssTextureState::Resource,
        );
        push_optional_barrier(barriers, self.transparency_overlay, DlssTextureState::Resource);
        push_optional_barrier(barriers, self.color_before_transparency, DlssTextureState::Resource);
        push_optional_barrier(barriers, self.depth_of_field_guide, DlssTextureState::Resource);
        push_optional_barrier(barriers, self.responsivity_mask, DlssTextureState::Resource);
        push_optional_barrier(barriers, self.alpha, DlssTextureState::Resource);
        assert(barriers@ =~= old(barriers)@ + self.spec_optional_input_barriers());
    }

    /// The texture transitions to record before DLSS runs: every texture DLSS
    /// reads goes to the resource state, every texture it writes to the
    /// storage state.
    pub fn barrier_list(&self) -> (barriers: Vec<DlssTextureBarrier<T>>)
        ensures
            barriers@ == self.spec_barrier_list(),
    {
        let mut barriers: Vec<DlssTextureBarrier<T>> = Vec::new();
        barriers.push(DlssTextureBarrier { texture_view: self.diffuse_albedo, state: DlssTextureState::Resource });
        barriers.push(DlssTextureBarrier { texture_view: self.specular_albedo, state: DlssTextureState::Resource });
        barriers.push(DlssTextureBarrier { texture_view: self.normals, state: DlssTextureState::Resource });
        let ghost first = barriers@;
        push_optional_barrier(&mut barriers, self.roughness, DlssTextureState::Resource);
        let ghost with_roughness = barriers@;
        barriers.push(DlssTextureBarrier { texture_view: self.color, state: DlssTextureState::Resource });
        barriers.push(DlssTextureBarrier { texture_view: self.depth, state: DlssTextureState::Resource });
        barriers.push(DlssTextureBarrier { texture_view: self.motion_vectors, state: DlssTextureState::Resource });
        let ghost before_guide = barriers@;
        let guide = self.specular_guide_texture_view();
        barriers.push(DlssTextureBarrier { texture_view: guide, state: DlssTextureState::Resource });
        let ghost required_inputs = barriers@;
        self.push_optional_input_barriers(&mut barriers);
        let ghost inputs = barriers@;
        barriers.push(DlssTextureBarrier { texture_view: self.dlss_output, state: DlssTextureState::StorageReadWrite });
        let ghost with_output = barriers@;
        push_optional_barrier(&mut barriers, self.dlss_output_alpha, DlssTextureState::StorageReadWrite);
        proof {
            assert(first =~= seq![
                resource_barrier(self.diffuse_albedo),
                resource_barrier(self.specular_albedo),
                resource_barrier(self.normals),
            ]);
            assert(before_guide =~= with_roughness + seq![
                resource_barrier(self.color),
                resource_barrier(self.depth),
                resource_barrier(self.motion_vectors),
            ]);
            assert(required_inputs =~= before_guide + seq![
                resource_barrier(self.specular_guide.spec_texture_view()),
            ]);
            assert(inputs =~= required_inputs + self.spec_optional_input_barriers());
            assert(with_output =~= inputs + seq![storage_barrier(self.dlss_output)]);
            assert(inputs =~= self.spec_input_barriers());
            assert(barriers@ =~= self.spec_barrier_list());
        }
        barriers
    }
}

} // verus!
