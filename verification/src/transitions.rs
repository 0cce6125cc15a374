use crate::render_parameters::{DlssTextureBarrier, DlssTextureState};
use vstd::prelude::*;
use wgpu::{Texture, TextureView};

verus! {

/// A wgpu texture view, carried through as an opaque value.
#[verifier::external_type_specification]
#[verifier::external_body]
pub struct ExTextureView(TextureView);

/// A wgpu texture, carried through as an opaque value.
#[verifier::external_type_specification]
#[verifier::external_body]
pub struct ExTexture(Texture);

/// The texture a wgpu texture view refers to, as `wgpu::TextureView::texture`
/// returns it.
pub uninterp spec fn texture_of(texture_view: TextureView) -> Texture;

/// Calls `wgpu::TextureView::texture`, which returns the texture the view was
/// created from (a field of the view), so its result depends on the view
/// alone.
#[verifier::external_body]
fn view_texture<'a>(texture_view: &'a TextureView) -> (texture: &'a Texture)
    ensures
        *texture == texture_of(*texture_view),
{
    texture_view.texture()
}

/// The wgpu texture transitions for `barriers`, in the same order: each names
/// the texture of its barrier's view and moves it to that barrier's state.
pub fn texture_transitions<'a>(barriers: &[DlssTextureBarrier<&'a TextureView>]) -> (transitions:
    Vec<(&'a Texture, DlssTextureState)>)
    ensures
        transitions.len() == barriers@.len(),
        forall|i: int|
            0 <= i < barriers@.len() ==> {
                &&& *(#[trigger] transitions@[i]).0 == texture_of(*barriers@[i].texture_view)
                &&& transitions@[i].1 == barriers@[i].state
            },
{
    let mut transitions: Vec<(&'a Texture, DlssTextureState)> = Vec::new();
    let mut i: usize = 0;
    while i < barriers.len()
        invariant
            i <= barriers@.len(),
            transitions.len() == i,
            forall|j: int|
                0 <= j < i ==> {
                    &&& *(#[trigger] transitions@[j]).0 == texture_of(*barriers@[j].texture_view)
                    &&& transitions@[j].1 == barriers@[j].state
                },
        decreases barriers@.len() - i,
    {
        let barrier = &barriers[i];
        transitions.push((view_texture(barrier.texture_view), barrier.state));
        i = i + 1;
    }
    transitions
}

} // verus!
