//! A texture that the GUI is rendered to and that can itself be shown in a
//! GUI.

use vstd::prelude::*;
use crate::renderer::{Renderer, RendererView};
use crate::texture::{TextureError, TextureId};

verus! {

/// A render target that is registered with a renderer as an external
/// texture. `T` is the GPU texture and `V` the view of it that is rendered
/// to.
pub struct RenderTarget<T, V> {
    texture: T,
    view: V,
    texture_id: TextureId,
}

impl<T, V> RenderTarget<T, V> {
    /// The id under which meshes refer to the target's texture.
    pub closed spec fn spec_texture_id(&self) -> TextureId {
        self.texture_id
    }

    /// The GPU texture.
    pub closed spec fn spec_texture(&self) -> T {
        self.texture
    }

    /// The view that is rendered to.
    pub closed spec fn spec_view(&self) -> V {
        self.view
    }

    /// Makes a render target of a texture and its view, and registers
    /// `binding`, the bind resource of the texture, with the renderer.
    pub fn new<R>(renderer: &mut Renderer<R>, texture: T, view: V, binding: R) -> (target: Self)
        ensures
            target.spec_texture() == texture,
            target.spec_view() == view,
            target.spec_texture_id() == old(renderer)@.textures.next_external(),
            final(renderer)@ == (RendererView {
                textures: old(renderer)@.textures.register(binding),
                ..old(renderer)@
            }),
            old(renderer)@.textures.fits() && final(renderer)@.textures.fits(),
            final(renderer)@.textures.resolve(target.spec_texture_id()) == Ok::<R, TextureError>(
                binding,
            ),
            forall|other: TextureId|
                other != target.spec_texture_id() ==> #[trigger] final(renderer)@.textures.resolve(other) == old(renderer)@.textures.resolve(other),
    {
        let texture_id = renderer.register_texture(binding);
        RenderTarget { texture, view, texture_id }
    }

    #[verifier::when_used_as_spec(spec_texture_id)]
    pub fn texture_id(&self) -> (id: TextureId)
        ensures
            id == self.spec_texture_id(),
    {
        self.texture_id
    }

    pub fn texture(&self) -> (texture: &T)
        ensures
            *texture == self.spec_texture(),
    {
        &self.texture
    }

    pub fn view(&self) -> (view: &V)
        ensures
            *view == self.spec_view(),
    {
        &self.view
    }
}

} // verus!
