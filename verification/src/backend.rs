//! The platform and the renderer under one roof.

use vstd::prelude::*;
use crate::platform::{ContextWants, Platform, PlatformDescriptor, PlatformView};
use crate::renderer::{
    draw_list,
    first_unresolved,
    upload_matches,
    FramePlan,
    InvalidTargetFormat,
    RenderDescriptor,
    Renderer,
    RendererView,
    TargetFormat,
};
use crate::texture::TextureError;
use crate::window::WindowEvent;
use crate::platform::option_view;

verus! {

/// What a backend is created with.
#[derive(Clone, Copy, Debug, PartialEq, Eq, Structural)]
pub struct BackendDescriptor {
    /// What the platform is created with.
    pub platform: PlatformDescriptor,
    /// Render target format.
    pub rt_format: TargetFormat,
}

/// GUI backend: the platform that gathers input and the renderer that plans
/// frames. `R` is the renderer's bind resource.
pub struct Backend<R> {
    platform: Platform,
    renderer: Renderer<R>,
}

/// The backend as a mathematical value.
pub struct BackendView<R> {
    pub platform: PlatformView,
    pub renderer: RendererView<R>,
}

impl<R> View for Backend<R> {
    type V = BackendView<R>;

    closed spec fn view(&self) -> BackendView<R> {
        BackendView { platform: self.platform@, renderer: self.renderer@ }
    }
}

impl<R> Backend<R> {
    /// Creates the platform and the renderer.
    ///
    /// Fails unless the render target format is one that the renderer
    /// accepts.
    pub fn new(desc: BackendDescriptor) -> (r: Result<Self, InvalidTargetFormat>)
        ensures
            r is Ok <==> desc.rt_format.spec_is_accepted(),
            r matches Err(e) ==> e.format == desc.rt_format,
            r matches Ok(backend) ==> {
                &&& backend@.platform == PlatformView::new(desc.platform)
                &&& backend@.renderer == RendererView::<R>::new(desc.rt_format)
            },
    {
        match Renderer::new(desc.rt_format) {
            Err(e) => Err(e),
            Ok(renderer) => Ok(Backend { platform: Platform::new(desc.platform), renderer }),
        }
    }

    /// Hands a window event to the platform, see
    /// [`Platform::handle_event`]. Returns whether the GUI claims the event.
    pub fn handle_event(
        &mut self,
        event: &WindowEvent,
        wants: ContextWants,
        clipboard: Option<String>,
    ) -> (consumed: bool)
        ensures
            final(self)@ == (BackendView {
                platform: old(self)@.platform.handle_event(*event, option_view(clipboard)),
                ..old(self)@
            }),
            consumed == PlatformView::consumes(*event, wants),
    {
        self.platform.handle_event(event, wants, clipboard)
    }

    /// Plans the frame that draws the primitives of `desc`, see
    /// [`Renderer::render`]. The platform stays as it is.
    pub fn render(&mut self, desc: RenderDescriptor) -> (r: Result<FramePlan, TextureError>)
        ensures
            final(self)@.platform == old(self)@.platform,
            match r {
                Err(e) => {
                    &&& first_unresolved(old(self)@.renderer.textures, desc.primitives@) == Some(e)
                    &&& final(self)@ == old(self)@
                },
                Ok(plan) => {
                    &&& first_unresolved(old(self)@.renderer.textures, desc.primitives@) is None
                    &&& final(self)@.renderer == old(self)@.renderer.render(desc.primitives@)
                    &&& plan.draws@ == draw_list(desc.primitives@, desc.screen_descriptor)
                    &&& plan.uploads@.len() == desc.primitives@.len()
                    &&& forall|i: int|
                        0 <= i < desc.primitives@.len() ==> upload_matches(
                            #[trigger] plan.uploads@[i],
                            desc.primitives@,
                            i,
                            old(self)@.renderer.vertex_pool,
                            old(self)@.renderer.index_pool,
                        )
                },
            },
    {
        self.renderer.render(desc)
    }

    pub fn platform(&self) -> (p: &Platform)
        ensures
            p@ == self@.platform,
    {
        &self.platform
    }

    pub fn platform_mut(&mut self) -> (p: &mut Platform)
        ensures
            p@ == old(self)@.platform,
            final(self)@ == (BackendView { platform: final(p)@, ..old(self)@ }),
    {
        &mut self.platform
    }

    pub fn renderer(&self) -> (r: &Renderer<R>)
        ensures
            r@ == self@.renderer,
    {
        &self.renderer
    }

    pub fn renderer_mut(&mut self) -> (r: &mut Renderer<R>)
        ensures
            r@ == old(self)@.renderer,
            final(self)@ == (BackendView { renderer: final(r)@, ..old(self)@ }),
    {
        &mut self.renderer
    }
}

} // verus!
