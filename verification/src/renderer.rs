//! The renderer's state and the plan of a frame.
//!
//! The renderer owns the texture table and the two buffer pools. For each
//! frame it works out what has to be uploaded and which draw calls have to be
//! issued, in which order and with which scissor rectangle. The embedding
//! code records the plan into a render pass.

use vstd::prelude::*;
use crate::buffer_pool::{BufferPool, PoolView, UploadAction};
use crate::mesh::{
    mesh_index_data,
    mesh_vertex_data,
    vertex_data,
    words_data,
    ClippedPrimitive,
};
use crate::pixels::{flatten_colors, rgba_bytes, Color32};
use crate::screen::{
    lemma_scissor_none_iff_beyond_far_edge,
    lemma_scissor_within_target,
    scissor_of,
    ScissorRect,
    ScreenDescriptor,
};
use crate::texture::{
    image_fits,
    TextureDelta,
    TextureError,
    TextureId,
    TextureTable,
    TextureTableView,
};

verus! {

/// The pixel format of a render target.
#[derive(Clone, Copy, Debug, PartialEq, Eq, Structural)]
pub enum TargetFormat {
    /// Red, green, blue, alpha; 8 bits each; linear.
    Rgba8Unorm,
    /// Red, green, blue, alpha; 8 bits each; sRGB-encoded colour.
    Rgba8UnormSrgb,
    /// Blue, green, red, alpha; 8 bits each; linear.
    Bgra8Unorm,
    /// Blue, green, red, alpha; 8 bits each; sRGB-encoded colour.
    Bgra8UnormSrgb,
    /// Any other format.
    Other,
}

impl TargetFormat {
    /// The renderer draws onto the two sRGB-encoded 8-bit formats only.
    pub open spec fn spec_is_accepted(self) -> bool {
        self is Rgba8UnormSrgb || self is Bgra8UnormSrgb
    }

    #[verifier::when_used_as_spec(spec_is_accepted)]
    pub fn is_accepted(self) -> (b: bool)
        ensures
            b == self.spec_is_accepted(),
    {
        match self {
            TargetFormat::Rgba8UnormSrgb => true,
            TargetFormat::Bgra8UnormSrgb => true,
            _ => false,
        }
    }
}

/// A renderer was asked for with a target format that it cannot draw onto.
#[derive(Clone, Copy, Debug, PartialEq, Eq, Structural)]
pub struct InvalidTargetFormat {
    /// The format that was asked for.
    pub format: TargetFormat,
}

/// An image that was handed in for an external texture and waits for its
/// upload, kept as it was handed in.
pub struct PendingTexture {
    /// The external id that was set aside for the texture.
    pub id: TextureId,
    /// The width that the image was said to have, in pixels.
    pub width: usize,
    /// The height that the image was said to have, in pixels.
    pub height: usize,
    /// The channels of the colours that were handed in, four bytes for each.
    pub pixels: Vec<u8>,
}

impl PendingTexture {
    /// The whole-image delta, of version 0, that uploads the image.
    ///
    /// Returns `None` where the image cannot be uploaded, see
    /// [`image_fits`]: it has no pixel, it is too wide or too high, or it was
    /// not handed in with one colour for each pixel.
    pub fn into_delta(self) -> (delta: Option<TextureDelta>)
        ensures
            delta is Some <==> image_fits(
                self.width as int,
                self.height as int,
                self.pixels@.len() as int,
            ),
            delta matches Some(d) ==> {
                &&& d.spec_version() == 0
                &&& d.spec_pos() is None
                &&& d.spec_width() == self.width
                &&& d.spec_height() == self.height
                &&& d.spec_pixels() == self.pixels@
            },
    {
        TextureDelta::full(0, self.width, self.height, self.pixels)
    }
}

/// What a frame is planned from.
#[derive(Clone, Copy, Debug)]
pub struct RenderDescriptor<'a> {
    /// The primitives to draw, first to last.
    pub primitives: &'a Vec<ClippedPrimitive>,
    /// The size of the target.
    pub screen_descriptor: ScreenDescriptor,
}

/// One indexed draw call.
#[derive(Clone, Copy, Debug, PartialEq, Eq, Structural)]
pub struct DrawCommand {
    /// The position of the mesh among the frame's primitives, which is also
    /// the slot of its vertex buffer and of its index buffer.
    pub primitive: usize,
    /// The texture to bind.
    pub texture: TextureId,
    /// The scissor rectangle to set.
    pub scissor: ScissorRect,
    /// The number of indices to draw, starting with the first.
    pub index_count: u32,
}

/// What has to be uploaded for one mesh.
pub struct PrimitiveUpload {
    /// Where the vertex bytes go.
    pub vertex: UploadAction,
    /// The bytes of the vertices.
    pub vertex_data: Vec<u8>,
    /// Where the index bytes go.
    pub index: UploadAction,
    /// The bytes of the indices.
    pub index_data: Vec<u8>,
}

/// What has to be done on the GPU for one frame: first every upload, in
/// order, and after that every draw call, in order, inside one render pass.
pub struct FramePlan {
    /// One upload for each primitive of the frame, in the order of the
    /// primitives.
    pub uploads: Vec<PrimitiveUpload>,
    /// The draw calls, in the order of the primitives that they draw.
    pub draws: Vec<DrawCommand>,
}

/// The draw call for the primitive at position `i`, or `None` where the
/// primitive has no scissor rectangle and is skipped. The index count is the
/// number of the mesh's indices, cut to 32 bits.
pub open spec fn draw_of(primitives: Seq<ClippedPrimitive>, i: int, screen: ScreenDescriptor)
    -> Option<DrawCommand> {
    match scissor_of(primitives[i].clip_rect, screen) {
        Some(scissor) => Some(
            DrawCommand {
                primitive: i as usize,
                texture: primitives[i].mesh.texture_id,
                scissor,
                index_count: primitives[i].mesh.indices.len() as u32,
            },
        ),
        None => None,
    }
}

/// The draw calls of a frame: one for each primitive that is not skipped, in
/// the order of the primitives.
pub open spec fn draw_list(primitives: Seq<ClippedPrimitive>, screen: ScreenDescriptor) -> Seq<
    DrawCommand,
>
    decreases primitives.len(),
{
    if primitives.len() == 0 {
        Seq::empty()
    } else {
        let head = draw_list(primitives.drop_last(), screen);
        match draw_of(primitives, primitives.len() - 1, screen) {
            Some(command) => head.push(command),
            None => head,
        }
    }
}

/// The error of the first primitive whose texture does not resolve, or
/// `None` where the texture of every primitive resolves.
pub open spec fn first_unresolved<R>(
    table: TextureTableView<R>,
    primitives: Seq<ClippedPrimitive>,
) -> Option<TextureError>
    decreases primitives.len(),
{
    if primitives.len() == 0 {
        None
    } else {
        match first_unresolved(table, primitives.drop_last()) {
            Some(e) => Some(e),
            None => match table.resolve(primitives.last().mesh.texture_id) {
                Ok(_) => None,
                Err(e) => Some(e),
            },
        }
    }
}

/// The sizes in bytes of the vertex data of the primitives, in order.
pub open spec fn vertex_sizes(primitives: Seq<ClippedPrimitive>) -> Seq<u64> {
    Seq::new(primitives.len(), |i: int| (20 * primitives[i].mesh.vertices@.len()) as u64)
}

/// The sizes in bytes of the index data of the primitives, in order.
pub open spec fn index_sizes(primitives: Seq<ClippedPrimitive>) -> Seq<u64> {
    Seq::new(primitives.len(), |i: int| (4 * primitives[i].mesh.indices@.len()) as u64)
}

/// Whether `upload` is the upload for the primitive at position `i` of a
/// frame that found the pools as `vertex_pool` and `index_pool`.
///
/// The data are the bytes of the mesh's vertices and indices, in the byte
/// order of the machine. Each goes into slot `i` of its pool, which by then
/// has taken the data of the primitives before it; a buffer is created for
/// the slot only where that pool says so.
pub open spec fn upload_matches(
    upload: PrimitiveUpload,
    primitives: Seq<ClippedPrimitive>,
    i: int,
    vertex_pool: PoolView,
    index_pool: PoolView,
) -> bool {
    let mesh = primitives[i].mesh;
    let before = primitives.take(i);
    &&& (upload.vertex_data@ == vertex_data(mesh.vertices@, false) || upload.vertex_data@
        == vertex_data(mesh.vertices@, true))
    &&& (upload.index_data@ == words_data(mesh.indices@, false) || upload.index_data@
        == words_data(mesh.indices@, true))
    &&& upload.vertex == vertex_pool.clear().upload_all(vertex_sizes(before)).action(
        vertex_sizes(primitives)[i],
    )
    &&& upload.index == index_pool.clear().upload_all(index_sizes(before)).action(
        index_sizes(primitives)[i],
    )
    &&& upload.vertex.slot == i
    &&& upload.index.slot == i
}

/// The renderer's state.
pub struct Renderer<R> {
    format: TargetFormat,
    textures: TextureTable<R>,
    vertex_pool: BufferPool,
    index_pool: BufferPool,
    pending: Vec<PendingTexture>,
}

/// The renderer's state as a mathematical value.
pub struct RendererView<R> {
    /// The format of the target that the renderer draws onto.
    pub format: TargetFormat,
    /// The textures that meshes can refer to.
    pub textures: TextureTableView<R>,
    /// The pool of vertex buffers, one slot for each mesh of the frame.
    pub vertex_pool: PoolView,
    /// The pool of index buffers, one slot for each mesh of the frame.
    pub index_pool: PoolView,
    /// The images that wait for their upload, oldest first.
    pub pending: Seq<PendingTexture>,
}

impl<R> RendererView<R> {
    /// The state of a new renderer: no texture, no buffer, no image that
    /// waits.
    pub open spec fn new(format: TargetFormat) -> RendererView<R> {
        RendererView {
            format,
            textures: TextureTableView::<R>::empty(),
            vertex_pool: PoolView::empty(),
            index_pool: PoolView::empty(),
            pending: Seq::empty(),
        }
    }

    /// The state after a frame with the given primitives was planned: both
    /// pools were cleared and took the data of each primitive, in order.
    /// Textures and waiting images are as before.
    pub open spec fn render(self, primitives: Seq<ClippedPrimitive>) -> RendererView<R> {
        RendererView {
            vertex_pool: self.vertex_pool.clear().upload_all(vertex_sizes(primitives)),
            index_pool: self.index_pool.clear().upload_all(index_sizes(primitives)),
            ..self
        }
    }
}

impl<R> View for Renderer<R> {
    type V = RendererView<R>;

    closed spec fn view(&self) -> RendererView<R> {
        RendererView {
            format: self.format,
            textures: self.textures@,
            vertex_pool: self.vertex_pool@,
            index_pool: self.index_pool@,
            pending: self.pending@,
        }
    }
}

impl<R> Renderer<R> {
    /// Creates a renderer for a target of the given format.
    ///
    /// Fails, before anything else is done, unless the format is one of the
    /// two accepted sRGB formats. A new renderer has no texture and no
    /// buffer.
    pub fn new(output_format: TargetFormat) -> (r: Result<Self, InvalidTargetFormat>)
        ensures
            r is Ok <==> output_format.spec_is_accepted(),
            r matches Err(e) ==> e.format == output_format,
            r matches Ok(renderer) ==> renderer@ == RendererView::<R>::new(output_format),
    {
        if !output_format.is_accepted() {
            return Err(InvalidTargetFormat { format: output_format });
        }
        Ok(
            Renderer {
                format: output_format,
                textures: TextureTable::new(),
                vertex_pool: BufferPool::new(),
                index_pool: BufferPool::new(),
                pending: Vec::new(),
            },
        )
    }

    /// The format of the target that the renderer draws onto.
    pub fn format(&self) -> (f: TargetFormat)
        ensures
            f == self@.format,
    {
        self.format
    }

    /// The texture table, to resolve ids and to plan texture updates with.
    pub fn textures(&self) -> (t: &TextureTable<R>)
        ensures
            t@ == self@.textures,
            self@.textures.fits(),
    {
        proof {
            self.textures.lemma_fits();
        }
        &self.textures
    }

    /// The pool of vertex buffers.
    pub fn vertex_pool(&self) -> (p: &BufferPool)
        ensures
            p@ == self@.vertex_pool,
    {
        &self.vertex_pool
    }

    /// The pool of index buffers.
    pub fn index_pool(&self) -> (p: &BufferPool)
        ensures
            p@ == self@.index_pool,
    {
        &self.index_pool
    }

    /// Checks that the texture of every primitive resolves, and returns the
    /// error of the first one that does not.
    fn check_textures(&self, primitives: &Vec<ClippedPrimitive>) -> (r: Result<(), TextureError>)
        ensures
            match r {
                Ok(_) => first_unresolved(self@.textures, primitives@) is None,
                Err(e) => first_unresolved(self@.textures, primitives@) == Some(e),
            },
    {
        let mut i: usize = 0;
        while i < primitives.len()
            invariant
                i <= primitives.len(),
                first_unresolved(self@.textures, primitives@.take(i as int)) is None,
            decreases primitives.len() - i,
        {
            proof {
                let next = primitives@.take(i + 1);
                assert(next.drop_last() =~= primitives@.take(i as int));
                assert(next.last() == primitives@[i as int]);
            }
            match self.textures.resolve(primitives[i].mesh.texture_id) {
                Ok(_) => {},
                Err(e) => {
                    proof {
                        lemma_first_unresolved_prefix(self@.textures, primitives@, i + 1);
                    }
                    return Err(e);
                },
            }
            i = i + 1;
        }
        assert(primitives@.take(primitives.len() as int) =~= primitives@);
        Ok(())
    }

    /// Plans the frame that draws the primitives of `desc`, in their order,
    /// onto a target of the size that its screen descriptor gives.
    ///
    /// The texture of every primitive has to resolve, whether the primitive
    /// is drawn or skipped: the frame fails with the error of the first one
    /// that does not, and the renderer stays as it was. Otherwise both pools
    /// are cleared, the vertex and index bytes of each primitive take the
    /// next slot of their pool, and a draw call is planned for each primitive
    /// that has a scissor rectangle on the target.
    pub fn render(&mut self, desc: RenderDescriptor) -> (r: Result<FramePlan, TextureError>)
        ensures
            match r {
                Err(e) => {
                    &&& first_unresolved(old(self)@.textures, desc.primitives@) == Some(e)
                    &&& final(self)@ == old(self)@
                },
                Ok(plan) => {
                    &&& first_unresolved(old(self)@.textures, desc.primitives@) is None
                    &&& final(self)@ == old(self)@.render(desc.primitives@)
                    &&& plan.draws@ == draw_list(desc.primitives@, desc.screen_descriptor)
                    &&& plan.uploads@.len() == desc.primitives@.len()
                    &&& forall|i: int|
                        0 <= i < desc.primitives@.len() ==> upload_matches(
                            #[trigger] plan.uploads@[i],
                            desc.primitives@,
                            i,
                            old(self)@.vertex_pool,
                            old(self)@.index_pool,
                        )
                },
            },
    {
        let primitives = desc.primitives;
        let screen = &desc.screen_descriptor;
        match self.check_textures(primitives) {
            Ok(_) => {},
            Err(e) => {
                return Err(e);
            },
        }
        let ghost start = self@;
        self.vertex_pool.clear();
        self.index_pool.clear();
        let mut uploads: Vec<PrimitiveUpload> = Vec::new();
        let mut i: usize = 0;
        while i < primitives.len()
            invariant
                i <= primitives.len(),
                uploads@.len() == i,
                self@ == (RendererView {
                    vertex_pool: start.vertex_pool.clear().upload_all(
                        vertex_sizes(primitives@.take(i as int)),
                    ),
                    index_pool: start.index_pool.clear().upload_all(
                        index_sizes(primitives@.take(i as int)),
                    ),
                    ..start
                }),
                forall|j: int|
                    0 <= j < i ==> upload_matches(
                        #[trigger] uploads@[j],
                        primitives@,
                        j,
                        start.vertex_pool,
                        start.index_pool,
                    ),
            decreases primitives.len() - i,
        {
            let mesh = &primitives[i].mesh;
            let vertex_bytes = mesh_vertex_data(mesh);
            let index_bytes = mesh_index_data(mesh);
            let vertex_size: u64 = vertex_bytes.len() as u64;
            let index_size: u64 = index_bytes.len() as u64;
            let ghost before = primitives@.take(i as int);
            proof {
                let next = primitives@.take(i + 1);
                assert(vertex_sizes(next).drop_last() =~= vertex_sizes(before));
                assert(index_sizes(next).drop_last() =~= index_sizes(before));
                assert(vertex_sizes(next).last() == vertex_size);
                assert(index_sizes(next).last() == index_size);
                assert(vertex_sizes(primitives@)[i as int] == vertex_size);
                assert(index_sizes(primitives@)[i as int] == index_size);
                lemma_upload_all_used(start.vertex_pool.clear(), vertex_sizes(before));
                lemma_upload_all_used(start.index_pool.clear(), index_sizes(before));
            }
            let vertex = self.vertex_pool.upload(vertex_size);
            let index = self.index_pool.upload(index_size);
            let upload = PrimitiveUpload {
                vertex,
                vertex_data: vertex_bytes,
                index,
                index_data: index_bytes,
            };
            assert(upload_matches(
                upload,
                primitives@,
                i as int,
                start.vertex_pool,
                start.index_pool,
            ));
            uploads.push(upload);
            i = i + 1;
        }
        assert(primitives@.take(primitives.len() as int) =~= primitives@);
        let mut draws: Vec<DrawCommand> = Vec::new();
        let mut k: usize = 0;
        while k < primitives.len()
            invariant
                k <= primitives.len(),
                draws@ == draw_list(primitives@.take(k as int), *screen),
            decreases primitives.len() - k,
        {
            let primitive = &primitives[k];
            proof {
                let next = primitives@.take(k + 1);
                assert(next.drop_last() =~= primitives@.take(k as int));
                assert(next[k as int] == primitives@[k as int]);
            }
            match screen.scissor(&primitive.clip_rect) {
                Some(scissor) => {
                    draws.push(
                        DrawCommand {
                            primitive: k,
                            texture: primitive.mesh.texture_id,
                            scissor,
                            index_count: primitive.mesh.indices.len() as u32,
                        },
                    );
                },
                None => {},
            }
            k = k + 1;
        }
        Ok(FramePlan { uploads, draws })
    }

    /// The texture table of every renderer fits, see
    /// [`TextureTableView::fits`].
    pub proof fn lemma_fits(&self)
        ensures
            self@.textures.fits(),
    {
        self.textures.lemma_fits();
    }

    /// Registers the bind resource of an externally created texture and
    /// returns the id under which meshes can refer to it.
    ///
    /// The id is a fresh external one. From now on it resolves to
    /// `resource`, and every other id resolves as before.
    pub fn register_texture(&mut self, resource: R) -> (id: TextureId)
        ensures
            id == old(self)@.textures.next_external(),
            final(self)@ == (RendererView {
                textures: old(self)@.textures.register(resource),
                ..old(self)@
            }),
            old(self)@.textures.fits() && final(self)@.textures.fits(),
            old(self)@.textures.resolve(id) == Err::<R, TextureError>(
                TextureError::ResourceUnknown,
            ),
            final(self)@.textures.resolve(id) == Ok::<R, TextureError>(resource),
            forall|other: TextureId|
                other != id ==> #[trigger] final(self)@.textures.resolve(other) == old(self)@.textures.resolve(other),
    {
        self.textures.register(resource)
    }

    /// Unregisters the texture.
    ///
    /// An external id that resolved fails with `ResourceFreed` from now on.
    /// For any other id nothing changes.
    pub fn unregister_texture(&mut self, id: TextureId)
        ensures
            final(self)@ == (RendererView {
                textures: old(self)@.textures.unregister(id),
                ..old(self)@
            }),
            old(self)@.textures.fits() && final(self)@.textures.fits(),
            old(self)@.textures.resolve(id) is Ok && id is External ==> final(self)@.textures.resolve(id) == Err::<R, TextureError>(TextureError::ResourceFreed),
            !(old(self)@.textures.resolve(id) is Ok && id is External) ==> final(self)@ == old(self)@,
            forall|other: TextureId|
                other != id ==> #[trigger] final(self)@.textures.resolve(other) == old(self)@.textures.resolve(other),
    {
        self.textures.unregister(id);
    }

    /// Releases a texture of either kind.
    pub fn free_texture(&mut self, id: TextureId)
        ensures
            final(self)@ == (RendererView { textures: old(self)@.textures.free(id), ..old(self)@ }),
            final(self)@.textures.fits(),
            final(self)@.textures.resolve(id) is Err,
            forall|other: TextureId|
                other != id ==> #[trigger] final(self)@.textures.resolve(other) == old(self)@.textures.resolve(other),
    {
        self.textures.free(id);
    }

    /// Makes `resource` the binding of the managed texture number `k`, which
    /// now holds the image of `delta`.
    pub fn install_texture(&mut self, k: u64, resource: R, delta: &TextureDelta)
        ensures
            final(self)@ == (RendererView {
                textures: old(self)@.textures.install(k, delta.installed(resource)),
                ..old(self)@
            }),
            final(self)@.textures.fits(),
            final(self)@.textures.resolve(TextureId::Managed(k)) == Ok::<R, TextureError>(
                resource,
            ),
            forall|other: TextureId|
                other != TextureId::Managed(k) ==> #[trigger] final(self)@.textures.resolve(other)
                    == old(self)@.textures.resolve(other),
    {
        self.textures.install(k, resource, delta);
    }

    /// Notes that a region of the managed texture number `k` was overwritten
    /// with the image of `delta`.
    pub fn record_patch(&mut self, k: u64, delta: &TextureDelta)
        ensures
            final(self)@ == (RendererView {
                textures: old(self)@.textures.record_patch(k, delta.spec_version()),
                ..old(self)@
            }),
            final(self)@.textures.fits(),
            forall|id: TextureId| #[trigger]
                final(self)@.textures.resolve(id) == old(self)@.textures.resolve(id),
    {
        self.textures.record_patch(k, delta);
    }

    /// Puts `resource` into the slot of an external id. Returns whether the
    /// id has a slot; where it has, the id resolves to `resource` from now
    /// on.
    pub fn populate_texture(&mut self, id: TextureId, resource: R) -> (done: bool)
        ensures
            final(self)@ == (RendererView {
                textures: old(self)@.textures.populate(id, resource),
                ..old(self)@
            }),
            done <==> (id matches TextureId::External(k) && k < old(self)@.textures.external.len()),
            final(self)@.textures.fits(),
            done ==> final(self)@.textures.resolve(id) == Ok::<R, TextureError>(resource),
            forall|other: TextureId|
                other != id ==> #[trigger] final(self)@.textures.resolve(other) == old(self)@.textures.resolve(other),
    {
        self.textures.populate(id, resource)
    }

    /// Takes an image of premultiplied sRGBA colours for a new external
    /// texture.
    ///
    /// Whatever the image is, a fresh external id is set aside for it and
    /// returned, and the image is queued, as it was handed in, behind the
    /// images that already wait: its size as given and four bytes for each
    /// colour. Until the image is uploaded and its bind resource is put into
    /// the slot, the id resolves like an unregistered one. Whether the image
    /// can be uploaded at all is found out when it is taken from the queue,
    /// see [`PendingTexture::into_delta`].
    pub fn alloc_srgba_premultiplied(
        &mut self,
        size: (usize, usize),
        srgba_pixels: &Vec<Color32>,
    ) -> (id: TextureId)
        ensures
            id == old(self)@.textures.next_external(),
            final(self)@.pending.len() == old(self)@.pending.len() + 1,
            final(self)@ == (RendererView {
                textures: old(self)@.textures.reserve(),
                pending: old(self)@.pending.push(final(self)@.pending.last()),
                ..old(self)@
            }),
            final(self)@.pending.last().id == id,
            final(self)@.pending.last().width == size.0,
            final(self)@.pending.last().height == size.1,
            final(self)@.pending.last().pixels@ == rgba_bytes(srgba_pixels@),
            old(self)@.textures.fits() && final(self)@.textures.fits(),
            final(self)@.textures.resolve(id) == Err::<R, TextureError>(
                TextureError::ResourceFreed,
            ),
            forall|other: TextureId|
                other != id ==> #[trigger] final(self)@.textures.resolve(other) == old(self)@.textures.resolve(other),
    {
        let pixels = flatten_colors(srgba_pixels);
        let id = self.textures.reserve();
        self.pending.push(PendingTexture { id, width: size.0, height: size.1, pixels });
        id
    }

    /// Hands out the images that wait for their upload, oldest first, and
    /// empties the queue. For each of them the embedding code creates the
    /// texture and puts its bind resource into the slot of the image's id
    /// with [`Renderer::populate_texture`].
    pub fn take_pending(&mut self) -> (images: Vec<PendingTexture>)
        ensures
            images@ == old(self)@.pending,
            final(self)@ == (RendererView { pending: Seq::empty(), ..old(self)@ }),
    {
        let mut images: Vec<PendingTexture> = Vec::new();
        std::mem::swap(&mut images, &mut self.pending);
        images
    }
}

/// Whatever fails first among the first `n` primitives fails first among all
/// of them.
proof fn lemma_first_unresolved_prefix<R>(
    table: TextureTableView<R>,
    primitives: Seq<ClippedPrimitive>,
    n: int,
)
    requires
        0 <= n <= primitives.len(),
        first_unresolved(table, primitives.take(n)) is Some,
    ensures
        first_unresolved(table, primitives) == first_unresolved(table, primitives.take(n)),
    decreases primitives.len() - n,
{
    if n < primitives.len() {
        let longer = primitives.take(n + 1);
        assert(longer.drop_last() =~= primitives.take(n));
        lemma_first_unresolved_prefix(table, primitives, n + 1);
    } else {
        assert(primitives.take(n) =~= primitives);
    }
}

/// Each upload takes one slot.
proof fn lemma_upload_all_used(pool: PoolView, sizes: Seq<u64>)
    ensures
        pool.upload_all(sizes).used == pool.used + sizes.len(),
    decreases sizes.len(),
{
    if sizes.len() > 0 {
        lemma_upload_all_used(pool, sizes.drop_last());
    }
}

/// The draw calls of a frame are exactly the draw calls of its primitives
/// that are not skipped, and they come in the order of the primitives: each
/// call is the one that [`draw_of`] gives for its primitive, a call that
/// comes later draws a later primitive, and every primitive that has a draw
/// call is in the list.
pub proof fn lemma_draw_list_in_order(primitives: Seq<ClippedPrimitive>, screen: ScreenDescriptor)
    requires
        primitives.len() <= usize::MAX,
    ensures
        draw_list(primitives, screen).len() <= primitives.len(),
        forall|j: int|
            0 <= j < draw_list(primitives, screen).len() ==> {
                let command = #[trigger] draw_list(primitives, screen)[j];
                &&& command.primitive < primitives.len()
                &&& draw_of(primitives, command.primitive as int, screen) == Some(command)
            },
        forall|j: int, k: int|
            0 <= j < k < draw_list(primitives, screen).len() ==> (#[trigger] draw_list(
                primitives,
                screen,
            )[j]).primitive < (#[trigger] draw_list(primitives, screen)[k]).primitive,
        forall|i: int|
            0 <= i < primitives.len() && draw_of(primitives, i, screen) is Some ==> draw_list(
                primitives,
                screen,
            ).contains(#[trigger] draw_of(primitives, i, screen)->0),
    decreases primitives.len(),
{
    if primitives.len() > 0 {
        let head = primitives.drop_last();
        let last = primitives.len() - 1;
        lemma_draw_list_in_order(head, screen);
        let short = draw_list(head, screen);
        let full = draw_list(primitives, screen);
        assert forall|i: int| 0 <= i < last implies draw_of(head, i, screen) == draw_of(
            primitives,
            i,
            screen,
        ) by {
            assert(head[i] == primitives[i]);
        }
        assert forall|j: int| 0 <= j < full.len() implies {
            let command = #[trigger] full[j];
            &&& command.primitive < primitives.len()
            &&& draw_of(primitives, command.primitive as int, screen) == Some(command)
        } by {
            if j < short.len() {
                assert(full[j] == short[j]);
                assert(draw_of(head, short[j].primitive as int, screen) == Some(short[j]));
            }
        }
        assert forall|j: int, k: int| 0 <= j < k < full.len() implies (#[trigger] full[j]).primitive
            < (#[trigger] full[k]).primitive by {
            assert(full[j] == short[j]);
            if k < short.len() {
                assert(full[k] == short[k]);
            }
        }
        assert forall|i: int|
            0 <= i < primitives.len() && draw_of(primitives, i, screen) is Some implies full.contains(
            #[trigger] draw_of(primitives, i, screen)->0,
        ) by {
            if i < last {
                let command = draw_of(head, i, screen)->0;
                assert(short.contains(command));
                let j = choose|j: int| 0 <= j < short.len() && short[j] == command;
                assert(full[j] == command);
            } else {
                assert(full[full.len() - 1] == draw_of(primitives, i, screen)->0);
            }
        }
    }
}

/// No draw call is planned for a primitive whose clip rectangle starts at or
/// beyond the right or the bottom edge of the target, nor for any primitive
/// where the target has no pixels.
pub proof fn lemma_primitive_beyond_target_is_skipped(
    primitives: Seq<ClippedPrimitive>,
    screen: ScreenDescriptor,
    i: int,
)
    requires
        primitives.len() <= usize::MAX,
        0 <= i < primitives.len(),
        screen.physical_width == 0 || screen.physical_height == 0 || primitives[i].clip_rect.min_x
            >= screen.physical_width || primitives[i].clip_rect.min_y >= screen.physical_height,
    ensures
        forall|j: int|
            0 <= j < draw_list(primitives, screen).len() ==> (#[trigger] draw_list(
                primitives,
                screen,
            )[j]).primitive != i,
{
    lemma_draw_list_in_order(primitives, screen);
    lemma_scissor_none_iff_beyond_far_edge(primitives[i].clip_rect, screen);
}

/// The scissor rectangle of every planned draw call lies inside the target
/// and is at least one pixel wide and one pixel high.
pub proof fn lemma_drawn_scissors_within_target(
    primitives: Seq<ClippedPrimitive>,
    screen: ScreenDescriptor,
)
    requires
        primitives.len() <= usize::MAX,
    ensures
        forall|j: int|
            0 <= j < draw_list(primitives, screen).len() ==> {
                let s = (#[trigger] draw_list(primitives, screen)[j]).scissor;
                &&& s.x + s.width <= screen.physical_width
                &&& s.y + s.height <= screen.physical_height
                &&& s.width >= 1
                &&& s.height >= 1
            },
{
    lemma_draw_list_in_order(primitives, screen);
    assert forall|j: int| 0 <= j < draw_list(primitives, screen).len() implies {
        let s = (#[trigger] draw_list(primitives, screen)[j]).scissor;
        &&& s.x + s.width <= screen.physical_width
        &&& s.y + s.height <= screen.physical_height
        &&& s.width >= 1
        &&& s.height >= 1
    } by {
        let command = draw_list(primitives, screen)[j];
        lemma_scissor_within_target(primitives[command.primitive as int].clip_rect, screen);
    }
}

/// A frame is planned exactly where the texture of every primitive resolves.
/// Where it is not, the error is that of the first primitive, in the order
/// of the frame, whose texture does not resolve.
pub proof fn lemma_first_unresolved_is_first<R>(
    table: TextureTableView<R>,
    primitives: Seq<ClippedPrimitive>,
)
    ensures
        first_unresolved(table, primitives) is None <==> forall|i: int|
            0 <= i < primitives.len() ==> (#[trigger] table.resolve(
                primitives[i].mesh.texture_id,
            )) is Ok,
        first_unresolved(table, primitives) matches Some(e) ==> exists|i: int|
            {
                &&& 0 <= i < primitives.len()
                &&& #[trigger] table.resolve(primitives[i].mesh.texture_id) == Err::<
                    R,
                    TextureError,
                >(e)
                &&& forall|j: int|
                    0 <= j < i ==> (#[trigger] table.resolve(primitives[j].mesh.texture_id)) is Ok
            },
    decreases primitives.len(),
{
    if primitives.len() > 0 {
        let head = primitives.drop_last();
        let last = primitives.len() - 1;
        lemma_first_unresolved_is_first(table, head);
        assert forall|i: int| 0 <= i < last implies head[i] == primitives[i] by {}
        match first_unresolved(table, head) {
            Some(e) => {
                let i = choose|i: int|
                    {
                        &&& 0 <= i < head.len()
                        &&& #[trigger] table.resolve(head[i].mesh.texture_id) == Err::<
                            R,
                            TextureError,
                        >(e)
                        &&& forall|j: int|
                            0 <= j < i ==> (#[trigger] table.resolve(
                                head[j].mesh.texture_id,
                            )) is Ok
                    };
                assert(head[i] == primitives[i]);
                assert(table.resolve(primitives[i].mesh.texture_id) == Err::<R, TextureError>(e));
                assert forall|j: int| 0 <= j < i implies (#[trigger] table.resolve(
                    primitives[j].mesh.texture_id,
                )) is Ok by {
                    assert(head[j] == primitives[j]);
                    assert(table.resolve(head[j].mesh.texture_id) is Ok);
                }
            },
            None => {
                assert forall|j: int| 0 <= j < last implies (#[trigger] table.resolve(
                    primitives[j].mesh.texture_id,
                )) is Ok by {
                    assert(head[j] == primitives[j]);
                    assert(table.resolve(head[j].mesh.texture_id) is Ok);
                }
                if first_unresolved(table, primitives) is Some {
                    assert(table.resolve(primitives[last].mesh.texture_id) is Err);
                }
            },
        }
    }
}

} // verus!
