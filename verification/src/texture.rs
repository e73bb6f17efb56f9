//! The table that maps texture ids to GPU bind resources.
//!
//! The table is generic in the bind resource `R`: it stores and hands out
//! resources that the embedding code created, and never looks inside one.

use vstd::prelude::*;
use std::collections::HashMap;

verus! {

broadcast use vstd::std_specs::hash::group_hash_axioms;

/// Identifies a texture.
#[derive(Clone, Copy, Debug, PartialEq, Eq, Hash, Structural)]
pub enum TextureId {
    /// A texture that the GUI library owns and updates, such as its font atlas.
    Managed(u64),
    /// A texture that the application registered.
    External(u64),
}

/// Why a texture id could not be resolved.
#[derive(Clone, Copy, Debug, PartialEq, Eq, Structural)]
pub enum TextureError {
    /// A managed texture was used before its first upload.
    ResourceNotReady,
    /// An external texture was used after it was unregistered.
    ResourceFreed,
    /// An external id was used that no registration handed out.
    ResourceUnknown,
}

/// What the table keeps for a managed texture.
pub struct ManagedTexture<R> {
    /// The bind resource of the GPU texture.
    pub resource: R,
    /// Width of the GPU texture in pixels.
    pub width: u32,
    /// Height of the GPU texture in pixels.
    pub height: u32,
    /// The version of the image that was uploaded last.
    pub version: u64,
}

/// The table as a mathematical value.
pub struct TextureTableView<R> {
    /// The managed textures that have been uploaded, by the number in their id.
    pub managed: Map<u64, ManagedTexture<R>>,
    /// One slot per registration, in the order of registration. A slot that
    /// holds `None` was unregistered.
    pub external: Seq<Option<R>>,
}

/// How many slots of `slots` hold a resource.
pub open spec fn count_live<R>(slots: Seq<Option<R>>) -> nat
    decreases slots.len(),
{
    if slots.len() == 0 {
        0
    } else {
        count_live(slots.drop_last()) + if slots.last() is Some {
            1nat
        } else {
            0nat
        }
    }
}

impl<R> TextureTableView<R> {
    /// The table without any texture.
    pub open spec fn empty() -> Self {
        TextureTableView { managed: Map::empty(), external: Seq::empty() }
    }

    /// The table has no more slots than a table in memory can have, so the
    /// number of each slot is the number in its external id.
    pub open spec fn fits(self) -> bool {
        self.external.len() <= usize::MAX
    }

    /// The resource that `id` resolves to, or the reason why it has none.
    pub open spec fn resolve(self, id: TextureId) -> Result<R, TextureError> {
        match id {
            TextureId::Managed(k) => if self.managed.contains_key(k) {
                Ok(self.managed[k].resource)
            } else {
                Err(TextureError::ResourceNotReady)
            },
            TextureId::External(k) => if k >= self.external.len() {
                Err(TextureError::ResourceUnknown)
            } else {
                match self.external[k as int] {
                    Some(r) => Ok(r),
                    None => Err(TextureError::ResourceFreed),
                }
            },
        }
    }

    /// The id that the next registration hands out.
    pub open spec fn next_external(self) -> TextureId {
        TextureId::External(self.external.len() as u64)
    }

    /// The table after `resource` was registered.
    pub open spec fn register(self, resource: R) -> Self {
        TextureTableView { external: self.external.push(Some(resource)), ..self }
    }

    /// The table after all of `resources` were registered, first to last.
    pub open spec fn register_all(self, resources: Seq<R>) -> Self
        decreases resources.len(),
    {
        if resources.len() == 0 {
            self
        } else {
            self.register_all(resources.drop_last()).register(resources.last())
        }
    }

    /// The table after `id` was unregistered: the slot of an external id that
    /// was handed out is emptied, and nothing changes for any other id.
    pub open spec fn unregister(self, id: TextureId) -> Self {
        match id {
            TextureId::External(k) if k < self.external.len() => TextureTableView {
                external: self.external.update(k as int, None),
                ..self
            },
            _ => self,
        }
    }

    /// The table after each id of `ids` was unregistered, first to last.
    pub open spec fn unregister_all(self, ids: Seq<TextureId>) -> Self
        decreases ids.len(),
    {
        if ids.len() == 0 {
            self
        } else {
            self.unregister_all(ids.drop_last()).unregister(ids.last())
        }
    }

    /// The table after `id` was released: a managed texture is forgotten, an
    /// external one is unregistered.
    pub open spec fn free(self, id: TextureId) -> Self {
        match id {
            TextureId::Managed(k) => TextureTableView { managed: self.managed.remove(k), ..self },
            TextureId::External(_) => self.unregister(id),
        }
    }

    /// The table after `texture` became the managed texture number `k`.
    pub open spec fn install(self, k: u64, texture: ManagedTexture<R>) -> Self {
        TextureTableView { managed: self.managed.insert(k, texture), ..self }
    }

    /// The table after a region of the managed texture number `k` was
    /// overwritten by version `version` of its image. Nothing changes where
    /// the table has no such texture.
    pub open spec fn record_patch(self, k: u64, version: u64) -> Self {
        if self.managed.contains_key(k) {
            self.install(k, ManagedTexture { version, ..self.managed[k] })
        } else {
            self
        }
    }

    /// What a delta for `id` asks for.
    ///
    /// Only managed textures take deltas. A delta whose version the texture
    /// already holds is redundant. A region goes into the existing texture.
    /// A whole image, and any delta for an id without a texture, gets a new
    /// texture of the delta's size.
    pub open spec fn plan(self, id: TextureId, delta: TextureDelta) -> DeltaAction {
        match id {
            TextureId::External(_) => DeltaAction::Skip,
            TextureId::Managed(k) => if !self.managed.contains_key(k) {
                DeltaAction::Replace { width: delta.spec_width(), height: delta.spec_height() }
            } else if self.managed[k].version == delta.spec_version() {
                DeltaAction::Skip
            } else {
                match delta.spec_pos() {
                    Some((x, y)) => DeltaAction::Patch {
                        x,
                        y,
                        width: delta.spec_width(),
                        height: delta.spec_height(),
                    },
                    None => DeltaAction::Replace {
                        width: delta.spec_width(),
                        height: delta.spec_height(),
                    },
                }
            },
        }
    }

    /// The size of the managed texture behind `id`, if there is one.
    pub open spec fn size_of(self, id: TextureId) -> Option<(u32, u32)> {
        match id {
            TextureId::Managed(k) if self.managed.contains_key(k) => Some(
                (self.managed[k].width, self.managed[k].height),
            ),
            _ => None,
        }
    }

    /// The table after an external id was set aside for a texture that is
    /// yet to be uploaded: a new slot without a resource.
    pub open spec fn reserve(self) -> Self {
        TextureTableView { external: self.external.push(None), ..self }
    }

    /// The table after `resource` was put into the slot of the external id
    /// `id`. Nothing changes for a managed id or an id that was never handed
    /// out.
    pub open spec fn populate(self, id: TextureId, resource: R) -> Self {
        match id {
            TextureId::External(k) if k < self.external.len() => TextureTableView {
                external: self.external.update(k as int, Some(resource)),
                ..self
            },
            _ => self,
        }
    }

    /// Whether `id` is a managed texture that holds version `version` of its
    /// image.
    pub open spec fn is_current(self, id: TextureId, version: u64) -> bool {
        id matches TextureId::Managed(k) && self.managed.contains_key(k) && self.managed[k].version
            == version
    }

    /// The number of external ids that resolve to a resource.
    pub open spec fn live_external(self) -> nat {
        count_live(self.external)
    }
}

/// A change to a managed texture: a whole image, or an image for one region.
///
/// The pixels are RGBA bytes, four per pixel, row after row without padding,
/// so a row of the image takes `4 * width` bytes.
pub struct TextureDelta {
    version: u64,
    pos: Option<(u32, u32)>,
    width: u32,
    height: u32,
    pixels: Vec<u8>,
}

/// How the pixel bytes of a delta are laid out for the upload.
#[derive(Clone, Copy, Debug, PartialEq, Eq, Structural)]
pub struct UploadLayout {
    /// Bytes from the start of one row to the start of the next.
    pub bytes_per_row: u32,
    /// Rows in the image.
    pub rows_per_image: u32,
}

/// What has to be done on the GPU for a delta.
#[derive(Clone, Copy, Debug, PartialEq, Eq, Structural)]
pub enum DeltaAction {
    /// Nothing: the id is not a managed one, or the texture already holds
    /// this version of the image.
    Skip,
    /// Create a texture of this size, upload the whole image into it and
    /// install its bind resource in place of the old one.
    Replace { width: u32, height: u32 },
    /// Copy the image into the existing texture, into the region of this
    /// size whose top left corner is `(x, y)`.
    Patch { x: u32, y: u32, width: u32, height: u32 },
}

/// Whether an image of `width` by `height` pixels with `len` pixel bytes can
/// be uploaded: it has at least one pixel, a row of it fits the GPU's 32-bit
/// stride, and `len` is exactly four bytes for each pixel.
pub open spec fn image_fits(width: int, height: int, len: int) -> bool {
    &&& 1 <= width
    &&& 1 <= height <= u32::MAX
    &&& 4 * width <= u32::MAX
    &&& len == 4 * width * height
}

impl TextureDelta {
    #[verifier::type_invariant]
    spec fn well_formed(self) -> bool {
        image_fits(self.width as int, self.height as int, self.pixels@.len() as int)
    }

    /// The version marker of the image.
    pub closed spec fn spec_version(&self) -> u64 {
        self.version
    }

    /// The top left corner of the region, or `None` for a whole image.
    pub closed spec fn spec_pos(&self) -> Option<(u32, u32)> {
        self.pos
    }

    /// Width of the image in pixels.
    pub closed spec fn spec_width(&self) -> u32 {
        self.width
    }

    /// Height of the image in pixels.
    pub closed spec fn spec_height(&self) -> u32 {
        self.height
    }

    /// The pixel bytes.
    pub closed spec fn spec_pixels(&self) -> Seq<u8> {
        self.pixels@
    }

    /// What the table keeps once `resource` is the bind resource of a texture
    /// that holds this delta's image.
    pub open spec fn installed<R>(&self, resource: R) -> ManagedTexture<R> {
        ManagedTexture {
            resource,
            width: self.spec_width(),
            height: self.spec_height(),
            version: self.spec_version(),
        }
    }

    /// Checks the image and builds the delta.
    fn build(
        version: u64,
        pos: Option<(u32, u32)>,
        width: usize,
        height: usize,
        pixels: Vec<u8>,
    ) -> (delta: Option<TextureDelta>)
        ensures
            delta is Some <==> image_fits(width as int, height as int, pixels@.len() as int),
            delta matches Some(d) ==> {
                &&& d.spec_version() == version
                &&& d.spec_pos() == pos
                &&& d.spec_width() == width
                &&& d.spec_height() == height
                &&& d.spec_pixels() == pixels@
            },
    {
        if width == 0 || height == 0 || width > 0x3fff_ffff || height > 0xffff_ffff {
            return None;
        }
        let row: u64 = 4 * (width as u64);
        let rows: u64 = height as u64;
        let len: u64 = pixels.len() as u64;
        assert(row * rows == 4 * width * height) by (nonlinear_arith)
            requires
                row == 4 * width,
                rows == height,
        ;
        assert(row * rows <= 0xffff_fffc * 0xffff_ffff) by (nonlinear_arith)
            requires
                0 <= row <= 0xffff_fffc,
                0 <= rows <= 0xffff_ffff,
        ;
        if row * rows != len {
            return None;
        }
        Some(TextureDelta { version, pos, width: width as u32, height: height as u32, pixels })
    }

    /// A delta that replaces the whole texture by an image of `width` by
    /// `height` pixels.
    ///
    /// Returns `None` unless the image can be uploaded, see [`image_fits`].
    pub fn full(version: u64, width: usize, height: usize, pixels: Vec<u8>) -> (delta: Option<
        TextureDelta,
    >)
        ensures
            delta is Some <==> image_fits(width as int, height as int, pixels@.len() as int),
            delta matches Some(d) ==> {
                &&& d.spec_version() == version
                &&& d.spec_pos() is None
                &&& d.spec_width() == width
                &&& d.spec_height() == height
                &&& d.spec_pixels() == pixels@
            },
    {
        TextureDelta::build(version, None, width, height, pixels)
    }

    /// A delta that overwrites the region of `width` by `height` pixels whose
    /// top left corner is `(x, y)`.
    ///
    /// Returns `None` unless the image can be uploaded, see [`image_fits`].
    pub fn region(
        version: u64,
        x: u32,
        y: u32,
        width: usize,
        height: usize,
        pixels: Vec<u8>,
    ) -> (delta: Option<TextureDelta>)
        ensures
            delta is Some <==> image_fits(width as int, height as int, pixels@.len() as int),
            delta matches Some(d) ==> {
                &&& d.spec_version() == version
                &&& d.spec_pos() == Some((x, y))
                &&& d.spec_width() == width
                &&& d.spec_height() == height
                &&& d.spec_pixels() == pixels@
            },
    {
        TextureDelta::build(version, Some((x, y)), width, height, pixels)
    }

    #[verifier::when_used_as_spec(spec_version)]
    pub fn version(&self) -> (v: u64)
        ensures
            v == self.spec_version(),
    {
        self.version
    }

    #[verifier::when_used_as_spec(spec_pos)]
    pub fn pos(&self) -> (p: Option<(u32, u32)>)
        ensures
            p == self.spec_pos(),
    {
        self.pos
    }

    #[verifier::when_used_as_spec(spec_width)]
    pub fn width(&self) -> (w: u32)
        ensures
            w == self.spec_width(),
            w >= 1,
    {
        proof {
            use_type_invariant(self);
        }
        self.width
    }

    #[verifier::when_used_as_spec(spec_height)]
    pub fn height(&self) -> (h: u32)
        ensures
            h == self.spec_height(),
            h >= 1,
    {
        proof {
            use_type_invariant(self);
        }
        self.height
    }

    /// The pixel bytes: four for each pixel of the image.
    pub fn pixels(&self) -> (p: &Vec<u8>)
        ensures
            p@ == self.spec_pixels(),
            p@.len() == 4 * self.spec_width() * self.spec_height(),
    {
        proof {
            use_type_invariant(self);
        }
        &self.pixels
    }

    /// The layout of the pixel bytes: rows of `4 * width` bytes, one for each
    /// row of the image.
    pub fn layout(&self) -> (l: UploadLayout)
        ensures
            l.bytes_per_row == 4 * self.spec_width(),
            l.rows_per_image == self.spec_height(),
            l.bytes_per_row * l.rows_per_image == self.spec_pixels().len(),
    {
        proof {
            use_type_invariant(self);
        }
        UploadLayout { bytes_per_row: 4 * self.width, rows_per_image: self.height }
    }
}

/// Maps texture ids to bind resources.
pub struct TextureTable<R> {
    managed: HashMap<u64, ManagedTexture<R>>,
    external: Vec<Option<R>>,
}

impl<R> View for TextureTable<R> {
    type V = TextureTableView<R>;

    closed spec fn view(&self) -> TextureTableView<R> {
        TextureTableView { managed: self.managed@, external: self.external@ }
    }
}

impl<R> TextureTable<R> {
    /// Every table in memory fits: it has no more slots than the machine can
    /// count, so each external id that it handed out names its own slot.
    pub proof fn lemma_fits(&self)
        ensures
            self@.fits(),
            self@.resolve(self@.next_external()) == Err::<R, TextureError>(
                TextureError::ResourceUnknown,
            ),
    {
        assert(self.external@.len() == self.external.len());
    }

    /// Creates a table without any texture.
    pub fn new() -> (table: Self)
        ensures
            table@ == TextureTableView::<R>::empty(),
            table@.fits(),
    {
        TextureTable { managed: HashMap::new(), external: Vec::new() }
    }

    /// The id that the next registration hands out.
    pub fn next_external(&self) -> (id: TextureId)
        ensures
            id == self@.next_external(),
            id == TextureId::External(self@.external.len() as u64),
            self@.fits(),
            self@.resolve(id) == Err::<R, TextureError>(TextureError::ResourceUnknown),
    {
        proof {
            self.lemma_fits();
        }
        TextureId::External(self.external.len() as u64)
    }

    /// Registers an externally created texture under a fresh external id.
    ///
    /// The id is the number of registrations made before this one, so ids
    /// grow by one with each call and none is handed out twice.
    pub fn register(&mut self, resource: R) -> (id: TextureId)
        ensures
            id == old(self)@.next_external(),
            final(self)@ == old(self)@.register(resource),
            old(self)@.fits() && final(self)@.fits(),
            old(self)@.resolve(id) == Err::<R, TextureError>(TextureError::ResourceUnknown),
            final(self)@.resolve(id) == Ok::<R, TextureError>(resource),
            forall|other: TextureId|
                other != id ==> #[trigger] final(self)@.resolve(other) == old(self)@.resolve(other),
    {
        proof {
            self.lemma_fits();
        }
        let index: usize = self.external.len();
        self.external.push(Some(resource));
        proof {
            self.lemma_fits();
        }
        TextureId::External(index as u64)
    }

    /// Unregisters an external texture and drops its resource.
    ///
    /// Unregistering a managed id, an id that was never handed out, or an id
    /// that is already unregistered changes nothing.
    pub fn unregister(&mut self, id: TextureId)
        ensures
            final(self)@ == old(self)@.unregister(id),
            old(self)@.fits() && final(self)@.fits(),
            old(self)@.resolve(id) is Ok && id is External ==> final(self)@.resolve(id) == Err::<
                R,
                TextureError,
            >(TextureError::ResourceFreed),
            !(old(self)@.resolve(id) is Ok && id is External) ==> final(self)@ == old(self)@,
            forall|other: TextureId|
                other != id ==> #[trigger] final(self)@.resolve(other) == old(self)@.resolve(other),
    {
        proof {
            self.lemma_fits();
        }
        if let TextureId::External(k) = id {
            if k < self.external.len() as u64 {
                self.external.set(k as usize, None);
                assert(old(self).external@[k as int] is None ==> self.external@
                    =~= old(self).external@);
            }
        }
    }

    /// Releases a texture of either kind.
    pub fn free(&mut self, id: TextureId)
        ensures
            final(self)@ == old(self)@.free(id),
            old(self)@.fits() && final(self)@.fits(),
            final(self)@.resolve(id) is Err,
            forall|other: TextureId|
                other != id ==> #[trigger] final(self)@.resolve(other) == old(self)@.resolve(other),
    {
        proof {
            self.lemma_fits();
        }
        match id {
            TextureId::Managed(k) => {
                self.managed.remove(&k);
            },
            TextureId::External(_) => {
                self.unregister(id);
            },
        }
    }

    /// Sets aside a fresh external id for a texture that is yet to be
    /// uploaded. Until [`TextureTable::populate`] puts a resource into its
    /// slot, the id resolves like an unregistered one.
    pub fn reserve(&mut self) -> (id: TextureId)
        ensures
            id == old(self)@.next_external(),
            final(self)@ == old(self)@.reserve(),
            old(self)@.fits() && final(self)@.fits(),
            final(self)@.resolve(id) == Err::<R, TextureError>(TextureError::ResourceFreed),
            forall|other: TextureId|
                other != id ==> #[trigger] final(self)@.resolve(other) == old(self)@.resolve(other),
    {
        proof {
            self.lemma_fits();
        }
        let index: usize = self.external.len();
        self.external.push(None);
        proof {
            self.lemma_fits();
        }
        TextureId::External(index as u64)
    }

    /// Puts `resource` into the slot of an external id, in place of what the
    /// slot held. Returns whether the id has a slot; the resource is dropped
    /// where it has none.
    pub fn populate(&mut self, id: TextureId, resource: R) -> (done: bool)
        ensures
            final(self)@ == old(self)@.populate(id, resource),
            done <==> (id matches TextureId::External(k) && k < old(self)@.external.len()),
            old(self)@.fits() && final(self)@.fits(),
            done ==> final(self)@.resolve(id) == Ok::<R, TextureError>(resource),
            forall|other: TextureId|
                other != id ==> #[trigger] final(self)@.resolve(other) == old(self)@.resolve(other),
    {
        proof {
            self.lemma_fits();
        }
        if let TextureId::External(k) = id {
            if k < self.external.len() as u64 {
                self.external.set(k as usize, Some(resource));
                return true;
            }
        }
        false
    }

    /// Whether `id` is a managed texture that already holds version
    /// `version` of its image, so that uploading that version again would be
    /// redundant.
    pub fn is_current(&self, id: TextureId, version: u64) -> (current: bool)
        ensures
            current == self@.is_current(id, version),
    {
        proof {
            self.lemma_fits();
        }
        match id {
            TextureId::Managed(k) => match self.managed.get(&k) {
                Some(texture) => texture.version == version,
                None => false,
            },
            TextureId::External(_) => false,
        }
    }

    /// Decides what has to be done on the GPU for a delta, without changing
    /// the table. After a `Replace` was carried out the new bind resource is
    /// handed to [`TextureTable::install`]; after a `Patch`,
    /// [`TextureTable::record_patch`] notes the new version.
    pub fn plan(&self, id: TextureId, delta: &TextureDelta) -> (action: DeltaAction)
        ensures
            action == self@.plan(id, *delta),
    {
        proof {
            self.lemma_fits();
        }
        match id {
            TextureId::External(_) => DeltaAction::Skip,
            TextureId::Managed(k) => match self.managed.get(&k) {
                None => DeltaAction::Replace { width: delta.width(), height: delta.height() },
                Some(texture) => {
                    if texture.version == delta.version() {
                        DeltaAction::Skip
                    } else {
                        match delta.pos() {
                            Some((x, y)) => DeltaAction::Patch {
                                x,
                                y,
                                width: delta.width(),
                                height: delta.height(),
                            },
                            None => DeltaAction::Replace {
                                width: delta.width(),
                                height: delta.height(),
                            },
                        }
                    }
                },
            },
        }
    }

    /// Makes `resource` the binding of the managed texture number `k`, which
    /// now holds the image of `delta`. The binding that the table held for
    /// `k` before, if any, is dropped.
    pub fn install(&mut self, k: u64, resource: R, delta: &TextureDelta)
        ensures
            final(self)@ == old(self)@.install(k, delta.installed(resource)),
            old(self)@.fits() && final(self)@.fits(),
            final(self)@.resolve(TextureId::Managed(k)) == Ok::<R, TextureError>(resource),
            forall|other: TextureId|
                other != TextureId::Managed(k) ==> #[trigger] final(self)@.resolve(other) == old(self)@.resolve(other),
    {
        proof {
            self.lemma_fits();
        }
        let texture = ManagedTexture {
            resource,
            width: delta.width(),
            height: delta.height(),
            version: delta.version(),
        };
        self.managed.insert(k, texture);
    }

    /// Notes that a region of the managed texture number `k` was overwritten
    /// with the image of `delta`.
    pub fn record_patch(&mut self, k: u64, delta: &TextureDelta)
        ensures
            final(self)@ == old(self)@.record_patch(k, delta.spec_version()),
            old(self)@.fits() && final(self)@.fits(),
            forall|id: TextureId| #[trigger]
                final(self)@.resolve(id) == old(self)@.resolve(id),
    {
        proof {
            self.lemma_fits();
        }
        match self.managed.remove(&k) {
            Some(texture) => {
                let updated = ManagedTexture { version: delta.version(), ..texture };
                self.managed.insert(k, updated);
                assert(self.managed@ =~= old(self).managed@.insert(k, updated));
            },
            None => {
                assert(self.managed@ =~= old(self).managed@);
            },
        }
    }

    /// The size of the managed texture behind `id`, if there is one.
    pub fn size_of(&self, id: TextureId) -> (size: Option<(u32, u32)>)
        ensures
            size == self@.size_of(id),
    {
        proof {
            self.lemma_fits();
        }
        match id {
            TextureId::Managed(k) => match self.managed.get(&k) {
                Some(texture) => Some((texture.width, texture.height)),
                None => None,
            },
            TextureId::External(_) => None,
        }
    }

    /// Resolves an id to its bind resource.
    ///
    /// A managed id fails with `ResourceNotReady` until a texture was
    /// installed for it. An external id fails with `ResourceUnknown` if it was
    /// never handed out and with `ResourceFreed` if it was unregistered.
    pub fn resolve(&self, id: TextureId) -> (r: Result<&R, TextureError>)
        ensures
            match r {
                Ok(resource) => self@.resolve(id) == Ok::<R, TextureError>(*resource),
                Err(e) => self@.resolve(id) == Err::<R, TextureError>(e),
            },
            self@.fits(),
    {
        proof {
            self.lemma_fits();
        }
        match id {
            TextureId::Managed(k) => match self.managed.get(&k) {
                Some(texture) => Ok(&texture.resource),
                None => Err(TextureError::ResourceNotReady),
            },
            TextureId::External(k) => {
                if k >= self.external.len() as u64 {
                    Err(TextureError::ResourceUnknown)
                } else {
                    match &self.external[k as usize] {
                        Some(resource) => Ok(resource),
                        None => Err(TextureError::ResourceFreed),
                    }
                }
            },
        }
    }
}

/// The ids of every other registration among the first `n`: the first, the
/// third, and so on.
pub open spec fn every_other(n: nat) -> Seq<TextureId> {
    Seq::new((n + 1) / 2, |j: int| TextureId::External((2 * j) as u64))
}

proof fn lemma_register_all<R>(table: TextureTableView<R>, resources: Seq<R>)
    ensures
        table.register_all(resources).managed == table.managed,
        table.register_all(resources).external == table.external + resources.map_values(
            |r: R| Some(r),
        ),
    decreases resources.len(),
{
    let wrapped = resources.map_values(|r: R| Some(r));
    if resources.len() == 0 {
        assert(table.external + wrapped =~= table.external);
    } else {
        lemma_register_all(table, resources.drop_last());
        let shorter = resources.drop_last().map_values(|r: R| Some(r));
        assert(table.external + wrapped =~= (table.external + shorter).push(
            Some(resources.last()),
        ));
    }
}

proof fn lemma_unregister_all_every_other<R>(table: TextureTableView<R>, m: nat)
    requires
        2 * m <= table.external.len() + 1,
        table.external.len() <= u64::MAX,
    ensures
        table.unregister_all(every_other((2 * m) as nat)).managed == table.managed,
        table.unregister_all(every_other((2 * m) as nat)).external == Seq::new(
            table.external.len(),
            |i: int|
                if i % 2 == 0 && i < 2 * m {
                    None
                } else {
                    table.external[i]
                },
        ),
    decreases m,
{
    let ids = every_other((2 * m) as nat);
    let expected = Seq::new(
        table.external.len(),
        |i: int|
            if i % 2 == 0 && i < 2 * m {
                None
            } else {
                table.external[i]
            },
    );
    if m == 0 {
        assert(ids.len() == 0);
        assert(expected =~= table.external);
    } else {
        let fewer = every_other((2 * (m - 1)) as nat);
        assert(ids.drop_last() =~= fewer);
        lemma_unregister_all_every_other(table, (m - 1) as nat);
        let before = table.unregister_all(fewer);
        assert(ids.last() == TextureId::External((2 * (m - 1)) as u64));
        assert(before.unregister(ids.last()).external =~= expected);
    }
}

proof fn lemma_count_alternating<R>(slots: Seq<Option<R>>)
    requires
        forall|i: int| 0 <= i < slots.len() ==> (#[trigger] slots[i] is None <==> i % 2 == 0),
    ensures
        count_live(slots) == slots.len() / 2,
    decreases slots.len(),
{
    if slots.len() > 0 {
        lemma_count_alternating(slots.drop_last());
    }
}

/// Registering `n` external textures and then unregistering every other one,
/// starting with the first, leaves `n / 2` ids that resolve. Each of the
/// unregistered ids fails with `ResourceFreed`, and each of the others still
/// resolves to the resource it was registered with.
pub proof fn lemma_unregister_every_other<R>(resources: Seq<R>)
    requires
        resources.len() <= u64::MAX,
    ensures
        ({
            let n = resources.len();
            let table = TextureTableView::<R>::empty().register_all(resources).unregister_all(
                every_other(n),
            );
            &&& table.live_external() == n / 2
            &&& forall|k: u64|
                k < n && k % 2 == 0 ==> #[trigger] table.resolve(TextureId::External(k)) == Err::<
                    R,
                    TextureError,
                >(TextureError::ResourceFreed)
            &&& forall|k: u64|
                k < n && k % 2 == 1 ==> #[trigger] table.resolve(TextureId::External(k)) == Ok::<
                    R,
                    TextureError,
                >(resources[k as int])
        }),
{
    let n = resources.len();
    let registered = TextureTableView::<R>::empty().register_all(resources);
    lemma_register_all(TextureTableView::<R>::empty(), resources);
    assert(registered.external =~= resources.map_values(|r: R| Some(r)));
    let m = (n + 1) / 2;
    assert(every_other(n) =~= every_other((2 * m) as nat));
    lemma_unregister_all_every_other(registered, m);
    let table = registered.unregister_all(every_other(n));
    lemma_count_alternating(table.external);
}

/// A managed id does not resolve before a texture was installed for it, and a
/// delta for it asks for a new texture of the delta's size. Once that texture
/// is installed, the id resolves to its bind resource and the table records
/// the delta's size for it.
pub proof fn lemma_first_upload_makes_ready<R>(
    table: TextureTableView<R>,
    k: u64,
    delta: TextureDelta,
    resource: R,
)
    requires
        !table.managed.contains_key(k),
    ensures
        table.resolve(TextureId::Managed(k)) == Err::<R, TextureError>(
            TextureError::ResourceNotReady,
        ),
        table.plan(TextureId::Managed(k), delta) == (DeltaAction::Replace {
            width: delta.spec_width(),
            height: delta.spec_height(),
        }),
        table.install(k, delta.installed(resource)).resolve(TextureId::Managed(k)) == Ok::<
            R,
            TextureError,
        >(resource),
        table.install(k, delta.installed(resource)).size_of(TextureId::Managed(k)) == Some(
            (delta.spec_width(), delta.spec_height()),
        ),
{
}

/// Installing a texture for an id that already has one replaces the binding:
/// afterwards the id resolves to the new resource only, and every other id
/// resolves as before.
pub proof fn lemma_install_replaces<R>(
    table: TextureTableView<R>,
    k: u64,
    texture: ManagedTexture<R>,
    other: TextureId,
)
    requires
        other != TextureId::Managed(k),
    ensures
        table.install(k, texture).resolve(TextureId::Managed(k)) == Ok::<R, TextureError>(
            texture.resource,
        ),
        table.install(k, texture).resolve(other) == table.resolve(other),
{
}

/// Unregistering is idempotent, and it changes how no other id resolves.
pub proof fn lemma_unregister_idempotent<R>(
    table: TextureTableView<R>,
    id: TextureId,
    other: TextureId,
)
    requires
        other != id,
    ensures
        table.unregister(id).unregister(id) == table.unregister(id),
        table.unregister(id).resolve(other) == table.resolve(other),
        id matches TextureId::External(k) ==> k < table.external.len() ==> table.unregister(
            id,
        ).resolve(id) == Err::<R, TextureError>(TextureError::ResourceFreed),
{
    assert(table.unregister(id).unregister(id).external =~= table.unregister(id).external);
}

/// External ids are never handed out twice: no operation on the table makes
/// the next id smaller, and a registration or a reservation makes it larger by
/// one, so an id that was handed out lies below every id that is handed out
/// after it.
pub proof fn lemma_external_ids_are_fresh<R>(
    table: TextureTableView<R>,
    id: TextureId,
    k: u64,
    resource: R,
    texture: ManagedTexture<R>,
    version: u64,
)
    requires
        table.external.len() < u64::MAX,
    ensures
        table.register(resource).next_external() == TextureId::External(
            (table.external.len() + 1) as u64,
        ),
        table.reserve().next_external() == TextureId::External((table.external.len() + 1) as u64),
        table.unregister(id).next_external() == table.next_external(),
        table.free(id).next_external() == table.next_external(),
        table.populate(id, resource).next_external() == table.next_external(),
        table.install(k, texture).next_external() == table.next_external(),
        table.record_patch(k, version).next_external() == table.next_external(),
        table.resolve(table.next_external()) == Err::<R, TextureError>(
            TextureError::ResourceUnknown,
        ),
{
}

/// An external id that was unregistered stays freed whatever is registered
/// afterwards: it never resolves again, never turns unknown, and never
/// resolves to the resource of another texture. The textures registered
/// before keep resolving as they did, and each texture registered afterwards
/// resolves to its own resource under the id that it was given.
pub proof fn lemma_unregistered_stays_freed<R>(
    table: TextureTableView<R>,
    k: u64,
    resources: Seq<R>,
)
    requires
        k < table.external.len(),
        table.external.len() + resources.len() <= u64::MAX,
    ensures
        ({
            let later = table.unregister(TextureId::External(k)).register_all(resources);
            &&& later.resolve(TextureId::External(k)) == Err::<R, TextureError>(
                TextureError::ResourceFreed,
            )
            &&& forall|j: u64|
                j < table.external.len() && j != k ==> #[trigger] later.resolve(
                    TextureId::External(j),
                ) == table.resolve(TextureId::External(j))
            &&& forall|i: int|
                0 <= i < resources.len() ==> #[trigger] later.resolve(
                    TextureId::External((table.external.len() + i) as u64),
                ) == Ok::<R, TextureError>(resources[i])
            &&& forall|m: u64| #[trigger]
                later.resolve(TextureId::Managed(m)) == table.resolve(TextureId::Managed(m))
        }),
{
    let freed = table.unregister(TextureId::External(k));
    lemma_register_all(freed, resources);
    let later = freed.register_all(resources);
    assert(later.external == freed.external + resources.map_values(|r: R| Some(r)));
    assert forall|i: int| 0 <= i < resources.len() implies #[trigger] later.resolve(
        TextureId::External((table.external.len() + i) as u64),
    ) == Ok::<R, TextureError>(resources[i]) by {
        let slot = table.external.len() + i;
        assert(later.external[slot] == Some(resources[i]));
    }
}

} // verus!
