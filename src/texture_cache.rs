//! The texture cache: GPU images by texture identifier.

use vstd::prelude::*;

verus! {

/// Identifier of a texture, as the GUI layer hands it out.
#[derive(Clone, Copy, Debug, PartialEq, Eq, Structural)]
pub enum TextureId {
    /// A texture that the GUI layer manages (such as its font atlas).
    Managed(u64),
    /// A texture that the user registered.
    User(u64),
}

/// The key under which a texture is stored: one namespace byte and the number.
pub type TextureKey = (u8, u64);

impl TextureId {
    pub open spec fn spec_key(self) -> TextureKey {
        match self {
            TextureId::Managed(n) => (0u8, n),
            TextureId::User(n) => (1u8, n),
        }
    }

    #[verifier::when_used_as_spec(spec_key)]
    pub fn key(self) -> (r: TextureKey)
        ensures
            r == self.spec_key(),
    {
        match self {
            TextureId::Managed(n) => (0u8, n),
            TextureId::User(n) => (1u8, n),
        }
    }
}

/// A cached texture: the GPU image and the size it was allocated with.
#[derive(Clone, Copy)]
pub struct TextureEntry {
    pub image: grr::Image,
    pub width: u32,
    pub height: u32,
}

/// The hash map of `ahash`, which holds the cache's entries.
#[verifier::external_type_specification]
#[verifier::external_body]
#[verifier::reject_recursive_types(K)]
#[verifier::reject_recursive_types(V)]
#[verifier::reject_recursive_types(S)]
pub struct ExAHashMap<K, V, S>(ahash::AHashMap<K, V, S>);

/// The hasher state of an `ahash::AHashMap`.
#[verifier::external_type_specification]
#[verifier::external_body]
pub struct ExRandomState(ahash::RandomState);

/// What a texture table holds: entry by key.
pub uninterp spec fn table_entries(
    m: ahash::AHashMap<TextureKey, TextureEntry>,
) -> Map<TextureKey, TextureEntry>;

/// The table with no entry.
pub open spec fn empty_table() -> Map<TextureKey, TextureEntry> {
    Map::empty()
}

/// Relies on `ahash::AHashMap::new`: the new map is empty.
#[verifier::external_body]
fn table_new() -> (r: ahash::AHashMap<TextureKey, TextureEntry>)
    ensures
        table_entries(r) == empty_table(),
{
    ahash::AHashMap::new()
}

/// Relies on `ahash::AHashMap::get`: the entry under `k`, if any.
#[verifier::external_body]
fn table_get(
    m: &ahash::AHashMap<TextureKey, TextureEntry>,
    k: &TextureKey,
) -> (r: Option<TextureEntry>)
    ensures
        r == (if table_entries(*m).contains_key(*k) {
            Some(table_entries(*m)[*k])
        } else {
            None
        }),
{
    m.get(k).copied()
}

/// Relies on `ahash::AHashMap::insert`: `v` stands under `k` afterwards, the
/// other entries stay, and the entry it replaced is returned.
#[verifier::external_body]
fn table_insert(
    m: &mut ahash::AHashMap<TextureKey, TextureEntry>,
    k: TextureKey,
    v: TextureEntry,
) -> (r: Option<TextureEntry>)
    ensures
        table_entries(*final(m)) == table_entries(*old(m)).insert(k, v),
        r == (if table_entries(*old(m)).contains_key(k) {
            Some(table_entries(*old(m))[k])
        } else {
            None
        }),
{
    m.insert(k, v)
}

/// Relies on `ahash::AHashMap::remove`: nothing stands under `k` afterwards,
/// the other entries stay, and the entry removed is returned.
#[verifier::external_body]
fn table_remove(
    m: &mut ahash::AHashMap<TextureKey, TextureEntry>,
    k: &TextureKey,
) -> (r: Option<TextureEntry>)
    ensures
        table_entries(*final(m)) == table_entries(*old(m)).remove(*k),
        r == (if table_entries(*old(m)).contains_key(*k) {
            Some(table_entries(*old(m))[*k])
        } else {
            None
        }),
{
    m.remove(k)
}

/// Relies on `ahash::AHashMap::drain` (through `Deref` to `HashMap`): the
/// map is left empty, and the entries it held are handed out, as many as
/// it held.
#[verifier::external_body]
fn table_drain(m: &mut ahash::AHashMap<TextureKey, TextureEntry>) -> (r: Vec<TextureEntry>)
    ensures
        table_entries(*final(m)) == empty_table(),
        r@.len() == table_entries(*old(m)).dom().len(),
        forall|i: int|
            0 <= i < r@.len() ==> table_entries(*old(m)).values().contains(#[trigger] r@[i]),
        forall|k: TextureKey|
            #[trigger] table_entries(*old(m)).contains_key(k) ==> r@.contains(
                table_entries(*old(m))[k],
            ),
{
    m.drain().map(|(_, v)| v).collect()
}

/// Where an image update lands: a whole new image, or a patch of an
/// existing one whose top-left corner is at `pos`.
#[derive(Clone, Copy, Debug)]
pub struct ImageRegion {
    pub width: u32,
    pub height: u32,
    pub pos: Option<(u32, u32)>,
}

/// The GPU work that an image update calls for.
#[derive(Clone, Copy)]
pub enum TextureUpload {
    /// Allocate a new RGBA8 image of this size, with one mip level, fill it,
    /// and hand it to [`TextureCache::store`].
    Allocate { width: u32, height: u32 },
    /// Copy the pixels into this region of an image that is already cached.
    Patch { image: grr::Image, x: u32, y: u32, width: u32, height: u32 },
    /// Nothing to do: a patch for a texture that is not cached.
    Skip,
}

/// The GPU images of the textures, by identifier.
pub struct TextureCache {
    textures: ahash::AHashMap<TextureKey, TextureEntry>,
}

impl TextureCache {
    /// The cached entries, by key.
    pub closed spec fn entries(&self) -> Map<TextureKey, TextureEntry> {
        table_entries(self.textures)
    }

    /// The entry of `id` in `m`, if any.
    pub open spec fn entry_in(
        m: Map<TextureKey, TextureEntry>,
        id: TextureId,
    ) -> Option<TextureEntry> {
        if m.contains_key(id.spec_key()) {
            Some(m[id.spec_key()])
        } else {
            None
        }
    }

    pub open spec fn spec_entry(&self, id: TextureId) -> Option<TextureEntry> {
        Self::entry_in(self.entries(), id)
    }

    /// The work that an update of `id` in `region` calls for, given the
    /// entries `m`.
    pub open spec fn upload_of(
        m: Map<TextureKey, TextureEntry>,
        id: TextureId,
        region: ImageRegion,
    ) -> TextureUpload {
        match region.pos {
            None => TextureUpload::Allocate { width: region.width, height: region.height },
            Some(p) => match Self::entry_in(m, id) {
                Some(e) => TextureUpload::Patch {
                    image: e.image,
                    x: p.0,
                    y: p.1,
                    width: region.width,
                    height: region.height,
                },
                None => TextureUpload::Skip,
            },
        }
    }

    /// The entries `m` once `image`, of `width` by `height` pixels, is
    /// recorded as the texture `id`.
    pub open spec fn stored(
        m: Map<TextureKey, TextureEntry>,
        id: TextureId,
        image: grr::Image,
        width: u32,
        height: u32,
    ) -> Map<TextureKey, TextureEntry> {
        m.insert(id.spec_key(), TextureEntry { image, width, height })
    }

    /// The entries `m` once the texture `id` is freed.
    pub open spec fn freed(
        m: Map<TextureKey, TextureEntry>,
        id: TextureId,
    ) -> Map<TextureKey, TextureEntry> {
        m.remove(id.spec_key())
    }

    /// An empty cache.
    pub fn new() -> (r: TextureCache)
        ensures
            r.entries() == empty_table(),
    {
        TextureCache { textures: table_new() }
    }

    /// The cached entry of `id`, if any.
    pub fn lookup(&self, id: TextureId) -> (r: Option<TextureEntry>)
        ensures
            r == self.spec_entry(id),
    {
        table_get(&self.textures, &id.key())
    }

    /// The work that an update of `id` in `region` calls for. A whole image
    /// is always allocated anew; a patch goes into the cached image of `id`,
    /// and is skipped when there is none.
    pub fn plan_upload(&self, id: TextureId, region: ImageRegion) -> (r: TextureUpload)
        ensures
            r == Self::upload_of(self.entries(), id, region),
    {
        match region.pos {
            None => TextureUpload::Allocate { width: region.width, height: region.height },
            Some(p) => match self.lookup(id) {
                Some(e) => TextureUpload::Patch {
                    image: e.image,
                    x: p.0,
                    y: p.1,
                    width: region.width,
                    height: region.height,
                },
                None => TextureUpload::Skip,
            },
        }
    }

    /// Records `image`, just allocated with `width` by `height` pixels, as
    /// the texture `id`. The entry it replaces, if any, is returned so that
    /// its image can be deleted.
    pub fn store(
        &mut self,
        id: TextureId,
        image: grr::Image,
        width: u32,
        height: u32,
    ) -> (r: Option<TextureEntry>)
        ensures
            final(self).entries() == Self::stored(old(self).entries(), id, image, width, height),
            r == old(self).spec_entry(id),
    {
        table_insert(&mut self.textures, id.key(), TextureEntry { image, width, height })
    }

    /// Removes every texture and hands out the removed entries, as many as
    /// there were, so that their images can be deleted.
    pub fn clear(&mut self) -> (r: Vec<TextureEntry>)
        ensures
            final(self).entries() == empty_table(),
            r@.len() == old(self).entries().dom().len(),
            forall|i: int|
                0 <= i < r@.len() ==> old(self).entries().values().contains(#[trigger] r@[i]),
            forall|k: TextureKey|
                #[trigger] old(self).entries().contains_key(k) ==> r@.contains(
                    old(self).entries()[k],
                ),
    {
        table_drain(&mut self.textures)
    }

    /// Removes the texture `id`. The entry removed, if any, is returned so
    /// that its image can be deleted; without one nothing changes.
    pub fn free(&mut self, id: TextureId) -> (r: Option<TextureEntry>)
        ensures
            final(self).entries() == Self::freed(old(self).entries(), id),
            r == old(self).spec_entry(id),
    {
        table_remove(&mut self.textures, &id.key())
    }
}

/// A whole-image update allocates an image of the update's size, and once
/// that image is stored, looking the texture up gives it with that size.
pub proof fn lemma_lookup_after_full_upload(
    m: Map<TextureKey, TextureEntry>,
    id: TextureId,
    region: ImageRegion,
    image: grr::Image,
)
    requires
        region.pos is None,
    ensures
        TextureCache::upload_of(m, id, region) == (TextureUpload::Allocate {
            width: region.width,
            height: region.height,
        }),
        TextureCache::entry_in(
            TextureCache::stored(m, id, image, region.width, region.height),
            id,
        ) == Some(TextureEntry { image, width: region.width, height: region.height }),
{
}

/// After a whole-image update of `id`, a patch of `id` allocates nothing:
/// it is copied into the image that the whole update stored, which stays the
/// one image cached for `id`.
pub proof fn lemma_patch_reuses_image(
    m: Map<TextureKey, TextureEntry>,
    id: TextureId,
    full: ImageRegion,
    patch: ImageRegion,
    image: grr::Image,
)
    requires
        full.pos is None,
        patch.pos is Some,
    ensures
        ({
            let after = TextureCache::stored(m, id, image, full.width, full.height);
            &&& TextureCache::upload_of(after, id, patch) == (TextureUpload::Patch {
                image,
                x: patch.pos.unwrap().0,
                y: patch.pos.unwrap().1,
                width: patch.width,
                height: patch.height,
            })
            &&& TextureCache::entry_in(after, id) == Some(
                TextureEntry { image, width: full.width, height: full.height },
            )
        }),
{
}

/// Once `id` is freed, looking it up finds nothing, whatever was cached.
pub proof fn lemma_lookup_after_free(m: Map<TextureKey, TextureEntry>, id: TextureId)
    ensures
        TextureCache::entry_in(TextureCache::freed(m, id), id) is None,
{
}

} // verus!
