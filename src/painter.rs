//! The mesh painter: one planned draw call per visible clipped mesh.

use vstd::prelude::*;
use crate::scissor::{PixelRect, ScissorRegion, scissor_of, scissor_region};
use crate::texture_cache::{
    TextureCache,
    TextureEntry,
    TextureId,
    TextureKey,
};

verus! {

/// The largest texture side, in pixels, that the painter accepts.
pub const MAX_TEXTURE_SIDE: usize = 4096;

/// Bytes from one vertex to the next: two 32-bit floats of position, two of
/// texture coordinate, and four bytes of color, tightly packed.
pub const VERTEX_STRIDE: u32 = 20;

/// Offset of the position within a vertex.
pub const POSITION_OFFSET: u32 = 0;

/// Offset of the texture coordinate within a vertex.
pub const TEXCOORD_OFFSET: u32 = 8;

/// Offset of the color within a vertex.
pub const COLOR_OFFSET: u32 = 16;

/// A factor of the blend equation `src * s + dst * d`.
#[derive(Clone, Copy, Debug, PartialEq, Eq, Structural)]
pub enum BlendFactor {
    One,
    OneMinusSrcAlpha,
    OneMinusDstAlpha,
}

/// The factors of one channel group, added together.
#[derive(Clone, Copy, Debug, PartialEq, Eq, Structural)]
pub struct BlendChannel {
    pub src: BlendFactor,
    pub dst: BlendFactor,
}

/// How a mesh's fragments are blended with what is already drawn.
#[derive(Clone, Copy, Debug, PartialEq, Eq, Structural)]
pub struct BlendPolicy {
    pub color: BlendChannel,
    pub alpha: BlendChannel,
}

/// The blend policy of every mesh. Colors come premultiplied by alpha, so
/// color is `src * 1 + dst * (1 - src_alpha)`; alpha is
/// `src * (1 - dst_alpha) + dst * 1`, which keeps the framebuffer's alpha
/// right for compositing.
pub fn blend_policy() -> (r: BlendPolicy)
    ensures
        r == (BlendPolicy {
            color: BlendChannel { src: BlendFactor::One, dst: BlendFactor::OneMinusSrcAlpha },
            alpha: BlendChannel { src: BlendFactor::OneMinusDstAlpha, dst: BlendFactor::One },
        }),
{
    BlendPolicy {
        color: BlendChannel { src: BlendFactor::One, dst: BlendFactor::OneMinusSrcAlpha },
        alpha: BlendChannel { src: BlendFactor::OneMinusDstAlpha, dst: BlendFactor::One },
    }
}

/// What the painter reads of a clipped mesh: its texture, its clip
/// rectangle in physical pixels, and the sizes of its buffers.
#[derive(Clone, Copy, Debug, PartialEq, Eq, Structural)]
pub struct MeshInfo {
    pub texture: TextureId,
    pub clip: PixelRect,
    pub vertex_count: usize,
    pub index_count: usize,
}

/// One indexed triangle-list draw of a mesh: viewport over the whole surface, the
/// scissor region, the image to sample, and the number of indices (drawn
/// from the first, as 32-bit indices, one instance).
#[derive(Clone, Copy)]
pub struct DrawCall {
    /// Position of the mesh in the frame's list.
    pub mesh: usize,
    pub image: grr::Image,
    pub viewport: [u32; 2],
    pub scissor: ScissorRegion,
    pub index_count: u32,
}

/// The draw call of `mesh`, at position `index` of its list, on a surface of
/// `dimensions`, given the cached entries `m`: none for an empty mesh or one
/// whose texture is not cached.
pub open spec fn mesh_draw(
    m: Map<TextureKey, TextureEntry>,
    dimensions: [u32; 2],
    mesh: MeshInfo,
    index: usize,
) -> Option<DrawCall> {
    if mesh.vertex_count == 0 || mesh.index_count == 0 {
        None
    } else {
        match TextureCache::entry_in(m, mesh.texture) {
            None => None,
            Some(e) => Some(
                DrawCall {
                    mesh: index,
                    image: e.image,
                    viewport: dimensions,
                    scissor: scissor_of(dimensions[0], dimensions[1], mesh.clip),
                    index_count: mesh.index_count as u32,
                },
            ),
        }
    }
}

/// The draw calls of `meshes`, in order: later ones draw over earlier ones.
pub open spec fn draws_of(
    m: Map<TextureKey, TextureEntry>,
    dimensions: [u32; 2],
    meshes: Seq<MeshInfo>,
) -> Seq<DrawCall>
    decreases meshes.len(),
{
    if meshes.len() == 0 {
        Seq::empty()
    } else {
        let rest = draws_of(m, dimensions, meshes.drop_last());
        match mesh_draw(m, dimensions, meshes.last(), (meshes.len() - 1) as usize) {
            Some(d) => rest.push(d),
            None => rest,
        }
    }
}

/// Every mesh has a 32-bit index count.
pub open spec fn indices_fit(meshes: Seq<MeshInfo>) -> bool {
    forall|i: int| 0 <= i < meshes.len() ==> #[trigger] meshes[i].index_count <= u32::MAX
}

/// The draw call of the mesh at position `index` of its list, or none where
/// the mesh is empty or its texture is not cached.
pub fn plan_mesh(
    textures: &TextureCache,
    dimensions: [u32; 2],
    mesh: &MeshInfo,
    index: usize,
) -> (r: Option<DrawCall>)
    requires
        mesh.index_count <= u32::MAX,
    ensures
        r == mesh_draw(textures.entries(), dimensions, *mesh, index),
{
    if mesh.vertex_count == 0 || mesh.index_count == 0 {
        return None;
    }
    match textures.lookup(mesh.texture) {
        None => None,
        Some(e) => Some(
            DrawCall {
                mesh: index,
                image: e.image,
                viewport: dimensions,
                scissor: scissor_region(dimensions, mesh.clip),
                index_count: mesh.index_count as u32,
            },
        ),
    }
}

/// The draw calls of a frame's meshes, with the textures of `textures`, on
/// a surface of `dimensions` pixels, in list order; meshes that are empty or
/// whose texture is not cached are skipped.
pub fn plan_draws(
    textures: &TextureCache,
    dimensions: [u32; 2],
    meshes: &Vec<MeshInfo>,
) -> (r: Vec<DrawCall>)
    requires
        indices_fit(meshes@),
    ensures
        r@ == draws_of(textures.entries(), dimensions, meshes@),
{
    let mut draws: Vec<DrawCall> = Vec::new();
    let mut i: usize = 0;
    while i < meshes.len()
        invariant
            i <= meshes@.len(),
            indices_fit(meshes@),
            draws@ == draws_of(textures.entries(), dimensions, meshes@.subrange(0, i as int)),
        decreases meshes@.len() - i,
    {
        let mesh = &meshes[i];
        let d = plan_mesh(textures, dimensions, mesh, i);
        proof {
            assert(meshes@.subrange(0, i + 1).drop_last() == meshes@.subrange(0, i as int));
            assert(meshes@.subrange(0, i + 1).last() == meshes@[i as int]);
        }
        match d {
            Some(d) => draws.push(d),
            None => {},
        }
        i = i + 1;
    }
    proof {
        assert(meshes@.subrange(0, meshes@.len() as int) == meshes@);
    }
    draws
}

/// The painter's state: the pipeline and vertex array made once for its whole
/// life, and the texture cache.
pub struct Painter {
    pub max_texture_side: usize,
    pub pipeline: grr::Pipeline,
    pub vertex_array: grr::VertexArray,
    pub textures: TextureCache,
}

impl Painter {
    /// A painter over `pipeline` and `vertex_array`, with no texture.
    pub fn new(pipeline: grr::Pipeline, vertex_array: grr::VertexArray) -> (r: Painter)
        ensures
            r.pipeline == pipeline,
            r.vertex_array == vertex_array,
            r.max_texture_side == MAX_TEXTURE_SIDE,
            r.textures.entries() == Map::<TextureKey, TextureEntry>::empty(),
    {
        Painter {
            max_texture_side: MAX_TEXTURE_SIDE,
            pipeline,
            vertex_array,
            textures: TextureCache::new(),
        }
    }

    /// The largest texture side, in pixels, that the painter accepts.
    pub fn max_texture_side(&self) -> (r: usize)
        ensures
            r == self.max_texture_side,
    {
        self.max_texture_side
    }

    /// The draw calls of a frame's meshes on a surface of `dimensions`
    /// pixels, in list order, with the painter's textures.
    pub fn paint_meshes(&self, dimensions: [u32; 2], meshes: &Vec<MeshInfo>) -> (r: Vec<DrawCall>)
        requires
            indices_fit(meshes@),
        ensures
            r@ == draws_of(self.textures.entries(), dimensions, meshes@),
    {
        plan_draws(&self.textures, dimensions, meshes)
    }

    /// Records `image`, just allocated and filled with a whole image of
    /// `width` by `height` pixels, as the texture `id`. Returns the entry it
    /// replaced, whose image the caller deletes.
    pub fn set_texture(
        &mut self,
        id: TextureId,
        image: grr::Image,
        width: u32,
        height: u32,
    ) -> (r: Option<TextureEntry>)
        ensures
            final(self).textures.entries() == TextureCache::stored(
                old(self).textures.entries(),
                id,
                image,
                width,
                height,
            ),
            r == old(self).textures.spec_entry(id),
            final(self).pipeline == old(self).pipeline,
            final(self).vertex_array == old(self).vertex_array,
            final(self).max_texture_side == old(self).max_texture_side,
    {
        self.textures.store(id, image, width, height)
    }

    /// Removes the texture `id`; returns its entry, whose image the caller
    /// deletes. Without such a texture nothing changes.
    pub fn free_texture(&mut self, id: TextureId) -> (r: Option<TextureEntry>)
        ensures
            final(self).textures.entries() == TextureCache::freed(old(self).textures.entries(), id),
            r == old(self).textures.spec_entry(id),
            final(self).pipeline == old(self).pipeline,
            final(self).vertex_array == old(self).vertex_array,
            final(self).max_texture_side == old(self).max_texture_side,
    {
        self.textures.free(id)
    }
}

/// A mesh whose texture is not cached adds no draw call, wherever it stands
/// in the list; alone, it gives none at all.
pub proof fn lemma_uncached_mesh_not_drawn(
    m: Map<TextureKey, TextureEntry>,
    dimensions: [u32; 2],
    meshes: Seq<MeshInfo>,
    mesh: MeshInfo,
)
    requires
        !m.contains_key(mesh.texture.spec_key()),
    ensures
        forall|index: usize| (#[trigger] mesh_draw(m, dimensions, mesh, index)) is None,
        draws_of(m, dimensions, meshes.push(mesh)) == draws_of(m, dimensions, meshes),
        draws_of(m, dimensions, seq![mesh]) == Seq::<DrawCall>::empty(),
{
    assert(meshes.push(mesh).drop_last() == meshes);
    assert(seq![mesh].drop_last() == Seq::<MeshInfo>::empty());
    assert(draws_of(m, dimensions, Seq::<MeshInfo>::empty()) == Seq::<DrawCall>::empty());
}

} // verus!
