use egui_grr::{
    blend_policy, BlendChannel, BlendFactor, COLOR_OFFSET, VERTEX_STRIDE,
    flatten_texels, image_size_matches, plan_draws, plan_mesh, ImageRegion, MeshInfo, PixelRect,
    TextureCache, TextureId, TextureUpload,
};

fn mesh(texture: TextureId, vertex_count: usize, index_count: usize) -> MeshInfo {
    MeshInfo {
        texture,
        clip: PixelRect { min_x: 0, min_y: 0, max_x: 100, max_y: 100 },
        vertex_count,
        index_count,
    }
}

#[test]
fn texture_keys_keep_namespaces_apart() {
    assert_eq!(TextureId::Managed(7).key(), (0, 7));
    assert_eq!(TextureId::User(7).key(), (1, 7));
    assert_ne!(TextureId::Managed(7).key(), TextureId::User(7).key());
}

#[test]
fn new_cache_is_empty() {
    let cache = TextureCache::new();
    assert!(cache.lookup(TextureId::Managed(0)).is_none());
    assert!(cache.lookup(TextureId::User(0)).is_none());
}

#[test]
fn free_then_lookup_is_absent() {
    let mut cache = TextureCache::new();
    assert!(cache.free(TextureId::Managed(3)).is_none());
    assert!(cache.lookup(TextureId::Managed(3)).is_none());
}

#[test]
fn clear_on_empty_cache_hands_out_nothing() {
    let mut cache = TextureCache::new();
    assert!(cache.clear().is_empty());
    assert!(cache.lookup(TextureId::User(1)).is_none());
}

#[test]
fn whole_image_update_allocates() {
    let cache = TextureCache::new();
    let region = ImageRegion { width: 64, height: 32, pos: None };
    match cache.plan_upload(TextureId::Managed(0), region) {
        TextureUpload::Allocate { width, height } => {
            assert_eq!(width, 64);
            assert_eq!(height, 32);
        }
        _ => panic!("a whole image must be allocated"),
    }
}

#[test]
fn patch_of_unknown_texture_is_skipped() {
    let cache = TextureCache::new();
    let region = ImageRegion { width: 8, height: 8, pos: Some((4, 4)) };
    assert!(matches!(cache.plan_upload(TextureId::User(9), region), TextureUpload::Skip));
}

#[test]
fn mesh_with_unknown_texture_is_not_drawn() {
    let cache = TextureCache::new();
    assert!(plan_mesh(&cache, [800, 600], &mesh(TextureId::Managed(0), 3, 3), 0).is_none());
    let meshes = vec![
        mesh(TextureId::Managed(0), 3, 3),
        mesh(TextureId::User(5), 4, 6),
    ];
    assert!(plan_draws(&cache, [800, 600], &meshes).is_empty());
}

#[test]
fn empty_mesh_is_not_drawn() {
    let cache = TextureCache::new();
    assert!(plan_mesh(&cache, [800, 600], &mesh(TextureId::Managed(0), 0, 0), 0).is_none());
    assert!(plan_draws(&cache, [800, 600], &Vec::new()).is_empty());
}

#[test]
fn texels_flatten_in_order() {
    let texels = vec![[1, 2, 3, 4], [5, 6, 7, 8]];
    assert_eq!(flatten_texels(&texels), vec![1, 2, 3, 4, 5, 6, 7, 8]);
    assert!(flatten_texels(&Vec::new()).is_empty());
}

#[test]
fn image_size_checks() {
    assert!(image_size_matches(4, 3, 12));
    assert!(!image_size_matches(4, 3, 11));
    assert!(image_size_matches(0, 5, 0));
    assert!(!image_size_matches(usize::MAX, 2, 0));
}

#[test]
fn blend_policy_is_premultiplied() {
    let p = blend_policy();
    assert_eq!(p.color, BlendChannel { src: BlendFactor::One, dst: BlendFactor::OneMinusSrcAlpha });
    assert_eq!(p.alpha, BlendChannel { src: BlendFactor::OneMinusDstAlpha, dst: BlendFactor::One });
    assert_eq!(VERTEX_STRIDE, 20);
    assert_eq!(COLOR_OFFSET, 16);
}
