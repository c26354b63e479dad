//! Texel buffers: RGBA texels laid out as the bytes a GPU upload reads.

use vstd::prelude::*;

verus! {

/// Whether an image of `width` by `height` texels holds exactly `texels`.
pub open spec fn size_matches(width: nat, height: nat, texels: nat) -> bool {
    width * height == texels
}

/// Whether `width` by `height` matches the number of texels given.
pub fn image_size_matches(width: usize, height: usize, texels: usize) -> (r: bool)
    ensures
        r == size_matches(width as nat, height as nat, texels as nat),
{
    if width == 0 {
        return texels == 0;
    }
    let fits = height <= usize::MAX / width;
    if !fits {
        proof {
            assert(width * height > usize::MAX) by (nonlinear_arith)
                requires
                    width > 0,
                    height > usize::MAX / width,
            ;
        }
        return false;
    }
    proof {
        assert(width * height <= usize::MAX) by (nonlinear_arith)
            requires
                width > 0,
                height <= usize::MAX / width,
        ;
    }
    width * height == texels
}

/// The bytes of `texels`, four per texel, in texel order.
pub open spec fn texel_bytes(texels: Seq<[u8; 4]>) -> Seq<u8> {
    Seq::new(4 * texels.len(), |i: int| texels[i / 4][i % 4])
}

/// Lays `texels` out as bytes, red, green, blue, alpha for each texel in
/// turn.
pub fn flatten_texels(texels: &Vec<[u8; 4]>) -> (r: Vec<u8>)
    requires
        4 * texels@.len() <= usize::MAX,
    ensures
        r@ == texel_bytes(texels@),
{
    let mut out: Vec<u8> = Vec::new();
    let mut i: usize = 0;
    while i < texels.len()
        invariant
            i <= texels@.len(),
            4 * texels@.len() <= usize::MAX,
            out@.len() == 4 * i,
            forall|j: int| 0 <= j < 4 * i ==> #[trigger] out@[j] == texels@[j / 4][j % 4],
        decreases texels@.len() - i,
    {
        let t = texels[i];
        out.push(t[0]);
        out.push(t[1]);
        out.push(t[2]);
        out.push(t[3]);
        proof {
            assert forall|j: int| 0 <= j < 4 * (i + 1) implies #[trigger] out@[j] == texels@[j
                / 4][j % 4] by {
                if j >= 4 * i {
                    assert(j / 4 == i as int);
                }
            }
        }
        i = i + 1;
    }
    assert(out@ =~= texel_bytes(texels@));
    out
}

} // verus!
