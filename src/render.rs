use vstd::prelude::*;

verus! {

/// Number of bounces after which a path only collects emitted light.
pub const MAX_DEPTH: usize = 50;

/// Whether a path that has already bounced `depth` times may scatter again;
/// past the cutoff the radiance at a hit is its emission alone.
pub fn may_scatter(depth: usize) -> (r: bool)
    ensures
        r == (depth < MAX_DEPTH),
{
    depth < MAX_DEPTH
}

/// The pixel at position `k` of a row-major walk over an image `width`
/// pixels wide: `(column, row)`.
pub open spec fn pixel_at(width: nat, k: nat) -> (u32, u32) {
    ((k % width) as u32, (k / width) as u32)
}

/// Every pixel of a `width` by `height` image, row by row from row 0, each
/// row from column 0.
pub fn pixel_coords(width: u32, height: u32) -> (r: Vec<(u32, u32)>)
    requires
        width as int * height as int <= usize::MAX,
    ensures
        r@.len() == width as int * height as int,
        forall|k: int| 0 <= k < r@.len() ==> #[trigger] r@[k] == pixel_at(width as nat, k as nat),
        forall|x: u32, y: u32|
            x < width && y < height ==> #[trigger] r@[y * width + x] == (x, y),
{
    let mut coords: Vec<(u32, u32)> = Vec::new();
    let mut j: u32 = 0;
    while j < height
        invariant
            0 <= j <= height,
            width as int * height as int <= usize::MAX,
            coords@.len() == j as int * width as int,
            forall|k: int| 0 <= k < coords@.len() ==> #[trigger] coords@[k] == pixel_at(width as nat, k as nat),
        decreases height - j,
    {
        let mut i: u32 = 0;
        while i < width
            invariant
                0 <= i <= width,
                0 <= j < height,
                width as int * height as int <= usize::MAX,
                coords@.len() == j as int * width as int + i as int,
                forall|k: int| 0 <= k < coords@.len() ==> #[trigger] coords@[k] == pixel_at(width as nat, k as nat),
            decreases width - i,
        {
            proof {
                let k = j as int * width as int + i as int;
                vstd::arithmetic::div_mod::lemma_fundamental_div_mod_converse(
                    k,
                    width as int,
                    j as int,
                    i as int,
                );
            }
            coords.push((i, j));
            i = i + 1;
        }
        proof {
            assert((j + 1) as int * width as int == j as int * width as int + width as int) by (nonlinear_arith);
        }
        j = j + 1;
    }
    assert(height as int * width as int == width as int * height as int) by (nonlinear_arith);
    assert forall|x: u32, y: u32| x < width && y < height implies #[trigger] coords@[y * width + x]
        == (x, y) by {
        assert(y * width + x < width * height) by (nonlinear_arith)
            requires
                x < width,
                y < height,
        ;
        vstd::arithmetic::div_mod::lemma_fundamental_div_mod_converse(
            y * width + x,
            width as int,
            y as int,
            x as int,
        );
    }
    coords
}

} // verus!
