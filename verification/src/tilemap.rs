use vstd::prelude::*;

use crate::save::SaveFileData;


verus! {

/// The side, in tiles, of the map laid out before any save file is loaded.
pub const STARTING_MAP_SIDE: u32 = 32;

/// Whether a map of `size_x` by `size_y` tiles differs in size from the
/// universe of `save`.
pub open spec fn differs_from_save(size_x: int, size_y: int, save: SaveFileData) -> bool {
    size_x != save.x || size_y != save.y
}

/// Whether a map of `size_x` by `size_y` tiles must be laid out again to show
/// the universe of `save`: it must when either side differs.
pub fn needs_refill(size_x: u32, size_y: u32, save: &SaveFileData) -> (refill: bool)
    ensures
        refill == differs_from_save(size_x as int, size_y as int, *save),
        refill <==> (size_x != save.x || size_y != save.y),
{
    size_x != save.x || size_y != save.y
}

/// Whether the map is laid out again when the initialized tilemaps have the
/// sizes in `sizes`: only when there is exactly one of them, and its size
/// differs from the universe of `save`; with no tilemap, or with several,
/// nothing is laid out.
pub fn refill_single_tilemap(sizes: &[(u32, u32)], save: &SaveFileData) -> (refill: bool)
    ensures
        refill == (sizes.len() == 1 && differs_from_save(
            sizes[0].0 as int,
            sizes[0].1 as int,
            *save,
        )),
        refill <==> (sizes.len() == 1 && (sizes[0].0 != save.x || sizes[0].1 != save.y)),
{
    if sizes.len() == 1 {
        needs_refill(sizes[0].0, sizes[0].1, save)
    } else {
        false
    }
}

/// The map is laid out again exactly when one of its sides differs from the
/// loaded universe's: a map larger or smaller than the universe on either
/// side is laid out again, and only a map of the universe's own size is
/// kept.
pub proof fn lemma_refill_exactly_when_a_side_differs(size_x: u32, size_y: u32, save: SaveFileData)
    ensures
        differs_from_save(size_x as int, size_y as int, save) <==> (size_x != save.x || size_y
            != save.y),
        size_x > save.x ==> differs_from_save(size_x as int, size_y as int, save),
        size_y > save.y ==> differs_from_save(size_x as int, size_y as int, save),
        size_x < save.x ==> differs_from_save(size_x as int, size_y as int, save),
        size_y < save.y ==> differs_from_save(size_x as int, size_y as int, save),
        !differs_from_save(save.x as int, save.y as int, save),
{
}

/// The positions of the tiles of a map of `size_x` by `size_y` tiles, in the
/// order in which they are laid: column by column, and within a column from
/// the first row to the last.
pub fn tile_positions(size_x: u32, size_y: u32) -> (positions: Vec<(u32, u32)>)
    requires
        size_x as int * size_y as int <= usize::MAX,
    ensures
        positions.len() == size_x as int * size_y as int,
        forall|i: int|
            0 <= i < positions.len() ==> #[trigger] positions[i].0 == i / (size_y as int) && positions[i].1 == i % (size_y as int),
{
    let mut positions: Vec<(u32, u32)> = Vec::new();
    let mut x: u32 = 0;
    while x < size_x
        invariant
            x <= size_x,
            size_x as int * size_y as int <= usize::MAX,
            positions.len() == x as int * size_y as int,
            forall|i: int|
                0 <= i < positions.len() ==> #[trigger] positions[i].0 == i / (size_y as int) && positions[i].1 == i % (size_y as int),
        decreases size_x - x,
    {
        proof {
            vstd::arithmetic::mul::lemma_mul_is_distributive_add_other_way(size_y as int, x as int, 1);
            vstd::arithmetic::mul::lemma_mul_inequality(x as int + 1, size_x as int, size_y as int);
        }
        let mut y: u32 = 0;
        while y < size_y
            invariant
                x < size_x,
                y <= size_y,
                (x as int + 1) * size_y as int <= usize::MAX,
                (x as int + 1) * size_y as int == x as int * size_y as int + size_y as int,
                positions.len() == x as int * size_y as int + y as int,
                forall|i: int|
                    0 <= i < positions.len() ==> #[trigger] positions[i].0 == i / (size_y as int) && positions[i].1 == i % (size_y as int),
            decreases size_y - y,
        {
            proof {
                vstd::arithmetic::div_mod::lemma_fundamental_div_mod_converse(
                    positions.len() as int,
                    size_y as int,
                    x as int,
                    y as int,
                );
            }
            positions.push((x, y));
            y = y + 1;
        }
        x = x + 1;
    }
    positions
}

/// Every tile of the map is laid exactly once: the tile in column `x` and
/// row `y` is the one at index `x * size_y + y`, and no two indexes hold the
/// same tile.
pub proof fn lemma_tile_positions_cover(
    positions: Seq<(u32, u32)>,
    size_x: u32,
    size_y: u32,
    x: u32,
    y: u32,
)
    requires
        positions.len() == size_x as int * size_y as int,
        forall|i: int|
            0 <= i < positions.len() ==> #[trigger] positions[i].0 == i / (size_y as int) && positions[i].1 == i % (size_y as int),
        x < size_x,
        y < size_y,
    ensures
        0 <= x as int * size_y as int + y < positions.len(),
        positions[x as int * size_y as int + y] == (x, y),
        forall|j: int|
            0 <= j < positions.len() && #[trigger] positions[j] == (x, y) ==> j == x as int
                * size_y as int + y,
{
    let k = x as int * size_y as int + y;
    let sy = size_y as int;
    vstd::arithmetic::mul::lemma_mul_is_distributive_add_other_way(sy, x as int, 1);
    vstd::arithmetic::mul::lemma_mul_inequality(x as int + 1, size_x as int, sy);
    vstd::arithmetic::div_mod::lemma_fundamental_div_mod_converse(k, sy, x as int, y as int);
    // the tile at index k is (k / size_y, k % size_y), which is (x, y)
    assert(positions[k].0 == k / sy);
    assert(positions[k].1 == k % sy);
    assert forall|j: int|
        0 <= j < positions.len() && #[trigger] positions[j] == (x, y) implies j == k by {
        vstd::arithmetic::div_mod::lemma_fundamental_div_mod(j, sy);
        vstd::arithmetic::mul::lemma_mul_is_commutative(sy, j / sy);
    }
}

} // verus!
