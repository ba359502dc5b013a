//! The arithmetic of a dense grid of cells: which place in storage a cell
//! has, and which cell a place in storage holds.

use vstd::prelude::*;
use vstd::arithmetic::div_mod::{
    lemma_div_denominator, lemma_div_pos_is_pos, lemma_fundamental_div_mod,
    lemma_fundamental_div_mod_converse, lemma_mod_pos_bound, lemma_multiply_divide_lt,
};

verus! {

/// Whether `(x, y, z)` names a cell of a grid that is `width` cells along
/// `x`, `height` along `y` and `depth` along `z`.
pub open spec fn in_grid(width: int, height: int, depth: int, x: int, y: int, z: int) -> bool {
    0 <= x < width && 0 <= y < height && 0 <= z < depth
}

/// Where the cell `(x, y, z)` is stored: layers of `y`, each of them rows
/// of `z`, each of them cells of `x`.
pub open spec fn index_of_cell(width: int, depth: int, x: int, y: int, z: int) -> int {
    y * (width * depth) + z * width + x
}

/// The coordinates of the cell stored at index `i`.
pub open spec fn cell_of_index(width: int, depth: int, i: int) -> (int, int, int) {
    (i % width, i / (width * depth), (i / width) % depth)
}

/// The cells of a grid are stored without gaps or overlaps: the index of a
/// cell is below the volume of the grid, and gives the cell's coordinates
/// back.
pub proof fn index_gives_the_cell_back(width: int, height: int, depth: int, x: int, y: int, z: int)
    requires
        in_grid(width, height, depth, x, y, z),
    ensures
        0 <= index_of_cell(width, depth, x, y, z) < width * height * depth,
        cell_of_index(width, depth, index_of_cell(width, depth, x, y, z)) == (x, y, z),
{
    let i = index_of_cell(width, depth, x, y, z);
    let row = y * depth + z;
    let layer = width * depth;
    assert(i == row * width + x && 0 <= row) by (nonlinear_arith)
        requires
            i == y * (width * depth) + z * width + x,
            row == y * depth + z,
            0 <= y,
            0 <= z,
            0 < depth,
    ;
    lemma_fundamental_div_mod_converse(i, width, row, x);
    lemma_fundamental_div_mod_converse(row, depth, y, z);
    assert(0 <= z * width + x < layer && 0 < layer) by (nonlinear_arith)
        requires
            0 <= x < width,
            0 <= z < depth,
            layer == width * depth,
    ;
    lemma_fundamental_div_mod_converse(i, layer, y, z * width + x);
    assert(0 <= i < width * height * depth) by (nonlinear_arith)
        requires
            i == y * layer + (z * width + x),
            0 <= z * width + x < layer,
            0 <= y < height,
            layer == width * depth,
    ;
}

/// Rows and layers follow each other in storage: the first cell has index
/// 0, the end of a row is the start of the next, the end of a layer is the
/// start of the next, and the end of the last layer is the volume.
pub proof fn rows_and_layers_follow(width: int, height: int, depth: int, y: int, z: int)
    ensures
        index_of_cell(width, depth, 0, 0, 0) == 0,
        index_of_cell(width, depth, width, y, z) == index_of_cell(width, depth, 0, y, z + 1),
        index_of_cell(width, depth, 0, y, depth) == index_of_cell(width, depth, 0, y + 1, 0),
        index_of_cell(width, depth, 0, height, 0) == width * height * depth,
{
    assert(0 * (width * depth) + 0 * width + 0 == 0 && y * (width * depth) + z * width + width
        == y * (width * depth) + (z + 1) * width + 0 && y * (width * depth) + depth * width + 0
        == (y + 1) * (width * depth) + 0 * width + 0 && height * (width * depth) + 0 * width + 0
        == width * height * depth) by (nonlinear_arith);
}

/// Every index below the volume of a grid is the index of one of its
/// cells.
pub proof fn cell_gives_the_index_back(width: int, height: int, depth: int, i: int)
    requires
        0 < width,
        0 < depth,
        0 <= i < width * height * depth,
    ensures
        in_grid(
            width,
            height,
            depth,
            cell_of_index(width, depth, i).0,
            cell_of_index(width, depth, i).1,
            cell_of_index(width, depth, i).2,
        ),
        index_of_cell(
            width,
            depth,
            cell_of_index(width, depth, i).0,
            cell_of_index(width, depth, i).1,
            cell_of_index(width, depth, i).2,
        ) == i,
{
    let row = i / width;
    let layer = width * depth;
    lemma_fundamental_div_mod(i, width);
    lemma_mod_pos_bound(i, width);
    lemma_div_pos_is_pos(i, width);
    lemma_fundamental_div_mod(row, depth);
    lemma_mod_pos_bound(row, depth);
    lemma_div_pos_is_pos(row, depth);
    lemma_div_denominator(i, width, depth);
    assert(i < layer * height) by (nonlinear_arith)
        requires
            i < width * height * depth,
            layer == width * depth,
    ;
    lemma_multiply_divide_lt(i, layer, height);
    let x = i % width;
    let y = row / depth;
    let z = row % depth;
    assert(y * (width * depth) + z * width + x == i) by (nonlinear_arith)
        requires
            i == width * row + x,
            row == depth * y + z,
    ;
}

} // verus!
