//! Index arithmetic of the square height grid whose normals are computed
//! for lighting: the grid has `n + 1` points per row, stored row by row.

use vstd::prelude::*;

verus! {

/// The position of grid point (`x`, `z`) in the row-by-row storage of a
/// grid with `points_per_row` points per row.
pub open spec fn grid_point(points_per_row: int, x: int, z: int) -> int {
    z * points_per_row + x
}

/// The points whose heights give the normal at grid point (`x`, `z`) of a
/// grid of `n` squares per side: `None` for a point on the far row or the
/// far column (whose normal points straight up), else the point itself,
/// its neighbour in the next row and its neighbour in the next column,
/// in that order.
pub fn grid_normal_indices(n: usize, x: usize, z: usize) -> (r: Option<(usize, usize, usize)>)
    requires
        x <= n,
        z <= n,
        3 * (n + 1) * (n + 1) <= usize::MAX,
    ensures
        r is None <==> (x == n || z == n),
        r matches Some((a, b, c)) ==> {
            &&& a == grid_point(n + 1, x as int, z as int)
            &&& a == z * (n + 1) + x
            &&& b == a + n + 1
            &&& c == a + 1
            &&& b == grid_point(n + 1, x as int, z + 1)
            &&& c == grid_point(n + 1, x + 1, z as int)
            &&& b < (n + 1) * (n + 1)
            &&& c < (n + 1) * (n + 1)
        },
{
    if z == n || x == n {
        None
    } else {
        assert(n + 1 <= 3 * (n + 1) * (n + 1)) by (nonlinear_arith)
            requires
                n >= 0,
        ;
        let points_per_row: usize = n + 1;
        proof {
            let p = points_per_row as int;
            let zi = z as int;
            let xi = x as int;
            assert((zi + 1) * p + xi < p * p) by (nonlinear_arith)
                requires
                    0 <= zi < p - 1,
                    0 <= xi < p - 1,
            ;
            assert(zi * p + xi + 1 <= (zi + 1) * p + xi) by (nonlinear_arith)
                requires
                    0 <= xi < p - 1,
            ;
            assert(p * p <= 3 * p * p) by (nonlinear_arith)
                requires
                    p >= 1,
            ;
            assert((zi + 1) * p == zi * p + p) by (nonlinear_arith);
        }
        let a: usize = z * points_per_row + x;
        let b: usize = a + points_per_row;
        let c: usize = a + 1;
        Some((a, b, c))
    }
}


/// Storage positions run along a row and then row after row: the first
/// point of row 0 is at 0, the next point in a row is one further, and the
/// same point in the next row is one row length further.
pub proof fn lemma_grid_point_layout(points_per_row: int, x: int, z: int)
    ensures
        grid_point(points_per_row, x, 0) == x,
        grid_point(points_per_row, x + 1, z) == grid_point(points_per_row, x, z) + 1,
        grid_point(points_per_row, x, z + 1) == grid_point(points_per_row, x, z) + points_per_row,
{
    assert((z + 1) * points_per_row == z * points_per_row + points_per_row) by (nonlinear_arith);
}

} // verus!
