use vstd::prelude::*;
use crate::grid::{grid_view, has_shape};

verus! {

/// One kernel entry: a relative offset `(dx, dy)` and the weight of the cell
/// found there.
pub type KernelTerm<T> = ((i64, i64), T);

/// The cell `(x, y)` lies on a `width` by `height` grid.
pub open spec fn in_bounds(x: int, y: int, width: int, height: int) -> bool {
    0 <= x < width && 0 <= y < height
}

/// The kernel terms that reach cell `(x, y)` of `grid`, in kernel order, each
/// as the pair (weight, value of the neighbour). Terms whose target falls off
/// the grid are left out; nothing stands in for them.
pub open spec fn neighbor_terms<T>(
    kernel: Seq<KernelTerm<T>>,
    grid: Seq<Seq<T>>,
    width: int,
    height: int,
    x: int,
    y: int,
) -> Seq<(T, T)>
    decreases kernel.len(),
{
    if kernel.len() == 0 {
        Seq::empty()
    } else {
        let rest = neighbor_terms(kernel.drop_last(), grid, width, height, x, y);
        let ((dx, dy), weight) = kernel.last();
        if in_bounds(x + dx, y + dy, width, height) {
            rest.push((weight, grid[y + dy][x + dx]))
        } else {
            rest
        }
    }
}

/// Collects the in-bounds kernel terms of cell `(x, y)`: the neighbourhood
/// whose weighted sum drives that cell's update.
pub fn collect_neighbor_terms<T: Copy>(
    kernel: &Vec<KernelTerm<T>>,
    grid: &Vec<Vec<T>>,
    width: usize,
    height: usize,
    x: usize,
    y: usize,
) -> (r: Vec<(T, T)>)
    requires
        has_shape(grid_view(*grid), width as int, height as int),
    ensures
        r@ == neighbor_terms(kernel@, grid_view(*grid), width as int, height as int, x as int, y as int),
{
    let mut terms: Vec<(T, T)> = Vec::new();
    let mut i: usize = 0;
    while i < kernel.len()
        invariant
            i <= kernel@.len(),
            has_shape(grid_view(*grid), width as int, height as int),
            terms@ == neighbor_terms(
                kernel@.subrange(0, i as int),
                grid_view(*grid),
                width as int,
                height as int,
                x as int,
                y as int,
            ),
        decreases kernel.len() - i,
    {
        let ((dx, dy), weight) = kernel[i];
        let nx: i128 = x as i128 + dx as i128;
        let ny: i128 = y as i128 + dy as i128;
        proof {
            assert(kernel@.subrange(0, i + 1).drop_last() =~= kernel@.subrange(0, i as int));
        }
        if 0 <= nx && nx < width as i128 && 0 <= ny && ny < height as i128 {
            let row = &grid[ny as usize];
            assert(row@ == grid_view(*grid)[ny as int]);
            let value = row[nx as usize];
            terms.push((weight, value));
        }
        i = i + 1;
    }
    assert(kernel@.subrange(0, kernel@.len() as int) =~= kernel@);
    terms
}

/// On a grid of a single cell, every term that reaches the cell has the
/// offset (0, 0); so a kernel without such a term gives no terms at all, and
/// the cell's neighbour sum is empty.
pub proof fn lemma_single_cell_sees_only_itself<T>(kernel: Seq<KernelTerm<T>>, grid: Seq<Seq<T>>)
    requires
        has_shape(grid, 1, 1),
        forall|i: int| 0 <= i < kernel.len() ==> (#[trigger] kernel[i]).0 != (0i64, 0i64),
    ensures
        neighbor_terms(kernel, grid, 1, 1, 0, 0) == Seq::<(T, T)>::empty(),
    decreases kernel.len(),
{
    if kernel.len() > 0 {
        let shorter = kernel.drop_last();
        assert forall|i: int| 0 <= i < shorter.len() implies (#[trigger] shorter[i]).0 != (0i64, 0i64) by {
            assert(shorter[i] == kernel[i]);
        }
        lemma_single_cell_sees_only_itself(shorter, grid);
        assert(kernel.last() == kernel[kernel.len() - 1]);
    }
}

} // verus!
