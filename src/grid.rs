use vstd::prelude::*;

verus! {

/// The mathematical value of a grid: its rows, top to bottom.
pub open spec fn grid_view<T>(g: Vec<Vec<T>>) -> Seq<Seq<T>> {
    g@.map_values(|row: Vec<T>| row@)
}

/// `g` has exactly `height` rows of exactly `width` cells each.
pub open spec fn has_shape<T>(g: Seq<Seq<T>>, width: int, height: int) -> bool {
    &&& g.len() == height
    &&& forall|y: int| 0 <= y < height ==> #[trigger] g[y].len() == width
}

/// A `height` by `width` grid whose every cell is `value`.
pub open spec fn filled<T>(width: int, height: int, value: T) -> Seq<Seq<T>> {
    Seq::new(height as nat, |y: int| Seq::new(width as nat, |x: int| value))
}

/// One row of `width` copies of `value`.
fn filled_row<T: Copy>(width: usize, value: T) -> (r: Vec<T>)
    ensures
        r@ == Seq::new(width as nat, |x: int| value),
{
    let mut row: Vec<T> = Vec::new();
    let mut x: usize = 0;
    while x < width
        invariant
            x <= width,
            row@ == Seq::new(x as nat, |i: int| value),
        decreases width - x,
    {
        row.push(value);
        x = x + 1;
        assert(row@ =~= Seq::new(x as nat, |i: int| value));
    }
    row
}

/// Builds a `height` by `width` grid with every cell set to `value`.
pub fn filled_grid<T: Copy>(width: usize, height: usize, value: T) -> (r: Vec<Vec<T>>)
    ensures
        grid_view(r) == filled(width as int, height as int, value),
        has_shape(grid_view(r), width as int, height as int),
{
    let mut rows: Vec<Vec<T>> = Vec::new();
    let mut y: usize = 0;
    while y < height
        invariant
            y <= height,
            grid_view(rows) == filled(width as int, y as int, value),
        decreases height - y,
    {
        let row = filled_row(width, value);
        let ghost before = grid_view(rows);
        rows.push(row);
        assert(grid_view(rows) =~= before.push(row@));
        y = y + 1;
        assert(grid_view(rows) =~= filled(width as int, y as int, value));
    }
    rows
}

/// Builds a `height` by `width` grid whose cell in column `x` of row `y` is
/// `sample(x, y)`.
pub fn tabulate_grid<T, G: Fn(usize, usize) -> T>(width: usize, height: usize, sample: &G) -> (r:
    Vec<Vec<T>>)
    requires
        forall|x: usize, y: usize| x < width && y < height ==> sample.requires((x, y)),
    ensures
        has_shape(grid_view(r), width as int, height as int),
        forall|x: usize, y: usize|
            x < width && y < height ==> sample.ensures((x, y), #[trigger] grid_view(r)[y as int][x as int]),
{
    let mut rows: Vec<Vec<T>> = Vec::new();
    let mut y: usize = 0;
    while y < height
        invariant
            y <= height,
            forall|x: usize, y: usize| x < width && y < height ==> sample.requires((x, y)),
            has_shape(grid_view(rows), width as int, y as int),
            forall|x: usize, j: usize|
                x < width && j < y ==> sample.ensures((x, j), #[trigger] grid_view(rows)[j as int][x as int]),
        decreases height - y,
    {
        let mut row: Vec<T> = Vec::new();
        let mut x: usize = 0;
        while x < width
            invariant
                x <= width,
                y < height,
                forall|x: usize, y: usize| x < width && y < height ==> sample.requires((x, y)),
                row@.len() == x,
                forall|i: usize| i < x ==> sample.ensures((i, y), #[trigger] row@[i as int]),
            decreases width - x,
        {
            let v = sample(x, y);
            row.push(v);
            x = x + 1;
        }
        let ghost before = grid_view(rows);
        rows.push(row);
        assert(grid_view(rows) =~= before.push(row@));
        y = y + 1;
    }
    rows
}

} // verus!
