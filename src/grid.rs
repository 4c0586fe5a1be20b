//! The occupancy grid and the generator of its fixed wall pattern.

use array2d::Array2D;
use vstd::prelude::*;

verus! {

#[verifier::external_type_specification]
#[verifier::external_body]
#[verifier::reject_recursive_types(T)]
pub struct ExArray2D<T>(Array2D<T>);

/// What an array of cell codes holds, as its rows: `rows[r][c]` is the
/// element at row `r` and column `c`.
pub uninterp spec fn array_rows(a: Array2D<i32>) -> Seq<Seq<i32>>;

/// The rows of a `rows` by `columns` array with `value` in every place.
pub open spec fn uniform_rows(value: i32, rows: nat, columns: nat) -> Seq<Seq<i32>> {
    Seq::new(rows, |_r: int| Seq::new(columns, |_c: int| value))
}

/// Relies on `Array2D::filled_with`: a `rows` by `columns` array that holds
/// `value` everywhere. It allocates one `Vec` of `rows * columns` elements,
/// which must stay within `isize::MAX` bytes.
#[verifier::external_body]
fn filled_array(value: i32, rows: usize, columns: usize) -> (r: Array2D<i32>)
    requires
        rows * columns * 4 <= isize::MAX,
    ensures
        array_rows(r) == uniform_rows(value, rows as nat, columns as nat),
{
    Array2D::filled_with(value, rows, columns)
}

/// Relies on `Index<(usize, usize)>` of `Array2D`: the element at `(row, column)`.
/// It panics outside the array.
#[verifier::external_body]
fn array_get(a: &Array2D<i32>, row: usize, column: usize) -> (r: i32)
    requires
        row < array_rows(*a).len(),
        column < array_rows(*a)[row as int].len(),
    ensures
        r == array_rows(*a)[row as int][column as int],
{
    a[(row, column)]
}

/// Relies on `IndexMut<(usize, usize)>` of `Array2D`: writes the one element at
/// `(row, column)` and leaves the others. It panics outside the array.
#[verifier::external_body]
fn array_set(a: &mut Array2D<i32>, row: usize, column: usize, value: i32)
    requires
        row < array_rows(*old(a)).len(),
        column < array_rows(*old(a))[row as int].len(),
    ensures
        array_rows(*final(a)) == array_rows(*old(a)).update(
            row as int,
            array_rows(*old(a))[row as int].update(column as int, value),
        ),
{
    a[(row, column)] = value;
}

/// Code of a cell that nothing occupies.
pub const EMPTY: i32 = 0;

/// Code of a wall cell.
pub const WALL: i32 = 1;

/// The least width and height that hold the whole wall pattern.
pub const MIN_SIDE: usize = 26;

/// What one cell of the grid holds.
#[derive(Clone, Copy, Debug, PartialEq, Eq, Structural)]
pub enum Cell {
    Empty,
    Wall,
}

/// The cell that a stored code stands for.
pub open spec fn cell_of(code: i32) -> Cell {
    if code == WALL {
        Cell::Wall
    } else {
        Cell::Empty
    }
}

/// The straight wall segments: for each `i` in `10..20`, the cells
/// `(i, 5)`, `(5, i)`, `(i, 25)` and `(25, i)`.
pub open spec fn segment_wall(x: int, y: int) -> bool {
    segment_wall_below(20, x, y)
}

/// The part of the straight segments drawn for the parameters `10..n`.
pub open spec fn segment_wall_below(n: int, x: int, y: int) -> bool {
    ||| 10 <= x < n && (y == 5 || y == 25)
    ||| 10 <= y < n && (x == 5 || x == 25)
}

/// The four corner cells of parameters `i` and `j`: `(10 - i, 5 + j + i)`,
/// `(10 - i, 25 - j - i)`, `(20 + i, 5 + j + i)` and `(20 + i, 25 - j - i)`.
pub open spec fn corner_wall_at(i: int, j: int, x: int, y: int) -> bool {
    &&& (x == 10 - i || x == 20 + i)
    &&& (y == 5 + j + i || y == 25 - j - i)
}

/// The corner caps drawn for the parameter pairs before `(i, j)`, in the order
/// `i` in `0..5`, then `j` in `0..2`.
pub open spec fn corner_wall_before(i: int, j: int, x: int, y: int) -> bool {
    exists|a: int, b: int|
        0 <= a < 5 && 0 <= b < 2 && (a < i || (a == i && b < j)) && #[trigger] corner_wall_at(
            a,
            b,
            x,
            y,
        )
}

/// The corner caps: the cells of `corner_wall_at(i, j)` for `i` in `0..5`
/// and `j` in `0..2`.
pub open spec fn corner_wall(x: int, y: int) -> bool {
    corner_wall_before(5, 0, x, y)
}

/// Whether the generated map puts a wall at `(x, y)`.
pub open spec fn wall_pattern(x: int, y: int) -> bool {
    segment_wall(x, y) || corner_wall(x, y)
}

/// The cells of a generated `width` by `height` map, indexed `[x][y]`.
pub open spec fn generated_cells(width: nat, height: nat) -> Seq<Seq<i32>> {
    Seq::new(
        width,
        |x: int|
            Seq::new(
                height,
                |y: int|
                    if wall_pattern(x, y) {
                        WALL
                    } else {
                        EMPTY
                    },
            ),
    )
}

/// A fixed-size map of cells over `0 <= x < width`, `0 <= y < height`.
pub struct Grid {
    cells: Array2D<i32>,
    width: usize,
    height: usize,
}

/// The requested size is too small for the wall pattern.
#[derive(Clone, Copy, Debug, PartialEq, Eq, Structural)]
pub struct ConfigurationError {
    pub width: usize,
    pub height: usize,
}

impl View for Grid {
    type V = Seq<Seq<i32>>;

    closed spec fn view(&self) -> Seq<Seq<i32>> {
        array_rows(self.cells)
    }
}

impl Grid {
    pub closed spec fn spec_width(&self) -> nat {
        self.width as nat
    }

    pub closed spec fn spec_height(&self) -> nat {
        self.height as nat
    }

    /// The cells form `spec_width()` columns of `spec_height()` codes, each
    /// code `EMPTY` or `WALL`, and the whole fits one allocation.
    pub open spec fn wf(&self) -> bool {
        &&& self@.len() == self.spec_width()
        &&& forall|x: int| 0 <= x < self@.len() ==> #[trigger] self@[x].len() == self.spec_height()
        &&& forall|x: int, y: int|
            0 <= x < self.spec_width() && 0 <= y < self.spec_height() ==> (#[trigger] self@[x][y]
                == EMPTY || self@[x][y] == WALL)
        &&& self.spec_width() * self.spec_height() * 4 <= isize::MAX
    }

    pub fn width(&self) -> (r: usize)
        ensures
            r == self.spec_width(),
    {
        self.width
    }

    pub fn height(&self) -> (r: usize)
        ensures
            r == self.spec_height(),
    {
        self.height
    }

    /// The cell at `(x, y)`.
    pub fn cell(&self, x: usize, y: usize) -> (r: Cell)
        requires
            self.wf(),
            x < self.spec_width(),
            y < self.spec_height(),
        ensures
            r == cell_of(self@[x as int][y as int]),
    {
        if array_get(&self.cells, x, y) == WALL {
            Cell::Wall
        } else {
            Cell::Empty
        }
    }
}

/// What `generate(width, height)` returns: a grid of exactly that size with
/// walls exactly at `wall_pattern` when both sides are at least `MIN_SIDE`,
/// and otherwise the error that names the size.
pub open spec fn generate_result(width: usize, height: usize, r: Result<Grid, ConfigurationError>) -> bool {
    match r {
        Ok(g) => {
            &&& width >= MIN_SIDE && height >= MIN_SIDE
            &&& g.wf()
            &&& g.spec_width() == width && g.spec_height() == height
            &&& g@ == generated_cells(width as nat, height as nat)
        },
        Err(e) => {
            &&& (width < MIN_SIDE || height < MIN_SIDE)
            &&& e == ConfigurationError { width, height }
        },
    }
}

/// `rows` holds `width` rows of `height` codes each.
spec fn shaped(rows: Seq<Seq<i32>>, width: int, height: int) -> bool {
    &&& rows.len() == width
    &&& forall|x: int| 0 <= x < width ==> #[trigger] rows[x].len() == height
}

/// Puts a wall at `(x, y)` of a `width` by `height` array and leaves every
/// other cell as it was.
fn put_wall(cells: &mut Array2D<i32>, x: usize, y: usize, width: Ghost<int>, height: Ghost<int>)
    requires
        shaped(array_rows(*old(cells)), width@, height@),
        x < width@,
        y < height@,
    ensures
        shaped(array_rows(*final(cells)), width@, height@),
        forall|a: int, b: int|
            0 <= a < width@ && 0 <= b < height@ ==> #[trigger] array_rows(*final(cells))[a][b] == if a
                == x && b == y {
                WALL
            } else {
                array_rows(*old(cells))[a][b]
            },
{
    array_set(cells, x, y, WALL);
}

proof fn lemma_corner_step(i: int, j: int, x: int, y: int)
    requires
        0 <= i < 5,
        0 <= j < 2,
    ensures
        corner_wall_before(i, j + 1, x, y) == (corner_wall_before(i, j, x, y) || corner_wall_at(
            i,
            j,
            x,
            y,
        )),
{
    if corner_wall_at(i, j, x, y) {
        assert(corner_wall_before(i, j + 1, x, y));
    }
}

proof fn lemma_corner_next_row(i: int, x: int, y: int)
    requires
        0 <= i < 5,
    ensures
        corner_wall_before(i, 2, x, y) == corner_wall_before(i + 1, 0, x, y),
{
    if corner_wall_before(i + 1, 0, x, y) {
        let (a, b) = choose|a: int, b: int|
            0 <= a < 5 && 0 <= b < 2 && (a < i + 1 || (a == i + 1 && b < 0)) && #[trigger] corner_wall_at(a, b, x, y);
        assert(corner_wall_at(a, b, x, y));
    }
}

/// Builds the `width` by `height` map: every cell empty but the straight wall
/// segments and the corner caps of `wall_pattern`. Fails when either side is
/// under `MIN_SIDE`, before anything is allocated.
pub fn generate(width: usize, height: usize) -> (r: Result<Grid, ConfigurationError>)
    requires
        width >= MIN_SIDE && height >= MIN_SIDE ==> width * height * 4 <= isize::MAX,
    ensures
        generate_result(width, height, r),
{
    if width < MIN_SIDE || height < MIN_SIDE {
        return Err(ConfigurationError { width, height });
    }
    let mut cells = filled_array(EMPTY, width, height);
    let ghost w = width as int;
    let ghost h = height as int;
    for i in 10..20usize
        invariant
            width >= MIN_SIDE && height >= MIN_SIDE,
            w == width && h == height,
            shaped(array_rows(cells), w, h),
            forall|x: int, y: int|
                0 <= x < w && 0 <= y < h ==> #[trigger] array_rows(cells)[x][y] == if segment_wall_below(i as int, x, y) {
                    WALL
                } else {
                    EMPTY
                },
    {
        put_wall(&mut cells, i, 5, Ghost(w), Ghost(h));
        put_wall(&mut cells, 5, i, Ghost(w), Ghost(h));
        put_wall(&mut cells, i, 25, Ghost(w), Ghost(h));
        put_wall(&mut cells, 25, i, Ghost(w), Ghost(h));
    }
    for i in 0..5usize
        invariant
            width >= MIN_SIDE && height >= MIN_SIDE,
            w == width && h == height,
            shaped(array_rows(cells), w, h),
            forall|x: int, y: int|
                0 <= x < w && 0 <= y < h ==> #[trigger] array_rows(cells)[x][y] == if segment_wall(x, y)
                    || corner_wall_before(i as int, 0, x, y) {
                    WALL
                } else {
                    EMPTY
                },
    {
        for j in 0..2usize
            invariant
                width >= MIN_SIDE && height >= MIN_SIDE,
                w == width && h == height,
                i < 5,
                shaped(array_rows(cells), w, h),
                forall|x: int, y: int|
                    0 <= x < w && 0 <= y < h ==> #[trigger] array_rows(cells)[x][y] == if segment_wall(x, y)
                        || corner_wall_before(i as int, j as int, x, y) {
                        WALL
                    } else {
                        EMPTY
                    },
        {
            put_wall(&mut cells, 10 - i, 5 + j + i, Ghost(w), Ghost(h));
            put_wall(&mut cells, 10 - i, 25 - j - i, Ghost(w), Ghost(h));
            put_wall(&mut cells, 20 + i, 5 + j + i, Ghost(w), Ghost(h));
            put_wall(&mut cells, 20 + i, 25 - j - i, Ghost(w), Ghost(h));
            assert forall|x: int, y: int| 0 <= x < w && 0 <= y < h implies #[trigger] array_rows(cells)[x][y] == if segment_wall(x, y)
                || corner_wall_before(i as int, j + 1, x, y) {
                WALL
            } else {
                EMPTY
            } by {
                lemma_corner_step(i as int, j as int, x, y);
            }
        }
        assert forall|x: int, y: int| 0 <= x < w && 0 <= y < h implies #[trigger] array_rows(cells)[x][y] == if segment_wall(x, y)
            || corner_wall_before(i + 1, 0, x, y) {
            WALL
        } else {
            EMPTY
        } by {
            lemma_corner_next_row(i as int, x, y);
        }
    }
    let grid = Grid { cells, width, height };
    let ghost target = generated_cells(width as nat, height as nat);
    assert forall|x: int| 0 <= x < w implies #[trigger] grid@[x] =~= target[x] by {
        assert forall|y: int| 0 <= y < h implies grid@[x][y] == target[x][y] by {
            assert(grid@[x][y] == array_rows(cells)[x][y]);
        }
    }
    assert(grid@ =~= target);
    Ok(grid)
}

/// Generation is deterministic: two maps generated at the same size hold
/// the same cells, and two refusals name the same size.
pub proof fn generate_is_deterministic(
    width: usize,
    height: usize,
    first: Result<Grid, ConfigurationError>,
    second: Result<Grid, ConfigurationError>,
)
    requires
        generate_result(width, height, first),
        generate_result(width, height, second),
    ensures
        first is Ok <==> second is Ok,
        first is Ok ==> {
            let (a, b) = (first->Ok_0, second->Ok_0);
            &&& a@ == b@
            &&& a.spec_width() == b.spec_width()
            &&& a.spec_height() == b.spec_height()
        },
        first is Err ==> first == second,
{
}

} // verus!
