//! Fixed-shape array plumbing between numpy-style buffers and the row/column
//! layouts of the vector and matrix types: shape checks, row-major
//! flattening, reading a matrix back from a flat buffer, and transposition.
//!
//! The element type is generic: the bindings use these with `f64` elements,
//! but nothing here inspects an element.

use vstd::prelude::*;
use vstd::arithmetic::div_mod::{
    lemma_fundamental_div_mod, lemma_fundamental_div_mod_converse, lemma_mod_pos_bound,
};

verus! {

/// The rows of a matrix held as a vector of row vectors.
pub open spec fn grid_view<T>(m: Seq<Vec<T>>) -> Seq<Seq<T>> {
    m.map_values(|row: Vec<T>| row@)
}

/// `m` has `rows` rows of `cols` elements each.
pub open spec fn is_grid<T>(m: Seq<Seq<T>>, rows: nat, cols: nat) -> bool {
    &&& m.len() == rows
    &&& forall|i: int| 0 <= i < rows ==> (#[trigger] m[i]).len() == cols
}

/// The transpose of a `rows` × `cols` matrix.
pub open spec fn transposed<T>(m: Seq<Seq<T>>, rows: nat, cols: nat) -> Seq<Seq<T>> {
    Seq::new(cols, |j: int| Seq::new(rows, |i: int| m[i][j]))
}

/// The row-major flattening of a `rows` × `cols` matrix.
pub open spec fn flattened<T>(m: Seq<Seq<T>>, rows: nat, cols: nat) -> Seq<T> {
    Seq::new(rows * cols, |k: int| m[k / (cols as int)][k % (cols as int)])
}

/// The `rows` × `cols` matrix whose row-major flattening is `data`.
pub open spec fn unflattened<T>(data: Seq<T>, rows: nat, cols: nat) -> Seq<Seq<T>> {
    Seq::new(rows, |i: int| Seq::new(cols, |j: int| data[i * cols + j]))
}

/// Number of elements of an array with the given shape.
pub open spec fn shape_size(shape: Seq<usize>) -> int
    decreases shape.len(),
{
    if shape.len() == 0 {
        1
    } else {
        shape[0] * shape_size(shape.drop_first())
    }
}

proof fn lemma_row_major_position(i: int, j: int, rows: int, cols: int)
    requires
        0 <= i < rows,
        0 <= j < cols,
    ensures
        0 <= i * cols + j < rows * cols,
        (i * cols + j) / cols == i,
        (i * cols + j) % cols == j,
{
    assert(0 <= i * cols + j < rows * cols) by (nonlinear_arith)
        requires
            0 <= i < rows,
            0 <= j < cols,
    ;
    lemma_fundamental_div_mod_converse(i * cols + j, cols, i, j);
}

/// Transposes a `rows` × `cols` matrix (`rows` is `m.len()`); used to move
/// between column-major and row-major layouts.
pub fn transpose<T: Copy>(m: &Vec<Vec<T>>, cols: usize) -> (t: Vec<Vec<T>>)
    requires
        is_grid(grid_view(m@), m@.len(), cols as nat),
    ensures
        is_grid(grid_view(t@), cols as nat, m@.len()),
        grid_view(t@) == transposed(grid_view(m@), m@.len(), cols as nat),
{
    let rows = m.len();
    let ghost g = grid_view(m@);
    let mut t: Vec<Vec<T>> = Vec::new();
    let mut j: usize = 0;
    while j < cols
        invariant
            j <= cols,
            rows == m@.len(),
            g == grid_view(m@),
            is_grid(g, rows as nat, cols as nat),
            t@.len() == j,
            forall|jj: int| 0 <= jj < j ==> (#[trigger] t@[jj])@.len() == rows,
            forall|jj: int, i: int|
                0 <= jj < j && 0 <= i < rows ==> #[trigger] t@[jj]@[i] == g[i][jj],
        decreases cols - j,
    {
        let mut column: Vec<T> = Vec::new();
        let mut i: usize = 0;
        while i < rows
            invariant
                i <= rows,
                j < cols,
                rows == m@.len(),
                g == grid_view(m@),
                is_grid(g, rows as nat, cols as nat),
                column@.len() == i,
                forall|ii: int| 0 <= ii < i ==> #[trigger] column@[ii] == g[ii][j as int],
            decreases rows - i,
        {
            assert(g[i as int] == m@[i as int]@);
            column.push(m[i][j]);
            i += 1;
        }
        t.push(column);
        j += 1;
    }
    assert(grid_view(t@) =~~= transposed(g, rows as nat, cols as nat));
    t
}

/// Flattens a `rows` × `cols` matrix row by row (`rows` is `m.len()`);
/// this is the buffer handed to numpy for a 2-D array.
pub fn flatten_rows<T: Copy>(m: &Vec<Vec<T>>, cols: usize) -> (flat: Vec<T>)
    requires
        is_grid(grid_view(m@), m@.len(), cols as nat),
    ensures
        flat@ == flattened(grid_view(m@), m@.len(), cols as nat),
{
    let rows = m.len();
    let ghost g = grid_view(m@);
    let mut flat: Vec<T> = Vec::new();
    let mut i: usize = 0;
    while i < rows
        invariant
            i <= rows,
            rows == m@.len(),
            g == grid_view(m@),
            is_grid(g, rows as nat, cols as nat),
            flat@.len() == i * cols,
            forall|k: int|
                0 <= k < i * cols ==> #[trigger] flat@[k] == g[k / (cols as int)][k % (cols as int)],
        decreases rows - i,
    {
        let mut j: usize = 0;
        while j < cols
            invariant
                i < rows,
                j <= cols,
                rows == m@.len(),
                g == grid_view(m@),
                is_grid(g, rows as nat, cols as nat),
                flat@.len() == i * cols + j,
                forall|k: int|
                    0 <= k < i * cols + j ==> #[trigger] flat@[k] == g[k / (cols as int)][k
                        % (cols as int)],
            decreases cols - j,
        {
            proof {
                lemma_row_major_position(i as int, j as int, rows as int, cols as int);
            }
            assert(g[i as int] == m@[i as int]@);
            flat.push(m[i][j]);
            j += 1;
        }
        assert((i + 1) * cols == i * cols + cols) by (nonlinear_arith);
        i += 1;
    }
    assert(flat@ =~= flattened(g, rows as nat, cols as nat));
    flat
}

/// Reads a `rows` × `cols` matrix out of a row-major buffer with the given
/// shape; `None` when the shape is not exactly `(rows, cols)`.
pub fn matrix_from_buffer<T: Copy>(shape: &[usize], data: &[T], rows: usize, cols: usize) -> (r:
    Option<Vec<Vec<T>>>)
    requires
        data@.len() == shape_size(shape@),
    ensures
        r is Some <==> shape@ == seq![rows, cols],
        r matches Some(m) ==> grid_view(m@) == unflattened(data@, rows as nat, cols as nat),
{
    if shape.len() != 2 || shape[0] != rows || shape[1] != cols {
        proof {
            if shape@ == seq![rows, cols] {
                assert(shape@.len() == 2);
            }
        }
        return None;
    }
    assert(shape@ =~= seq![rows, cols]);
    assert(shape@.drop_first().drop_first() =~= Seq::<usize>::empty());
    assert(shape_size(shape@.drop_first()) == cols) by {
        reveal_with_fuel(shape_size, 2);
    }
    assert(data@.len() == rows * cols);
    let mut m: Vec<Vec<T>> = Vec::new();
    let mut i: usize = 0;
    let mut k: usize = 0;
    while i < rows
        invariant
            i <= rows,
            data@.len() == rows * cols,
            k == i * cols,
            m@.len() == i,
            forall|ii: int| 0 <= ii < i ==> (#[trigger] m@[ii])@.len() == cols,
            forall|ii: int, jj: int|
                0 <= ii < i && 0 <= jj < cols ==> #[trigger] m@[ii]@[jj] == data@[ii * cols + jj],
        decreases rows - i,
    {
        let mut row: Vec<T> = Vec::new();
        let mut j: usize = 0;
        while j < cols
            invariant
                i < rows,
                j <= cols,
                data@.len() == rows * cols,
                k == i * cols + j,
                row@.len() == j,
                forall|jj: int| 0 <= jj < j ==> #[trigger] row@[jj] == data@[i * cols + jj],
            decreases cols - j,
        {
            proof {
                lemma_row_major_position(i as int, j as int, rows as int, cols as int);
            }
            row.push(data[k]);
            k += 1;
            j += 1;
        }
        m.push(row);
        assert((i + 1) * cols == i * cols + cols) by (nonlinear_arith);
        i += 1;
    }
    assert(grid_view(m@) =~~= unflattened(data@, rows as nat, cols as nat));
    Some(m)
}

/// Reads an `n`-element vector out of a buffer with the given shape; `None`
/// when the shape is not exactly `(n,)`.
pub fn vector_from_buffer<T: Copy>(shape: &[usize], data: &[T], n: usize) -> (r: Option<Vec<T>>)
    requires
        data@.len() == shape_size(shape@),
    ensures
        r is Some <==> shape@ == seq![n],
        r matches Some(v) ==> v@ == data@,
{
    if shape.len() != 1 || shape[0] != n {
        return None;
    }
    assert(shape@ =~= seq![n]);
    assert(shape@.drop_first() =~= Seq::<usize>::empty());
    assert(data@.len() == n) by {
        reveal_with_fuel(shape_size, 2);
    }
    let mut v: Vec<T> = Vec::new();
    let mut i: usize = 0;
    while i < n
        invariant
            i <= n,
            data@.len() == n,
            v@ == data@.take(i as int),
        decreases n - i,
    {
        v.push(data[i]);
        i += 1;
        assert(v@ =~= data@.take(i as int));
    }
    assert(data@.take(n as int) =~= data@);
    Some(v)
}

/// Accepts a sequence operand standing for an `n`-component value only when
/// it has exactly `n` items.
pub fn exact_components<T: Copy>(items: &[T], n: usize) -> (r: Option<Vec<T>>)
    ensures
        r is Some <==> items@.len() == n,
        r matches Some(v) ==> v@ == items@,
{
    if items.len() != n {
        return None;
    }
    let mut v: Vec<T> = Vec::new();
    let mut i: usize = 0;
    while i < n
        invariant
            i <= n,
            items@.len() == n,
            v@ == items@.take(i as int),
        decreases n - i,
    {
        v.push(items[i]);
        i += 1;
        assert(v@ =~= items@.take(i as int));
    }
    assert(items@.take(n as int) =~= items@);
    Some(v)
}

/// The top-left `r` × `c` block of a matrix with `cols` columns (a 3×3
/// rotation read out of a 4×4 transform).
pub fn leading_block<T: Copy>(m: &Vec<Vec<T>>, cols: usize, r: usize, c: usize) -> (b: Vec<
    Vec<T>,
>)
    requires
        is_grid(grid_view(m@), m@.len(), cols as nat),
        r <= m@.len(),
        c <= cols,
    ensures
        is_grid(grid_view(b@), r as nat, c as nat),
        forall|i: int, j: int|
            0 <= i < r && 0 <= j < c ==> #[trigger] grid_view(b@)[i][j] == grid_view(m@)[i][j],
{
    let ghost g = grid_view(m@);
    let mut b: Vec<Vec<T>> = Vec::new();
    let mut i: usize = 0;
    while i < r
        invariant
            i <= r,
            r <= m@.len(),
            c <= cols,
            g == grid_view(m@),
            is_grid(g, m@.len(), cols as nat),
            b@.len() == i,
            forall|ii: int| 0 <= ii < i ==> (#[trigger] b@[ii])@.len() == c,
            forall|ii: int, jj: int| 0 <= ii < i && 0 <= jj < c ==> #[trigger] b@[ii]@[jj] == g[ii][jj],
        decreases r - i,
    {
        let mut row: Vec<T> = Vec::new();
        let mut j: usize = 0;
        while j < c
            invariant
                i < r,
                j <= c,
                r <= m@.len(),
                c <= cols,
                g == grid_view(m@),
                is_grid(g, m@.len(), cols as nat),
                row@.len() == j,
                forall|jj: int| 0 <= jj < j ==> #[trigger] row@[jj] == g[i as int][jj],
            decreases c - j,
        {
            assert(g[i as int] == m@[i as int]@);
            row.push(m[i][j]);
            j += 1;
        }
        b.push(row);
        i += 1;
    }
    b
}

/// Accepts a list of rows standing for points of `width` coordinates only
/// when every row has exactly `width` items; on success, the rows.
pub fn uniform_rows<T: Copy>(rows: &Vec<Vec<T>>, width: usize) -> (r: Option<Vec<Vec<T>>>)
    ensures
        r is Some <==> is_grid(grid_view(rows@), rows@.len(), width as nat),
        r matches Some(m) ==> grid_view(m@) == grid_view(rows@),
{
    let ghost g = grid_view(rows@);
    let mut out: Vec<Vec<T>> = Vec::new();
    let mut i: usize = 0;
    while i < rows.len()
        invariant
            i <= rows@.len(),
            g == grid_view(rows@),
            out@.len() == i,
            forall|ii: int| 0 <= ii < i ==> g[ii].len() == width,
            forall|ii: int| 0 <= ii < i ==> (#[trigger] out@[ii])@ == g[ii],
        decreases rows@.len() - i,
    {
        assert(g[i as int] == rows@[i as int]@);
        match exact_components(rows[i].as_slice(), width) {
            Some(v) => {
                out.push(v);
            },
            None => {
                assert(!is_grid(g, rows@.len(), width as nat));
                return None;
            },
        }
        i += 1;
    }
    assert(grid_view(out@) =~= g);
    Some(out)
}

/// Why a pair of buffers cannot be used as a batch of points and the 4×4
/// transform to apply to them.
#[derive(Debug, Clone, Copy, PartialEq, Eq, Structural)]
pub enum BatchShapeError {
    /// The transform is not a 4×4 array.
    TransformNot4x4,
    /// The points are not an (N, 3) array.
    PointsNotNx3,
}

/// Number of points in an (N, 3) array of the given shape, or `None` when
/// the array is not (N, 3).
pub fn point_rows(shape: &[usize]) -> (r: Option<usize>)
    ensures
        r is Some <==> (shape@.len() == 2 && shape@[1] == 3),
        r matches Some(n) ==> n == shape@[0],
{
    if shape.len() == 2 && shape[1] == 3 {
        Some(shape[0])
    } else {
        None
    }
}

/// Checks the shapes for transforming a batch of points by a 4×4 matrix:
/// the transform is checked first, then the points; on success, the number
/// of points.
pub fn batch_transform_rows(transform_shape: &[usize], points_shape: &[usize]) -> (r: Result<
    usize,
    BatchShapeError,
>)
    ensures
        transform_shape@ != seq![4usize, 4usize] ==> r == Err::<usize, BatchShapeError>(
            BatchShapeError::TransformNot4x4,
        ),
        transform_shape@ == seq![4usize, 4usize] && !(points_shape@.len() == 2 && points_shape@[1]
            == 3) ==> r == Err::<usize, BatchShapeError>(BatchShapeError::PointsNotNx3),
        transform_shape@ == seq![4usize, 4usize] && points_shape@.len() == 2 && points_shape@[1]
            == 3 ==> r == Ok::<usize, BatchShapeError>(points_shape@[0]),
{
    if !(transform_shape.len() == 2 && transform_shape[0] == 4 && transform_shape[1] == 4) {
        proof {
            if transform_shape@ == seq![4usize, 4usize] {
                assert(transform_shape@.len() == 2);
            }
        }
        return Err(BatchShapeError::TransformNot4x4);
    }
    assert(transform_shape@ =~= seq![4usize, 4usize]);
    match point_rows(points_shape) {
        Some(n) => Ok(n),
        None => Err(BatchShapeError::PointsNotNx3),
    }
}

/// Transposing twice gives back the matrix.
pub proof fn lemma_transpose_involutive<T>(m: Seq<Seq<T>>, rows: nat, cols: nat)
    requires
        is_grid(m, rows, cols),
    ensures
        is_grid(transposed(m, rows, cols), cols, rows),
        transposed(transposed(m, rows, cols), cols, rows) == m,
{
    let t = transposed(m, rows, cols);
    assert(transposed(t, cols, rows) =~~= m);
}

/// A matrix written out row by row and read back with the same shape is
/// the matrix itself (`to_numpy` followed by `from_numpy`).
pub proof fn lemma_unflatten_flatten<T>(m: Seq<Seq<T>>, rows: nat, cols: nat)
    requires
        is_grid(m, rows, cols),
    ensures
        flattened(m, rows, cols).len() == rows * cols,
        unflattened(flattened(m, rows, cols), rows, cols) == m,
{
    let f = flattened(m, rows, cols);
    assert forall|i: int, j: int| 0 <= i < rows && 0 <= j < cols implies #[trigger] f[i * cols
        + j] == m[i][j] by {
        lemma_row_major_position(i, j, rows as int, cols as int);
    }
    assert(unflattened(f, rows, cols) =~~= m);
}

/// A row-major buffer read as a matrix and written out again is the buffer
/// itself.
pub proof fn lemma_flatten_unflatten<T>(data: Seq<T>, rows: nat, cols: nat)
    requires
        data.len() == rows * cols,
    ensures
        is_grid(unflattened(data, rows, cols), rows, cols),
        flattened(unflattened(data, rows, cols), rows, cols) == data,
{
    let u = unflattened(data, rows, cols);
    let f = flattened(u, rows, cols);
    assert forall|k: int| 0 <= k < rows * cols implies #[trigger] f[k] == data[k] by {
        let c = cols as int;
        assert(c > 0) by (nonlinear_arith)
            requires
                0 <= k < rows * c,
                rows >= 0,
        ;
        lemma_fundamental_div_mod(k, c);
        lemma_mod_pos_bound(k, c);
        let q = k / c;
        let r = k % c;
        assert(0 <= q < rows) by (nonlinear_arith)
            requires
                k == c * q + r,
                0 <= r < c,
                0 <= k < rows * c,
        ;
        assert(q * c + r == k) by (nonlinear_arith)
            requires
                k == c * q + r,
        ;
    }
    assert(f =~= data);
}

/// Transposing swaps the two indices of every entry, whatever the shape:
/// entry (i, j) of a `rows` × `cols` matrix is entry (j, i) of its
/// `cols` × `rows` transpose.
pub proof fn lemma_transpose_swaps_indices<T>(m: Seq<Seq<T>>, rows: nat, cols: nat)
    requires
        is_grid(m, rows, cols),
    ensures
        is_grid(transposed(m, rows, cols), cols, rows),
        forall|i: int, j: int|
            0 <= i < rows && 0 <= j < cols ==> #[trigger] transposed(m, rows, cols)[j][i] == m[i][j],
{
}

} // verus!
