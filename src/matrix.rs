use vstd::prelude::*;

verus! {

/// Index in the parent of the `i`-th row (or column) of a submatrix that leaves
/// out the parent's row (or column) `k`.
pub open spec fn skip_index(k: int, i: int) -> int {
    if i < k {
        i
    } else {
        i + 1
    }
}

/// A grid of `n` rows of `n` entries each.
pub open spec fn is_square<T>(s: Seq<Seq<T>>, n: nat) -> bool {
    s.len() == n && forall|r: int| 0 <= r < n ==> (#[trigger] s[r]).len() == n
}

/// The transpose of a square grid given by its rows: entry `(r, c)` is the
/// entry `(c, r)` of `s`.
pub open spec fn transpose_of<T>(s: Seq<Seq<T>>) -> Seq<Seq<T>> {
    Seq::new(s.len(), |r: int| Seq::new(s.len(), |c: int| s[c][r]))
}

/// The square grid that is left of `s` when row `row` and column `col` are
/// removed.
pub open spec fn submatrix_of<T>(s: Seq<Seq<T>>, row: int, col: int) -> Seq<Seq<T>> {
    let n = (s.len() - 1) as nat;
    Seq::new(n, |i: int| Seq::new(n, |j: int| s[skip_index(row, i)][skip_index(col, j)]))
}

/// Transposing a square grid twice gives the grid back.
pub proof fn lemma_transpose_twice<T>(s: Seq<Seq<T>>, n: nat)
    requires
        is_square(s, n),
    ensures
        transpose_of(transpose_of(s)) == s,
{
    assert(transpose_of(transpose_of(s)) =~~= s);
}

/// Removing row `col` and column `row` from the transpose of a square grid gives
/// the transpose of what is left when row `row` and column `col` are removed
/// from the grid itself: the minors of a transpose are the transposed minors.
pub proof fn lemma_submatrix_of_transpose<T>(s: Seq<Seq<T>>, n: nat, row: int, col: int)
    requires
        is_square(s, n),
        0 <= row < n,
        0 <= col < n,
    ensures
        submatrix_of(transpose_of(s), col, row) == transpose_of(submatrix_of(s, row, col)),
        is_square(submatrix_of(s, row, col), (n - 1) as nat),
{
    assert(submatrix_of(transpose_of(s), col, row) =~~= transpose_of(submatrix_of(s, row, col)));
}

/// Row `r` of a grid of four columns, as an array.
pub open spec fn row4<T>(s: Seq<Seq<T>>, r: int) -> [T; 4] {
    [s[r][0], s[r][1], s[r][2], s[r][3]]
}

/// Column `c` of a grid of four rows, as an array.
pub open spec fn column4<T>(s: Seq<Seq<T>>, c: int) -> [T; 4] {
    [s[0][c], s[1][c], s[2][c], s[3][c]]
}

/// The rows of a transpose are the columns of the grid, and its columns are
/// the grid's rows.
pub proof fn lemma_rows_of_transpose<T>(s: Seq<Seq<T>>, i: int)
    requires
        is_square(s, 4),
        0 <= i < 4,
    ensures
        row4(transpose_of(s), i) == column4(s, i),
        column4(transpose_of(s), i) == row4(s, i),
{
}

/// Whether the cofactor in row `row` and column `col` is the negated minor:
/// the sign of a cofactor is `(-1)^(row + col)`.
pub fn cofactor_negated(row: usize, col: usize) -> (r: bool)
    requires
        row + col <= usize::MAX,
    ensures
        r == ((row + col) % 2 == 1),
{
    (row + col) % 2 == 1
}

/// The cofactor signs form a symmetric checkerboard: the sign at `(row, col)`
/// is the sign at `(col, row)`, so the signs of a transpose's cofactors are
/// the transposed signs.
pub proof fn lemma_cofactor_sign_symmetric(row: int, col: int)
    ensures
        ((row + col) % 2 == 1) == ((col + row) % 2 == 1),
{
}

/// A 2x2 matrix of scalars of type `T`.
#[derive(Clone, Copy, Debug, PartialEq)]
pub struct Matrix2x2<T> {
    m: [[T; 2]; 2],
}

impl<T> View for Matrix2x2<T> {
    type V = Seq<Seq<T>>;

    /// The rows of the matrix.
    closed spec fn view(&self) -> Seq<Seq<T>> {
        Seq::new(2, |r: int| Seq::new(2, |c: int| self.m[c][r]))
    }
}

impl<T> Matrix2x2<T> {
    /// The rows of a 2x2 matrix are 2 rows of 2 entries each.
    pub proof fn lemma_view_square(self)
        ensures
            is_square(self@, 2),
    {
    }
}

impl<T: Copy> Matrix2x2<T> {
    /// A matrix from its entries, row by row.
    pub fn new(m00: T, m01: T, m10: T, m11: T) -> (r: Self)
        ensures
            r@ == seq![seq![m00, m01], seq![m10, m11]],
    {
        let r = Matrix2x2 { m: [[m00, m10], [m01, m11]] };
        assert(r@ =~~= seq![seq![m00, m01], seq![m10, m11]]);
        r
    }

    /// The entry in row `row` and column `col`.
    pub fn get(&self, row: usize, col: usize) -> (r: T)
        requires
            row < 2,
            col < 2,
        ensures
            r == self@[row as int][col as int],
    {
        self.m[col][row]
    }

    /// Replaces the entry in row `row` and column `col`.
    pub fn set(&mut self, row: usize, col: usize, value: T)
        requires
            row < 2,
            col < 2,
        ensures
            final(self)@ == old(self)@.update(row as int, old(self)@[row as int].update(col as int, value)),
    {
        self.m[col][row] = value;
        assert(final(self)@ =~~= old(self)@.update(row as int, old(self)@[row as int].update(col as int, value)));
    }

    /// The matrix mirrored along its diagonal.
    pub fn transpose(&self) -> (r: Self)
        ensures
            r@ == transpose_of(self@),
    {
        let r = Matrix2x2::new(self.get(0, 0), self.get(1, 0), self.get(0, 1), self.get(1, 1));
        assert(r@ =~~= transpose_of(self@));
        r
    }
}

/// The two indices that a 3x3 matrix keeps when index `i` is left out, in order.
fn kept_of_three(i: usize) -> (r: (usize, usize))
    requires
        i < 3,
    ensures
        r.0 == skip_index(i as int, 0),
        r.1 == skip_index(i as int, 1),
{
    match i {
        0 => (1, 2),
        1 => (0, 2),
        _ => (0, 1),
    }
}

/// The three indices that a 4x4 matrix keeps when index `i` is left out, in order.
fn kept_of_four(i: usize) -> (r: (usize, usize, usize))
    requires
        i < 4,
    ensures
        r.0 == skip_index(i as int, 0),
        r.1 == skip_index(i as int, 1),
        r.2 == skip_index(i as int, 2),
{
    match i {
        0 => (1, 2, 3),
        1 => (0, 2, 3),
        2 => (0, 1, 3),
        _ => (0, 1, 2),
    }
}

/// A 3x3 matrix of scalars of type `T`.
#[derive(Clone, Copy, Debug, PartialEq)]
pub struct Matrix3x3<T> {
    m: [[T; 3]; 3],
}

impl<T> View for Matrix3x3<T> {
    type V = Seq<Seq<T>>;

    /// The rows of the matrix.
    closed spec fn view(&self) -> Seq<Seq<T>> {
        Seq::new(3, |r: int| Seq::new(3, |c: int| self.m[c][r]))
    }
}

impl<T> Matrix3x3<T> {
    /// The rows of a 3x3 matrix are 3 rows of 3 entries each.
    pub proof fn lemma_view_square(self)
        ensures
            is_square(self@, 3),
    {
    }
}

impl<T: Copy> Matrix3x3<T> {
    /// A matrix from its entries, row by row.
    pub fn new(m00: T, m01: T, m02: T, m10: T, m11: T, m12: T, m20: T, m21: T, m22: T) -> (r: Self)
        ensures
            r@ == seq![seq![m00, m01, m02], seq![m10, m11, m12], seq![m20, m21, m22]],
    {
        let r = Matrix3x3 { m: [[m00, m10, m20], [m01, m11, m21], [m02, m12, m22]] };
        assert(r@ =~~= seq![seq![m00, m01, m02], seq![m10, m11, m12], seq![m20, m21, m22]]);
        r
    }

    /// The entry in row `row` and column `col`.
    pub fn get(&self, row: usize, col: usize) -> (r: T)
        requires
            row < 3,
            col < 3,
        ensures
            r == self@[row as int][col as int],
    {
        self.m[col][row]
    }

    /// Replaces the entry in row `row` and column `col`.
    pub fn set(&mut self, row: usize, col: usize, value: T)
        requires
            row < 3,
            col < 3,
        ensures
            final(self)@ == old(self)@.update(row as int, old(self)@[row as int].update(col as int, value)),
    {
        self.m[col][row] = value;
        assert(final(self)@ =~~= old(self)@.update(row as int, old(self)@[row as int].update(col as int, value)));
    }

    /// The matrix mirrored along its diagonal.
    pub fn transpose(&self) -> (r: Self)
        ensures
            r@ == transpose_of(self@),
    {
        let r = Matrix3x3::new(
            self.get(0, 0), self.get(1, 0), self.get(2, 0),
            self.get(0, 1), self.get(1, 1), self.get(2, 1),
            self.get(0, 2), self.get(1, 2), self.get(2, 2),
        );
        assert(r@ =~~= transpose_of(self@));
        r
    }

    /// The 2x2 matrix left when row `row` and column `col` are removed.
    pub fn submatrix(&self, row: usize, col: usize) -> (r: Matrix2x2<T>)
        requires
            row < 3,
            col < 3,
        ensures
            r@ == submatrix_of(self@, row as int, col as int),
    {
        let (x0, x1) = kept_of_three(col);
        let (y0, y1) = kept_of_three(row);
        let r = Matrix2x2::new(self.get(y0, x0), self.get(y0, x1), self.get(y1, x0), self.get(y1, x1));
        assert(r@ =~~= submatrix_of(self@, row as int, col as int));
        r
    }
}

/// A 4x4 matrix of scalars of type `T`.
#[derive(Clone, Copy, Debug, PartialEq)]
pub struct Matrix4x4<T> {
    m: [[T; 4]; 4],
}

impl<T> View for Matrix4x4<T> {
    type V = Seq<Seq<T>>;

    /// The rows of the matrix.
    closed spec fn view(&self) -> Seq<Seq<T>> {
        Seq::new(4, |r: int| Seq::new(4, |c: int| self.m[c][r]))
    }
}

impl<T> Matrix4x4<T> {
    /// The rows of a 4x4 matrix are 4 rows of 4 entries each.
    pub proof fn lemma_view_square(self)
        ensures
            is_square(self@, 4),
    {
    }
}

impl<T: Copy> Matrix4x4<T> {
    /// A matrix from its entries, row by row.
    pub fn new(
        m00: T, m01: T, m02: T, m03: T,
        m10: T, m11: T, m12: T, m13: T,
        m20: T, m21: T, m22: T, m23: T,
        m30: T, m31: T, m32: T, m33: T,
    ) -> (r: Self)
        ensures
            r@ == seq![
                seq![m00, m01, m02, m03],
                seq![m10, m11, m12, m13],
                seq![m20, m21, m22, m23],
                seq![m30, m31, m32, m33],
            ],
    {
        let r = Matrix4x4 {
            m: [
                [m00, m10, m20, m30],
                [m01, m11, m21, m31],
                [m02, m12, m22, m32],
                [m03, m13, m23, m33],
            ],
        };
        assert(r@ =~~= seq![
            seq![m00, m01, m02, m03],
            seq![m10, m11, m12, m13],
            seq![m20, m21, m22, m23],
            seq![m30, m31, m32, m33],
        ]);
        r
    }

    /// The entry in row `row` and column `col`.
    pub fn get(&self, row: usize, col: usize) -> (r: T)
        requires
            row < 4,
            col < 4,
        ensures
            r == self@[row as int][col as int],
    {
        self.m[col][row]
    }

    /// Replaces the entry in row `row` and column `col`.
    pub fn set(&mut self, row: usize, col: usize, value: T)
        requires
            row < 4,
            col < 4,
        ensures
            final(self)@ == old(self)@.update(row as int, old(self)@[row as int].update(col as int, value)),
    {
        self.m[col][row] = value;
        assert(final(self)@ =~~= old(self)@.update(row as int, old(self)@[row as int].update(col as int, value)));
    }

    /// The matrix mirrored along its diagonal.
    pub fn transpose(&self) -> (r: Self)
        ensures
            r@ == transpose_of(self@),
    {
        let r = Matrix4x4::new(
            self.get(0, 0), self.get(1, 0), self.get(2, 0), self.get(3, 0),
            self.get(0, 1), self.get(1, 1), self.get(2, 1), self.get(3, 1),
            self.get(0, 2), self.get(1, 2), self.get(2, 2), self.get(3, 2),
            self.get(0, 3), self.get(1, 3), self.get(2, 3), self.get(3, 3),
        );
        assert(r@ =~~= transpose_of(self@));
        r
    }

    /// The 3x3 matrix left when row `row` and column `col` are removed.
    pub fn submatrix(&self, row: usize, col: usize) -> (r: Matrix3x3<T>)
        requires
            row < 4,
            col < 4,
        ensures
            r@ == submatrix_of(self@, row as int, col as int),
    {
        let (x0, x1, x2) = kept_of_four(col);
        let (y0, y1, y2) = kept_of_four(row);
        let r = Matrix3x3::new(
            self.get(y0, x0), self.get(y0, x1), self.get(y0, x2),
            self.get(y1, x0), self.get(y1, x1), self.get(y1, x2),
            self.get(y2, x0), self.get(y2, x1), self.get(y2, x2),
        );
        assert(r@ =~~= submatrix_of(self@, row as int, col as int));
        r
    }

    /// Row `r`, as an array.
    pub fn row(&self, r: usize) -> (out: [T; 4])
        requires
            r < 4,
        ensures
            out == row4(self@, r as int),
    {
        [self.get(r, 0), self.get(r, 1), self.get(r, 2), self.get(r, 3)]
    }

    /// Column `c`, as an array.
    pub fn column(&self, c: usize) -> (out: [T; 4])
        requires
            c < 4,
        ensures
            out == column4(self@, c as int),
    {
        [self.get(0, c), self.get(1, c), self.get(2, c), self.get(3, c)]
    }

    /// The matrix whose entry in row `r` and column `c` is `entry(r, c)`.
    pub fn from_fn<F: Fn(usize, usize) -> T>(entry: F) -> (out: Self)
        requires
            forall|r: usize, c: usize| r < 4 && c < 4 ==> entry.requires((r, c)),
        ensures
            forall|r: int, c: int| 0 <= r < 4 && 0 <= c < 4 ==> entry.ensures((r as usize, c as usize), #[trigger] out@[r][c]),
    {
        let m = [
            [entry(0, 0), entry(1, 0), entry(2, 0), entry(3, 0)],
            [entry(0, 1), entry(1, 1), entry(2, 1), entry(3, 1)],
            [entry(0, 2), entry(1, 2), entry(2, 2), entry(3, 2)],
            [entry(0, 3), entry(1, 3), entry(2, 3), entry(3, 3)],
        ];
        Matrix4x4 { m }
    }

    /// The inverse's layout: the entry in row `r` and column `c` comes from the
    /// cofactor in row `c` and column `r`, which `scaled_cofactor(c, r)` gives
    /// already divided by the determinant.
    pub fn inverse_layout<F: Fn(usize, usize) -> T>(scaled_cofactor: F) -> (out: Self)
        requires
            forall|r: usize, c: usize| r < 4 && c < 4 ==> scaled_cofactor.requires((r, c)),
        ensures
            forall|r: int, c: int|
                0 <= r < 4 && 0 <= c < 4 ==> scaled_cofactor.ensures((c as usize, r as usize), #[trigger] out@[r][c]),
    {
        let m = [
            [scaled_cofactor(0, 0), scaled_cofactor(0, 1), scaled_cofactor(0, 2), scaled_cofactor(0, 3)],
            [scaled_cofactor(1, 0), scaled_cofactor(1, 1), scaled_cofactor(1, 2), scaled_cofactor(1, 3)],
            [scaled_cofactor(2, 0), scaled_cofactor(2, 1), scaled_cofactor(2, 2), scaled_cofactor(2, 3)],
            [scaled_cofactor(3, 0), scaled_cofactor(3, 1), scaled_cofactor(3, 2), scaled_cofactor(3, 3)],
        ];
        Matrix4x4 { m }
    }

    /// The product `self * rhs`: the entry in row `r` and column `c` is
    /// `dot(row r of self, column c of rhs)`.
    pub fn product_with<F: Fn([T; 4], [T; 4]) -> T>(&self, rhs: &Self, dot: F) -> (out: Self)
        requires
            forall|r: int, c: int| 0 <= r < 4 && 0 <= c < 4 ==> dot.requires((row4(self@, r), column4(rhs@, c))),
        ensures
            forall|r: int, c: int|
                0 <= r < 4 && 0 <= c < 4 ==> dot.ensures((row4(self@, r), column4(rhs@, c)), #[trigger] out@[r][c]),
    {
        let (r0, r1, r2, r3) = (self.row(0), self.row(1), self.row(2), self.row(3));
        let (c0, c1, c2, c3) = (rhs.column(0), rhs.column(1), rhs.column(2), rhs.column(3));
        let m = [
            [dot(r0, c0), dot(r1, c0), dot(r2, c0), dot(r3, c0)],
            [dot(r0, c1), dot(r1, c1), dot(r2, c1), dot(r3, c1)],
            [dot(r0, c2), dot(r1, c2), dot(r2, c2), dot(r3, c2)],
            [dot(r0, c3), dot(r1, c3), dot(r2, c3), dot(r3, c3)],
        ];
        Matrix4x4 { m }
    }

    /// The matrix applied to the column `v`: component `r` is
    /// `dot(row r of self, v)`.
    pub fn apply_with<F: Fn([T; 4], [T; 4]) -> T>(&self, v: [T; 4], dot: F) -> (out: [T; 4])
        requires
            forall|r: int| 0 <= r < 4 ==> dot.requires((row4(self@, r), v)),
        ensures
            forall|r: int| 0 <= r < 4 ==> dot.ensures((row4(self@, r), v), #[trigger] out[r]),
    {
        [dot(self.row(0), v), dot(self.row(1), v), dot(self.row(2), v), dot(self.row(3), v)]
    }
}

} // verus!
