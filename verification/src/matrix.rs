//! Moving the entries of a matrix held column by column.

use vstd::prelude::*;

verus! {

/// The transpose of the matrix whose columns are `data`: entry `j` of its
/// column `i` is entry `i` of column `j` of `data`. `fill` is only what the
/// result holds before the entries are copied.
pub fn transpose<T: Copy, const M: usize, const N: usize>(data: &[[T; M]; N], fill: T) -> (other:
    [[T; N]; M])
    ensures
        forall|i: int, j: int| 0 <= i < M && 0 <= j < N ==> other[i][j] == data[j][i],
{
    let mut other = [[fill; N]; M];
    for j in 0..N
        invariant
            forall|i: int, k: int| 0 <= i < M && 0 <= k < j ==> other[i][k] == data[k][i],
    {
        for i in 0..M
            invariant
                0 <= j < N,
                forall|r: int, k: int| 0 <= r < M && 0 <= k < j ==> other[r][k] == data[k][r],
                forall|r: int| 0 <= r < i ==> other[r][j as int] == data[j as int][r],
        {
            let mut row = other[i];
            row[j] = data[j][i];
            other[i] = row;
        }
    }
    other
}

} // verus!
