//! Row selections of a Dunham coefficient matrix `Y[l][k]`, whose row `l`
//! multiplies `(J(J+1))^l` and whose column `k` multiplies `(v+½)^k`. The
//! vibrational part of a term is the expansion of row 0 alone, its rotational
//! part the expansion of the other rows; both selections are fresh matrices and
//! leave the source matrix as it was.
use vstd::prelude::*;

verus! {

fn copy_row<T: Copy>(row: &Vec<T>) -> (r: Vec<T>)
    ensures
        r@ == row@,
{
    let mut r: Vec<T> = Vec::new();
    let mut k: usize = 0;
    while k < row.len()
        invariant
            k <= row@.len(),
            r@ == row@.subrange(0, k as int),
        decreases row@.len() - k,
    {
        r.push(row[k]);
        proof {
            assert(r@ =~= row@.subrange(0, k + 1));
        }
        k = k + 1;
    }
    proof {
        assert(r@ =~= row@);
    }
    r
}

/// The matrix that holds row 0 of `m` alone: the vibrational part of the
/// expansion. An empty matrix stays empty.
pub fn vibrational_rows<T: Copy>(m: &Vec<Vec<T>>) -> (r: Vec<Vec<T>>)
    ensures
        m@.len() == 0 ==> r@.len() == 0,
        m@.len() > 0 ==> r@.len() == 1 && r@[0]@ == m@[0]@,
{
    let mut r: Vec<Vec<T>> = Vec::new();
    if m.len() > 0 {
        r.push(copy_row(&m[0]));
    }
    r
}

/// The matrix `m` with row 0 emptied: the rotational part of the expansion.
pub fn rotational_rows<T: Copy>(m: &Vec<Vec<T>>) -> (r: Vec<Vec<T>>)
    ensures
        r@.len() == m@.len(),
        m@.len() > 0 ==> r@[0]@.len() == 0,
        forall|l: int| 0 < l < m@.len() ==> #[trigger] r@[l]@ == m@[l]@,
{
    let mut r: Vec<Vec<T>> = Vec::new();
    let mut l: usize = 0;
    while l < m.len()
        invariant
            l <= m@.len(),
            r@.len() == l,
            l > 0 ==> r@[0]@.len() == 0,
            forall|i: int| 0 < i < l ==> #[trigger] r@[i]@ == m@[i]@,
        decreases m@.len() - l,
    {
        if l == 0 {
            r.push(Vec::new());
        } else {
            r.push(copy_row(&m[l]));
        }
        l = l + 1;
    }
    r
}

} // verus!
