//! Lookups the result getters make into per-segment, per-period tables,
//! where an index past the end reads as absent rather than panicking, and
//! the ways a list given by the caller is laid over or beside another.
use vstd::prelude::*;

verus! {

/// The entry at `row`, `col` of a table stored row by row, or `None` when
/// either index falls outside the table (rows may differ in length).
pub fn grid_get<T: Copy>(table: &Vec<Vec<T>>, row: usize, col: usize) -> (r: Option<T>)
    ensures
        r == (if row < table@.len() && col < table@[row as int]@.len() {
            Some(table@[row as int]@[col as int])
        } else {
            None
        }),
{
    if row < table.len() {
        let line = &table[row];
        if col < line.len() {
            return Some(line[col]);
        }
    }
    None
}

/// The entry at `i`, or `fallback` past the end of `v`.
pub fn get_or<T: Copy>(v: &Vec<T>, i: usize, fallback: T) -> (r: T)
    ensures
        r == (if i < v@.len() { v@[i as int] } else { fallback }),
{
    if i < v.len() {
        v[i]
    } else {
        fallback
    }
}

/// `v` cut or padded with `fill` to exactly `n` entries, keeping the
/// entries it already had in front.
pub fn resized<T: Copy>(v: &Vec<T>, n: usize, fill: T) -> (r: Vec<T>)
    ensures
        r@.len() == n,
        forall|i: int| 0 <= i < n ==> r@[i] == (if i < v@.len() { v@[i] } else { fill }),
{
    let mut out: Vec<T> = Vec::new();
    let mut i: usize = 0;
    while i < n
        invariant
            i <= n,
            out@.len() == i,
            forall|j: int| 0 <= j < i ==> out@[j] == (if j < v@.len() { v@[j] } else { fill }),
        decreases n - i,
    {
        out.push(get_or(v, i, fill));
        i = i + 1;
    }
    out
}

/// `current` with its first entries replaced by those of `given`, as far
/// as both lists and `limit` reach; the rest of `current` is kept.
pub fn overlay<T: Copy>(current: &Vec<T>, given: &Vec<T>, limit: usize) -> (r: Vec<T>)
    ensures
        r@.len() == current@.len(),
        forall|i: int|
            0 <= i < current@.len() ==> #[trigger] r@[i] == (if i < given@.len() && i < limit {
                given@[i]
            } else {
                current@[i]
            }),
{
    let mut out: Vec<T> = Vec::new();
    let mut i: usize = 0;
    while i < current.len()
        invariant
            i <= current@.len(),
            out@.len() == i,
            forall|j: int|
                0 <= j < i ==> #[trigger] out@[j] == (if j < given@.len() && j < limit {
                    given@[j]
                } else {
                    current@[j]
                }),
        decreases current@.len() - i,
    {
        if i < given.len() && i < limit {
            out.push(given[i]);
        } else {
            out.push(current[i]);
        }
        i = i + 1;
    }
    out
}

/// The entries of `a` and `b` side by side, position by position, as far
/// as the shorter list reaches.
pub fn paired<A: Copy, B: Copy>(a: &Vec<A>, b: &Vec<B>) -> (r: Vec<(A, B)>)
    ensures
        r@.len() == (if a@.len() <= b@.len() { a@.len() } else { b@.len() }),
        forall|i: int| 0 <= i < r@.len() ==> #[trigger] r@[i] == (a@[i], b@[i]),
{
    let n = if a.len() <= b.len() {
        a.len()
    } else {
        b.len()
    };
    let mut out: Vec<(A, B)> = Vec::new();
    let mut i: usize = 0;
    while i < n
        invariant
            n <= a@.len(),
            n <= b@.len(),
            i <= n,
            out@.len() == i,
            forall|j: int| 0 <= j < i ==> #[trigger] out@[j] == (a@[j], b@[j]),
        decreases n - i,
    {
        out.push((a[i], b[i]));
        i = i + 1;
    }
    out
}

} // verus!
