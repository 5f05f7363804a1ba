//! Values for the four sides of a box.

use vstd::prelude::*;

verus! {

/// The values of the top, right, bottom and left side that a list of one to
/// four values gives. One value is for all sides; two are for top and bottom,
/// then right and left; three are for the top, the right and left, the bottom.
pub open spec fn expanded<T>(s: Seq<T>) -> Option<(T, T, T, T)> {
    if s.len() == 1 {
        Some((s[0], s[0], s[0], s[0]))
    } else if s.len() == 2 {
        Some((s[0], s[1], s[0], s[1]))
    } else if s.len() == 3 {
        Some((s[0], s[1], s[2], s[1]))
    } else if s.len() == 4 {
        Some((s[0], s[1], s[2], s[3]))
    } else {
        None
    }
}

/// Expands a list of one to four values to the four sides.
pub fn expand_sides<T: Copy>(values: &[T]) -> (r: Option<(T, T, T, T)>)
    ensures
        r == expanded(values@),
{
    let n: usize = values.len();
    if n == 1 {
        Some((values[0], values[0], values[0], values[0]))
    } else if n == 2 {
        Some((values[0], values[1], values[0], values[1]))
    } else if n == 3 {
        Some((values[0], values[1], values[2], values[1]))
    } else if n == 4 {
        Some((values[0], values[1], values[2], values[3]))
    } else {
        None
    }
}

/// The numbers below `n`.
pub fn first_numbers(n: usize) -> (r: Vec<usize>)
    ensures
        r@.len() == n,
        forall|i: int| 0 <= i < n ==> r@[i] == i,
{
    let mut r: Vec<usize> = Vec::new();
    let mut i: usize = 0;
    while i < n
        invariant
            i <= n,
            r@.len() == i,
            forall|k: int| 0 <= k < i ==> r@[k] == k,
        decreases n - i,
    {
        r.push(i);
        i += 1;
    }
    r
}

/// A shorter list means the same as the list of four that repeats its values.
pub proof fn short_lists_repeat<T>(s: Seq<T>)
    requires
        1 <= s.len() <= 3,
    ensures
        ({
            let right = if s.len() > 1 {
                s[1]
            } else {
                s[0]
            };
            let bottom = if s.len() > 2 {
                s[2]
            } else {
                s[0]
            };
            expanded(s) == expanded(seq![s[0], right, bottom, right])
        }),
{
}

/// The values of a list are for the top, the right, the bottom and the left side
/// in this order. A side without a value of its own has that of the side across;
/// the right one has that of the top.
pub proof fn sides_go_clockwise<T>(s: Seq<T>)
    ensures
        expanded(s) is Some <==> 1 <= s.len() <= 4,
        expanded(s) matches Some((top, right, bottom, left)) ==> {
            &&& top == s[0]
            &&& right == if s.len() > 1 {
                s[1]
            } else {
                top
            }
            &&& bottom == if s.len() > 2 {
                s[2]
            } else {
                top
            }
            &&& left == if s.len() > 3 {
                s[3]
            } else {
                right
            }
        },
{
}

} // verus!
