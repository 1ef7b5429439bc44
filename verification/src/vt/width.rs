//! How many cells a character occupies.
//!
//! This must agree with the `wcwidth()` the application on the other end of the pty
//! called, or the two disagree about where the cursor is and the screen corrupts.

use vstd::prelude::*;

use crate::vt::unicode::{category_group, char_width, spec_category_group, spec_char_width, CategoryGroup};

verus! {

/// Cells occupied by `c`: none for marks (spacing or not) and for the `Other` group
/// (format characters such as `ZWJ`, and controls); otherwise its width, or none.
pub open spec fn spec_char_cells(c: char) -> usize {
    match spec_category_group(c) {
        CategoryGroup::Mark => 0,
        CategoryGroup::Other => 0,
        _ => match spec_char_width(c) {
            Some(w) => w,
            None => 0,
        },
    }
}

/// The sum of [`spec_char_cells`] over the characters of `s`.
pub open spec fn spec_cluster_cells(s: Seq<char>) -> int
    decreases s.len(),
{
    if s.len() == 0 {
        0
    } else {
        spec_cluster_cells(s.drop_last()) + spec_char_cells(s.last())
    }
}

/// Cells occupied by `c`, matching what applications compute.
///
/// Applications sum `wcwidth()` over codepoints. Combining marks, both the
/// non-spacing kind and the spacing kind (like the Bengali vowel signs), occupy no
/// cell of their own. Format characters such as `ZWJ` do not either.
#[must_use]
pub fn char_cells(c: char) -> (n: usize)
    ensures
        n == spec_char_cells(c),
{
    match category_group(c) {
        CategoryGroup::Mark => 0,
        CategoryGroup::Other => 0,
        _ => match char_width(c) {
            Some(w) => w,
            None => 0,
        },
    }
}

/// Cells occupied by a grapheme cluster: the sum over its codepoints, or
/// `usize::MAX` where that sum does not fit.
#[must_use]
pub fn cluster_cells(cluster: &str) -> (n: usize)
    ensures
        spec_cluster_cells(cluster@) <= usize::MAX ==> n == spec_cluster_cells(cluster@),
        spec_cluster_cells(cluster@) > usize::MAX ==> n == usize::MAX,
{
    let chars = crate::strs::chars_of(cluster);
    let mut total: usize = 0;
    let mut overflow = false;
    let mut i: usize = 0;
    while i < chars.len()
        invariant
            i <= chars.len(),
            chars@ == cluster@,
            !overflow ==> total == spec_cluster_cells(cluster@.subrange(0, i as int)),
            overflow ==> spec_cluster_cells(cluster@.subrange(0, i as int)) > usize::MAX,
        decreases chars.len() - i,
    {
        let ghost prefix = cluster@.subrange(0, i as int);
        assert(cluster@.subrange(0, i + 1).drop_last() == prefix);
        let n = char_cells(chars[i]);
        if !overflow {
            if total > usize::MAX - n {
                overflow = true;
            } else {
                total = total + n;
            }
        }
        i = i + 1;
    }
    assert(cluster@.subrange(0, chars@.len() as int) == cluster@);
    if overflow {
        usize::MAX
    } else {
        total
    }
}

} // verus!
