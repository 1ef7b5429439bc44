//! The Unicode facts the grid depends on: display widths, general categories and
//! grapheme cluster boundaries. Each comes from the crate that maintains the tables.

use unicode_properties::{GeneralCategoryGroup, UnicodeGeneralCategory};
use unicode_segmentation::UnicodeSegmentation;
use unicode_width::{UnicodeWidthChar, UnicodeWidthStr};
use vstd::prelude::*;

verus! {

/// The most general classification of a character.
#[derive(Clone, Copy, PartialEq, Eq, Debug, Structural)]
pub enum CategoryGroup {
    Letter,
    Mark,
    Number,
    Punctuation,
    Symbol,
    Separator,
    Other,
}

/// The `unicode-width` width of a character: `None` for control characters.
pub uninterp spec fn spec_char_width(c: char) -> Option<usize>;

/// The `unicode-width` width of a string.
pub uninterp spec fn spec_str_width(s: Seq<char>) -> usize;

/// The general category group of a character, from `unicode-properties`.
pub uninterp spec fn spec_category_group(c: char) -> CategoryGroup;

/// The extended grapheme clusters of a string, in order, from `unicode-segmentation`.
pub uninterp spec fn spec_graphemes(s: Seq<char>) -> Seq<Seq<char>>;

/// `UnicodeWidthChar::width`: the columns `c` occupies, or `None` for a control
/// character. The tables are the crate's; this names its answer.
#[verifier::external_body]
pub(crate) fn char_width(c: char) -> (w: Option<usize>)
    ensures
        w == spec_char_width(c),
{
    UnicodeWidthChar::width(c)
}

/// `UnicodeWidthStr::width`: the columns `s` occupies, with the crate's ligature
/// rules applied. The tables are the crate's; this names its answer.
#[verifier::external_body]
pub(crate) fn str_width(s: &str) -> (w: usize)
    ensures
        w == spec_str_width(s@),
{
    UnicodeWidthStr::width(s)
}

/// `UnicodeGeneralCategory::general_category_group`, variant for variant.
#[verifier::external_body]
pub(crate) fn category_group(c: char) -> (g: CategoryGroup)
    ensures
        g == spec_category_group(c),
{
    match c.general_category_group() {
        GeneralCategoryGroup::Letter => CategoryGroup::Letter,
        GeneralCategoryGroup::Mark => CategoryGroup::Mark,
        GeneralCategoryGroup::Number => CategoryGroup::Number,
        GeneralCategoryGroup::Punctuation => CategoryGroup::Punctuation,
        GeneralCategoryGroup::Symbol => CategoryGroup::Symbol,
        GeneralCategoryGroup::Separator => CategoryGroup::Separator,
        GeneralCategoryGroup::Other => CategoryGroup::Other,
    }
}

/// `UnicodeSegmentation::graphemes(s, true)`, collected: the extended grapheme
/// clusters of `s`, in order. Nothing is claimed of where the boundaries fall.
#[verifier::external_body]
pub(crate) fn graphemes(s: &str) -> (g: Vec<String>)
    ensures
        g@.map_values(|t: String| t@) == spec_graphemes(s@),
{
    s.graphemes(true).map(|t| t.to_string()).collect()
}

} // verus!
