//! The four dictionary categories and the suffix rule that picks one.

use vstd::prelude::*;
use crate::text::{ends_with, has_suffix};

verus! {

/// A dictionary category. Each has a decompression context of its own;
/// `Default` is the one without a dictionary.
#[derive(Clone, Copy, Debug, PartialEq, Eq, Structural)]
pub enum Category {
    Default,
    Common,
    Pack,
    MapData,
}

/// The category of a name: map data, packs and size tables have suffixes of
/// their own, every other compressed name is `Common`, and a name that does
/// not show compression at all is `Default`.
pub open spec fn category_of(name: Seq<char>) -> Category {
    if ends_with(name, ".bcett.byml.zs"@) {
        Category::MapData
    } else if ends_with(name, ".pack.zs"@) {
        Category::Pack
    } else if ends_with(name, ".rsizetable.zs"@) {
        Category::Default
    } else if ends_with(name, ".zs"@) {
        Category::Common
    } else {
        Category::Default
    }
}

/// Classifies a file name by its suffix alone.
pub fn category_for(name: &str) -> (c: Category)
    ensures
        c == category_of(name@),
{
    if has_suffix(name, ".bcett.byml.zs") {
        Category::MapData
    } else if has_suffix(name, ".pack.zs") {
        Category::Pack
    } else if has_suffix(name, ".rsizetable.zs") {
        Category::Default
    } else if has_suffix(name, ".zs") {
        Category::Common
    } else {
        Category::Default
    }
}

} // verus!
