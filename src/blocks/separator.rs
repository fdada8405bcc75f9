use vstd::prelude::*;

use super::{segment_of, single_segment, BlockInterface, BlockOutput, SegmentView};
use crate::colors::Color;

verus! {

/// The text between two neighbouring blocks.
pub open spec fn separator_text() -> Seq<char> {
    " â€¹ "@
}

/// A cosmetic divider: always the same gray segment. Each divider of a bar
/// has a name of its own, so that the segments of one frame keep distinct
/// names.
#[derive(Debug)]
pub struct Separator {
    pub name: String,
}

impl Default for Separator {
    fn default() -> (r: Separator)
        ensures
            r.name@ == "separator"@,
    {
        Separator { name: String::from_str("separator") }
    }
}

impl Separator {
    /// A divider called `name`.
    pub fn named(name: &str) -> (r: Separator)
        ensures
            r.name@ == name@,
    {
        Separator { name: String::from_str(name) }
    }

    pub fn color(&self) -> (r: Color)
        ensures
            r == Color::Gray,
    {
        Color::Gray
    }

    pub fn text(&self) -> (r: &'static str)
        ensures
            r@ == separator_text(),
    {
        " â€¹ "
    }
}

impl BlockInterface for Separator {
    open spec fn name_spec(&self) -> Seq<char> {
        self.name@
    }

    open spec fn segments_spec(&self) -> Seq<SegmentView> {
        seq![segment_of(self.name@, separator_text(), Color::Gray)]
    }

    fn name(&self) -> (r: &str) {
        self.name.as_str()
    }

    fn get_blocks(&self) -> (r: Vec<BlockOutput>) {
        single_segment(self.name.as_str(), self.text(), self.color())
    }
}

} // verus!
