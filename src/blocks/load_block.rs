use vstd::prelude::*;

use super::{segment_of, single_segment, BlockInterface, BlockOutput, SegmentView};
use crate::colors::Color;
use crate::text::{decimal, pad_left, push_decimal, push_padded};

verus! {

/// A load given in hundredths, written with two decimals (`1.25`).
pub open spec fn load_digits(centi: u64) -> Seq<char> {
    decimal((centi / 100) as nat) + "."@ + pad_left(decimal((centi % 100) as nat), '0', 2)
}

/// The text shown for a load: `shown` written with two decimals, marked with
/// `!!!` when the load, `floor` in whole hundredths, has reached 2.
pub open spec fn load_text(shown: u64, floor: u64) -> Seq<char> {
    if floor < 200 {
        load_digits(shown)
    } else {
        load_digits(shown) + "!!!"@
    }
}

/// The color shown for a load of `floor` whole hundredths: white below 1,
/// yellow below 2, red from 2 on.
pub open spec fn load_color(floor: u64) -> Color {
    if floor < 100 {
        Color::White
    } else if floor < 200 {
        Color::Yellow
    } else {
        Color::Red
    }
}

/// The one-minute load average.
#[derive(Debug)]
pub struct LoadBlock {
    pub text: String,
    pub color: Color,
}

impl Default for LoadBlock {
    fn default() -> (r: LoadBlock)
        ensures
            r.text@ == Seq::<char>::empty(),
            r.color == Color::White,
    {
        LoadBlock { text: String::new(), color: Color::White }
    }
}

impl LoadBlock {
    pub fn color(&self) -> (r: Color)
        ensures
            r == self.color,
    {
        self.color
    }

    pub fn text(&self) -> (r: &str)
        ensures
            r@ == self.text@,
    {
        self.text.as_str()
    }

    /// Shows the one-minute load average: `shown` is the load in hundredths
    /// rounded to the nearest, as it is written; `floor` is the load in whole
    /// hundredths rounded down, which the thresholds are taken on.
    pub fn update(&mut self, shown: u64, floor: u64)
        ensures
            final(self).text@ == load_text(shown, floor),
            final(self).color == load_color(floor),
    {
        let mut s = String::new();
        push_decimal(&mut s, shown / 100);
        s.append(".");
        push_padded(&mut s, shown % 100, '0', 2);
        if floor < 100 {
            self.color = Color::White;
        } else if floor < 200 {
            self.color = Color::Yellow;
        } else {
            self.color = Color::Red;
            s.append("!!!");
        }
        assert(s@ =~= load_text(shown, floor));
        self.text = s;
    }
}

impl BlockInterface for LoadBlock {
    open spec fn name_spec(&self) -> Seq<char> {
        "load"@
    }

    open spec fn segments_spec(&self) -> Seq<SegmentView> {
        seq![segment_of("load"@, self.text@, self.color)]
    }

    fn name(&self) -> (r: &str) {
        "load"
    }

    fn get_blocks(&self) -> (r: Vec<BlockOutput>) {
        single_segment("load", self.text.as_str(), self.color)
    }
}

} // verus!
