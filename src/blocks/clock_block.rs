use vstd::prelude::*;

use super::{segment_of, single_segment, BlockInterface, BlockOutput, SegmentView};
use crate::clock::{local_now, LocalTime};
use crate::colors::Color;
use crate::text::{decimal, pad_left, push_padded};

verus! {

/// A number below a hundred as two digits.
pub open spec fn two_digits(n: nat) -> Seq<char> {
    pad_left(decimal(n), '0', 2)
}

/// `HH:MM` of a local time.
pub open spec fn clock_text(t: LocalTime) -> Seq<char> {
    two_digits(t.hour as nat) + ":"@ + two_digits(t.minute as nat)
}

/// The wall-clock time of day, hours and minutes.
#[derive(Debug)]
pub struct ClockBlock {
    pub text: String,
}

impl Default for ClockBlock {
    fn default() -> (r: ClockBlock)
        ensures
            r.text@ == Seq::<char>::empty(),
    {
        ClockBlock { text: String::new() }
    }
}

impl ClockBlock {
    pub open spec fn text_spec(&self) -> Seq<char> {
        self.text@
    }

    pub fn color(&self) -> (r: Color)
        ensures
            r == Color::White,
    {
        Color::White
    }

    pub fn text(&self) -> (r: &str)
        ensures
            r@ == self.text_spec(),
    {
        self.text.as_str()
    }

    /// Shows the time `t`.
    pub fn set_time(&mut self, t: LocalTime)
        ensures
            final(self).text_spec() == clock_text(t),
    {
        let mut s = String::new();
        push_padded(&mut s, t.hour as u64, '0', 2);
        s.append(":");
        push_padded(&mut s, t.minute as u64, '0', 2);
        assert(s@ =~= clock_text(t));
        self.text = s;
    }

    /// Shows the current local time.
    pub fn update(&mut self)
        ensures
            exists|t: LocalTime| t.wf() && final(self).text_spec() == clock_text(t),
    {
        let t = local_now();
        self.set_time(t);
    }
}

impl BlockInterface for ClockBlock {
    open spec fn name_spec(&self) -> Seq<char> {
        "clock"@
    }

    open spec fn segments_spec(&self) -> Seq<SegmentView> {
        seq![segment_of("clock"@, self.text@, Color::White)]
    }

    fn name(&self) -> (r: &str) {
        "clock"
    }

    fn get_blocks(&self) -> (r: Vec<BlockOutput>) {
        single_segment("clock", self.text.as_str(), Color::White)
    }
}

} // verus!
