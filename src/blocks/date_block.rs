use vstd::prelude::*;

use super::{segment_of, single_segment, BlockInterface, BlockOutput, SegmentView};
use crate::clock::{local_now, LocalTime};
use crate::colors::Color;
use crate::text::{decimal, push_decimal};

verus! {

/// The English ordinal suffix of a day of the month.
pub open spec fn suffix_spec(day: u32) -> Seq<char> {
    if day == 1 || day == 21 || day == 31 {
        "st"@
    } else if day == 2 || day == 22 {
        "nd"@
    } else if day == 3 || day == 23 {
        "rd"@
    } else {
        "th"@
    }
}

/// The English name of a weekday, Monday being 0.
pub open spec fn weekday_name_spec(w: u32) -> Seq<char> {
    if w == 0 {
        "Monday"@
    } else if w == 1 {
        "Tuesday"@
    } else if w == 2 {
        "Wednesday"@
    } else if w == 3 {
        "Thursday"@
    } else if w == 4 {
        "Friday"@
    } else if w == 5 {
        "Saturday"@
    } else {
        "Sunday"@
    }
}

/// The English name of a month, January being 1.
pub open spec fn month_name_spec(m: u32) -> Seq<char> {
    if m == 1 {
        "January"@
    } else if m == 2 {
        "February"@
    } else if m == 3 {
        "March"@
    } else if m == 4 {
        "April"@
    } else if m == 5 {
        "May"@
    } else if m == 6 {
        "June"@
    } else if m == 7 {
        "July"@
    } else if m == 8 {
        "August"@
    } else if m == 9 {
        "September"@
    } else if m == 10 {
        "October"@
    } else if m == 11 {
        "November"@
    } else {
        "December"@
    }
}

/// `Weekday Nth of Month`, such as `Friday 21st of March`.
pub open spec fn date_text(t: LocalTime) -> Seq<char> {
    weekday_name_spec(t.weekday) + " "@ + decimal(t.day as nat) + suffix_spec(t.day) + " of "@
        + month_name_spec(t.month)
}

pub fn day_suffix(day: u32) -> (r: &'static str)
    ensures
        r@ == suffix_spec(day),
{
    if day == 1 || day == 21 || day == 31 {
        "st"
    } else if day == 2 || day == 22 {
        "nd"
    } else if day == 3 || day == 23 {
        "rd"
    } else {
        "th"
    }
}

pub fn weekday_name(w: u32) -> (r: &'static str)
    ensures
        r@ == weekday_name_spec(w),
{
    if w == 0 {
        "Monday"
    } else if w == 1 {
        "Tuesday"
    } else if w == 2 {
        "Wednesday"
    } else if w == 3 {
        "Thursday"
    } else if w == 4 {
        "Friday"
    } else if w == 5 {
        "Saturday"
    } else {
        "Sunday"
    }
}

pub fn month_name(m: u32) -> (r: &'static str)
    ensures
        r@ == month_name_spec(m),
{
    if m == 1 {
        "January"
    } else if m == 2 {
        "February"
    } else if m == 3 {
        "March"
    } else if m == 4 {
        "April"
    } else if m == 5 {
        "May"
    } else if m == 6 {
        "June"
    } else if m == 7 {
        "July"
    } else if m == 8 {
        "August"
    } else if m == 9 {
        "September"
    } else if m == 10 {
        "October"
    } else if m == 11 {
        "November"
    } else {
        "December"
    }
}

/// The date, spelled out.
#[derive(Debug)]
pub struct DateBlock {
    pub text: String,
}

impl Default for DateBlock {
    fn default() -> (r: DateBlock)
        ensures
            r.text@ == Seq::<char>::empty(),
    {
        DateBlock { text: String::new() }
    }
}

impl DateBlock {
    pub open spec fn text_spec(&self) -> Seq<char> {
        self.text@
    }

    pub fn color(&self) -> (r: Color)
        ensures
            r == Color::White,
    {
        Color::White
    }

    pub fn text(&self) -> (r: &str)
        ensures
            r@ == self.text_spec(),
    {
        self.text.as_str()
    }

    /// Shows the date of `t`.
    pub fn set_time(&mut self, t: LocalTime)
        ensures
            final(self).text_spec() == date_text(t),
    {
        let mut s = String::new();
        s.append(weekday_name(t.weekday));
        s.append(" ");
        push_decimal(&mut s, t.day as u64);
        s.append(day_suffix(t.day));
        s.append(" of ");
        s.append(month_name(t.month));
        assert(s@ =~= date_text(t));
        self.text = s;
    }

    /// Shows today's local date.
    pub fn update(&mut self)
        ensures
            exists|t: LocalTime| t.wf() && final(self).text_spec() == date_text(t),
    {
        let t = local_now();
        self.set_time(t);
    }
}

impl BlockInterface for DateBlock {
    open spec fn name_spec(&self) -> Seq<char> {
        "date"@
    }

    open spec fn segments_spec(&self) -> Seq<SegmentView> {
        seq![segment_of("date"@, self.text@, Color::White)]
    }

    fn name(&self) -> (r: &str) {
        "date"
    }

    fn get_blocks(&self) -> (r: Vec<BlockOutput>) {
        single_segment("date", self.text.as_str(), Color::White)
    }
}

} // verus!
