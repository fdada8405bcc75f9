use vstd::prelude::*;

verus! {

/// A local wall-clock instant, as the fields the blocks print.
#[derive(Debug, Clone, Copy, PartialEq, Eq, Structural)]
pub struct LocalTime {
    pub hour: u32,
    pub minute: u32,
    /// Day of the month, from 1.
    pub day: u32,
    /// Month of the year, from 1.
    pub month: u32,
    /// Day of the week, Monday being 0.
    pub weekday: u32,
}

impl LocalTime {
    /// Every field within its calendar range.
    pub open spec fn wf(&self) -> bool {
        &&& self.hour < 24
        &&& self.minute < 60
        &&& 1 <= self.day <= 31
        &&& 1 <= self.month <= 12
        &&& self.weekday < 7
    }
}

/// Relies on chrono's `Local::now` and its `Timelike::hour`, `Timelike::minute`,
/// `Datelike::day`, `Datelike::month` and `Weekday::num_days_from_monday`,
/// whose documented ranges are 0..24, 0..60, 1..=31, 1..=12 and 0..7.
/// Which instant comes back is the machine's business.
#[verifier::external_body]
pub(crate) fn local_now() -> (r: LocalTime)
    ensures
        r.wf(),
{
    let now = chrono::Local::now();
    LocalTime {
        hour: chrono::Timelike::hour(&now),
        minute: chrono::Timelike::minute(&now),
        day: chrono::Datelike::day(&now),
        month: chrono::Datelike::month(&now),
        weekday: chrono::Datelike::weekday(&now).num_days_from_monday(),
    }
}

} // verus!
