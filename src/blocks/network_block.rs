use vstd::prelude::*;

use super::{make_block, segment_of, segment_views, BlockInterface, BlockOutput, SegmentView};
use crate::colors::Color;
use crate::text::{decimal, pad_left, push_decimal, push_padded, starts_with};

verus! {

/// How far back, in milliseconds, the samples that a rate is taken over reach.
pub const HIST_LEN_MS: u64 = 10000;

/// The byte counters of one network interface.
#[derive(Debug)]
pub struct InterfaceCounters {
    pub name: String,
    pub received: u64,
    pub transmitted: u64,
}

pub open spec fn sat_add(a: u64, b: u64) -> u64 {
    if a + b > u64::MAX {
        u64::MAX
    } else {
        (a + b) as u64
    }
}

pub open spec fn sat_sub(a: u64, b: u64) -> u64 {
    if a < b {
        0
    } else {
        (a - b) as u64
    }
}

/// Whether an interface counts: wired ethernet, named `enp...`.
pub open spec fn is_counted(i: InterfaceCounters) -> bool {
    "enp"@.is_prefix_of(i.name@)
}

/// The bytes received over the counted interfaces (saturating).
pub open spec fn total_received(ifs: Seq<InterfaceCounters>) -> u64
    decreases ifs.len(),
{
    if ifs.len() == 0 {
        0
    } else {
        sat_add(
            total_received(ifs.drop_last()),
            if is_counted(ifs.last()) {
                ifs.last().received
            } else {
                0
            },
        )
    }
}

/// The bytes transmitted over the counted interfaces (saturating).
pub open spec fn total_transmitted(ifs: Seq<InterfaceCounters>) -> u64
    decreases ifs.len(),
{
    if ifs.len() == 0 {
        0
    } else {
        sat_add(
            total_transmitted(ifs.drop_last()),
            if is_counted(ifs.last()) {
                ifs.last().transmitted
            } else {
                0
            },
        )
    }
}

/// The samples left once those older than the window at `now` are dropped
/// from the front.
pub open spec fn trim_history(h: Seq<(u64, u64)>, now: u64) -> Seq<(u64, u64)>
    decreases h.len(),
{
    if h.len() > 0 && sat_sub(now, h[0].0) > HIST_LEN_MS {
        trim_history(h.drop_first(), now)
    } else {
        h
    }
}

/// Bytes per second between the sample `first` and the count `value` at `now`;
/// `None` when no time has passed.
pub open spec fn rate_spec(first: (u64, u64), now: u64, value: u64) -> Option<u64> {
    let ms = sat_sub(now, first.0);
    if ms == 0 {
        None
    } else {
        let r = sat_sub(value, first.1) * 1000 / ms as int;
        Some(
            if r > u64::MAX {
                u64::MAX
            } else {
                r as u64
            },
        )
    }
}

/// Adds the count `value` at `time` to `history`, drops the samples that fell
/// out of the window and gives the rate since the oldest one left.
pub fn record(history: &mut Vec<(u64, u64)>, time: u64, value: u64) -> (r: Option<u64>)
    ensures
        final(history)@ == trim_history(old(history)@.push((time, value)), time),
        final(history)@.len() > 0,
        r == rate_spec(final(history)@[0], time, value),
{
    history.push((time, value));
    let ghost target = trim_history(history@, time);
    while time.saturating_sub(history[0].0) > HIST_LEN_MS
        invariant
            history@.len() > 0,
            history@.last() == (time, value),
            trim_history(history@, time) == target,
        decreases history@.len(),
    {
        let ghost before = history@;
        history.remove(0);
        assert(history@ =~= before.drop_first());
    }
    let (old_time, old_value) = history[0];
    let bytes = value.saturating_sub(old_value);
    let ms = time.saturating_sub(old_time);
    if ms == 0 {
        None
    } else {
        let r: u128 = (bytes as u128) * 1000 / (ms as u128);
        if r > u64::MAX as u128 {
            Some(u64::MAX)
        } else {
            Some(r as u64)
        }
    }
}

/// A transfer rate in at most four digits and a unit, or `N/A`.
pub open spec fn speed_text(bps: Option<u64>) -> Seq<char> {
    match bps {
        None => "N/A"@,
        Some(b) => if b >= 100000000 {
            pad_left(decimal((b / 1000000) as nat), ' ', 4) + "MB"@
        } else if b >= 10000000 {
            pad_left(decimal((b / 1000000) as nat), ' ', 2) + "."@ + decimal(
                (b / 100000 % 10) as nat,
            ) + "MB"@
        } else if b >= 1000000 {
            pad_left(decimal((b / 1000000) as nat), ' ', 1) + "."@ + pad_left(
                decimal((b / 10000 % 100) as nat),
                '0',
                2,
            ) + "MB"@
        } else if b >= 100000 {
            pad_left(decimal((b / 1000) as nat), ' ', 4) + "kB"@
        } else if b >= 10000 {
            pad_left(decimal((b / 1000) as nat), ' ', 2) + "."@ + decimal((b / 100 % 10) as nat)
                + "kB"@
        } else if b >= 1000 {
            pad_left(decimal((b / 1000) as nat), ' ', 1) + "."@ + pad_left(
                decimal((b / 10 % 100) as nat),
                '0',
                2,
            ) + "kB"@
        } else {
            pad_left(decimal(b as nat), ' ', 4) + " B"@
        },
    }
}

/// Writes a transfer rate in at most four digits and a unit.
pub fn pretty_speed(bps: Option<u64>) -> (r: String)
    ensures
        r@ == speed_text(bps),
{
    let mut s = String::new();
    match bps {
        None => {
            s.append("N/A");
        },
        Some(b) => {
            if b >= 100000000 {
                push_padded(&mut s, b / 1000000, ' ', 4);
                s.append("MB");
            } else if b >= 10000000 {
                push_padded(&mut s, b / 1000000, ' ', 2);
                s.append(".");
                push_decimal(&mut s, b / 100000 % 10);
                s.append("MB");
            } else if b >= 1000000 {
                push_padded(&mut s, b / 1000000, ' ', 1);
                s.append(".");
                push_padded(&mut s, b / 10000 % 100, '0', 2);
                s.append("MB");
            } else if b >= 100000 {
                push_padded(&mut s, b / 1000, ' ', 4);
                s.append("kB");
            } else if b >= 10000 {
                push_padded(&mut s, b / 1000, ' ', 2);
                s.append(".");
                push_decimal(&mut s, b / 100 % 10);
                s.append("kB");
            } else if b >= 1000 {
                push_padded(&mut s, b / 1000, ' ', 1);
                s.append(".");
                push_padded(&mut s, b / 10 % 100, '0', 2);
                s.append("kB");
            } else {
                push_padded(&mut s, b, ' ', 4);
                s.append(" B");
            }
        },
    }
    assert(s@ =~= speed_text(bps));
    s
}

/// The text of the speed segment: up, then down.
pub open spec fn speeds_text(up: Option<u64>, down: Option<u64>) -> Seq<char> {
    "▲ "@ + speed_text(up) + " ▼ "@ + speed_text(down)
}

/// Throughput of the wired interfaces, averaged over a sliding window.
#[derive(Debug)]
pub struct NetworkBlock {
    /// Samples `(milliseconds, bytes)` of the received total, oldest first.
    pub up_history: Vec<(u64, u64)>,
    /// Samples `(milliseconds, bytes)` of the transmitted total, oldest first.
    pub down_history: Vec<(u64, u64)>,
    pub bps_up: Option<u64>,
    pub bps_down: Option<u64>,
}

impl Default for NetworkBlock {
    fn default() -> (r: NetworkBlock)
        ensures
            r.up_history@.len() == 0,
            r.down_history@.len() == 0,
            r.bps_up is None,
            r.bps_down is None,
    {
        NetworkBlock {
            up_history: Vec::new(),
            down_history: Vec::new(),
            bps_up: None,
            bps_down: None,
        }
    }
}

impl NetworkBlock {
    /// Takes in the interface counters read at `now_ms` (milliseconds on a
    /// monotonic clock).
    pub fn update(&mut self, interfaces: &Vec<InterfaceCounters>, now_ms: u64)
        ensures
            final(self).up_history@ == trim_history(
                old(self).up_history@.push((now_ms, total_received(interfaces@))),
                now_ms,
            ),
            final(self).down_history@ == trim_history(
                old(self).down_history@.push((now_ms, total_transmitted(interfaces@))),
                now_ms,
            ),
            final(self).bps_up == rate_spec(
                final(self).up_history@[0],
                now_ms,
                total_received(interfaces@),
            ),
            final(self).bps_down == rate_spec(
                final(self).down_history@[0],
                now_ms,
                total_transmitted(interfaces@),
            ),
    {
        let mut up: u64 = 0;
        let mut down: u64 = 0;
        let mut i: usize = 0;
        while i < interfaces.len()
            invariant
                i <= interfaces@.len(),
                up == total_received(interfaces@.take(i as int)),
                down == total_transmitted(interfaces@.take(i as int)),
            decreases interfaces@.len() - i,
        {
            let data = &interfaces[i];
            let counted = starts_with(data.name.as_str(), "enp");
            if counted {
                up = up.saturating_add(data.received);
                down = down.saturating_add(data.transmitted);
            }
            assert(interfaces@.take(i + 1).drop_last() =~= interfaces@.take(i as int));
            i = i + 1;
        }
        assert(interfaces@.take(i as int) =~= interfaces@);
        self.bps_up = record(&mut self.up_history, now_ms, up);
        self.bps_down = record(&mut self.down_history, now_ms, down);
    }
}

impl BlockInterface for NetworkBlock {
    open spec fn name_spec(&self) -> Seq<char> {
        "network"@
    }

    open spec fn segments_spec(&self) -> Seq<SegmentView> {
        seq![
            segment_of("network_device"@, "Eth "@, Color::White),
            segment_of("network_speed"@, speeds_text(self.bps_up, self.bps_down), Color::Blue),
        ]
    }

    fn name(&self) -> (r: &str) {
        "network"
    }

    fn get_blocks(&self) -> (r: Vec<BlockOutput>) {
        let mut speeds = String::from_str("▲ ");
        let up = pretty_speed(self.bps_up);
        speeds.append(up.as_str());
        speeds.append(" ▼ ");
        let down = pretty_speed(self.bps_down);
        speeds.append(down.as_str());
        let v = vec![
            make_block("network_device", "Eth ", Color::White),
            make_block("network_speed", speeds.as_str(), Color::Blue),
        ];
        assert(segment_views(v@) =~= self.segments_spec());
        v
    }
}

} // verus!
