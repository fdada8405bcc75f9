use vstd::prelude::*;

use crate::blocks::clock_block::clock_text;
use crate::blocks::date_block::date_text;
use crate::blocks::load_block::{load_color, load_text};
use crate::blocks::media_block::{media_command_of, media_segments, MediaCommand, MediaReading};
use crate::blocks::network_block::{rate_spec, total_received, total_transmitted, trim_history, InterfaceCounters};
use crate::blocks::volume_block::{volume_command_of, VolumeCommand};
use crate::blocks::{
    append_segments, escape_spec, lemma_escape_plain, segment_views, BlockInterface, BlockOutput, ClockBlock, DateBlock, LoadBlock, MediaBlock,
    NetworkBlock, SegmentView, Separator, VolumeBlock,
};
use crate::clock::LocalTime;
use crate::colors::Color;
use crate::codec::{encode_segments, segments_json};
use crate::events::{Button, InputEvent};
use crate::text::starts_with;

verus! {

/// Cadence of a block that is only updated on input, in milliseconds.
pub const NEVER: u64 = 1000000000000;

/// Cadence of blocks that change by the minute, in milliseconds.
pub const SUB_MINUTE: u64 = 30000;

/// Cadence of blocks that change by the second, in milliseconds.
pub const SECOND: u64 = 1000;

/// Cadence of blocks that answer clicks, in milliseconds.
pub const SUB_SECOND: u64 = 250;

/// One of the blocks that the bar can show.
#[derive(Debug)]
pub enum BlockKind {
    Media(MediaBlock),
    Separator(Separator),
    Load(LoadBlock),
    Volume(VolumeBlock),
    Network(NetworkBlock),
    Date(DateBlock),
    Clock(ClockBlock),
}

/// What was read from a block's source for one update.
#[derive(Debug)]
pub enum Reading {
    /// The block reads its source itself, or has none.
    Nothing,
    /// The one-minute load average in hundredths: rounded to the nearest, then
    /// rounded down.
    Load(u64, u64),
    /// The volume of the default output device, as the sound server writes it.
    Volume(String),
    Media(MediaReading),
    /// Interface counters and the monotonic time, in milliseconds, of the read.
    Network(Vec<InterfaceCounters>, u64),
    /// The source could not be read.
    Unavailable,
}

/// Why an update left a block as it was.
#[derive(Debug, Clone, Copy, PartialEq, Eq, Structural)]
pub enum UpdateError {
    /// The block's source could not be read.
    SourceUnavailable,
    /// The reading belongs to another kind of block.
    WrongReading,
}

/// What a click asks of the outside world.
#[derive(Debug, Clone, Copy, PartialEq, Eq, Structural)]
pub enum Command {
    Media(MediaCommand),
    Volume(VolumeCommand),
}

pub open spec fn kind_name(k: BlockKind) -> Seq<char> {
    match k {
        BlockKind::Media(b) => b.name_spec(),
        BlockKind::Separator(b) => b.name_spec(),
        BlockKind::Load(b) => b.name_spec(),
        BlockKind::Volume(b) => b.name_spec(),
        BlockKind::Network(b) => b.name_spec(),
        BlockKind::Date(b) => b.name_spec(),
        BlockKind::Clock(b) => b.name_spec(),
    }
}

pub open spec fn kind_segments(k: BlockKind) -> Seq<SegmentView> {
    match k {
        BlockKind::Media(b) => b.segments_spec(),
        BlockKind::Separator(b) => b.segments_spec(),
        BlockKind::Load(b) => b.segments_spec(),
        BlockKind::Volume(b) => b.segments_spec(),
        BlockKind::Network(b) => b.segments_spec(),
        BlockKind::Date(b) => b.segments_spec(),
        BlockKind::Clock(b) => b.segments_spec(),
    }
}

/// Whether `r` is the reading that a block of kind `k` is updated from.
pub open spec fn reading_fits(k: BlockKind, r: Reading) -> bool {
    match k {
        BlockKind::Load(_) => r is Load,
        BlockKind::Volume(_) => r is Volume,
        BlockKind::Media(_) => r is Media,
        BlockKind::Network(_) => r is Network,
        _ => r is Nothing,
    }
}

/// How a successful update of a block of kind `k` from `r` leaves it: `n`.
pub open spec fn update_relation(k: BlockKind, r: Reading, n: BlockKind) -> bool {
    match k {
        BlockKind::Clock(_) => n matches BlockKind::Clock(c) && exists|t: LocalTime|
            t.wf() && c.text@ == clock_text(t),
        BlockKind::Date(_) => n matches BlockKind::Date(d) && exists|t: LocalTime|
            t.wf() && d.text@ == date_text(t),
        BlockKind::Separator(_) => n == k,
        BlockKind::Load(_) => match r {
            Reading::Load(shown, floor) => n matches BlockKind::Load(l) && l.text@ == load_text(
                shown,
                floor,
            ) && l.color == load_color(floor),
            _ => false,
        },
        BlockKind::Volume(_) => match r {
            Reading::Volume(s) => n matches BlockKind::Volume(v) && v.text@ == s@,
            _ => false,
        },
        BlockKind::Media(m) => match r {
            Reading::Media(mr) => n matches BlockKind::Media(m2) && m2.color == m.color
                && segment_views(m2.blocks@) == media_segments(mr, m.color),
            _ => false,
        },
        BlockKind::Network(o) => match r {
            Reading::Network(ifs, now) => n matches BlockKind::Network(w) && {
                &&& w.up_history@ == trim_history(
                    o.up_history@.push((now, total_received(ifs@))),
                    now,
                )
                &&& w.down_history@ == trim_history(
                    o.down_history@.push((now, total_transmitted(ifs@))),
                    now,
                )
                &&& w.bps_up == rate_spec(w.up_history@[0], now, total_received(ifs@))
                &&& w.bps_down == rate_spec(w.down_history@[0], now, total_transmitted(ifs@))
            },
            _ => false,
        },
    }
}

/// The command that a click with button `b` on a block of kind `k` asks for.
pub open spec fn command_of(k: BlockKind, b: Button) -> Option<Command> {
    match k {
        BlockKind::Media(_) => match media_command_of(b) {
            Some(c) => Some(Command::Media(c)),
            None => None,
        },
        BlockKind::Volume(_) => match volume_command_of(b) {
            Some(c) => Some(Command::Volume(c)),
            None => None,
        },
        _ => None,
    }
}

/// A block with the fixed interval, in milliseconds, between its updates.
#[derive(Debug)]
pub struct Block {
    pub block: BlockKind,
    pub update_time_ms: u64,
}

/// What an update from `r` makes of `old`: `new`. A reading that does not fit
/// leaves the block as it was.
pub open spec fn updated(old: Block, r: Reading, new: Block) -> bool {
    if reading_fits(old.block, r) {
        update_relation(old.block, r, new.block) && new.update_time_ms == old.update_time_ms
    } else {
        new == old
    }
}

impl Block {
    pub open spec fn name_spec(&self) -> Seq<char> {
        kind_name(self.block)
    }

    pub open spec fn segments_spec(&self) -> Seq<SegmentView> {
        kind_segments(self.block)
    }

    pub fn new(block: BlockKind, update_time_ms: u64) -> (r: Block)
        ensures
            r.block == block,
            r.update_time_ms == update_time_ms,
    {
        Block { block, update_time_ms }
    }

    pub fn name(&self) -> (r: &str)
        ensures
            r@ == self.name_spec(),
    {
        match &self.block {
            BlockKind::Media(b) => b.name(),
            BlockKind::Separator(b) => b.name(),
            BlockKind::Load(b) => b.name(),
            BlockKind::Volume(b) => b.name(),
            BlockKind::Network(b) => b.name(),
            BlockKind::Date(b) => b.name(),
            BlockKind::Clock(b) => b.name(),
        }
    }

    /// The block's current segments; rendering changes nothing.
    pub fn get_blocks(&self) -> (r: Vec<BlockOutput>)
        ensures
            segment_views(r@) == self.segments_spec(),
    {
        match &self.block {
            BlockKind::Media(b) => b.get_blocks(),
            BlockKind::Separator(b) => b.get_blocks(),
            BlockKind::Load(b) => b.get_blocks(),
            BlockKind::Volume(b) => b.get_blocks(),
            BlockKind::Network(b) => b.get_blocks(),
            BlockKind::Date(b) => b.get_blocks(),
            BlockKind::Clock(b) => b.get_blocks(),
        }
    }

    /// The block's current segments as comma-separated JSON objects.
    pub fn to_string(&self) -> (r: String)
        ensures
            r@ == segments_json(self.segments_spec()),
    {
        let segs = self.get_blocks();
        encode_segments(&segs)
    }

    /// Refreshes the block from `reading`. On failure the block keeps the
    /// state, and so the segments, of its last successful update.
    pub fn update(&mut self, reading: Reading) -> (r: Result<(), UpdateError>)
        ensures
            r is Ok <==> reading_fits(old(self).block, reading),
            r == Err::<(), UpdateError>(UpdateError::SourceUnavailable) <==> reading is Unavailable,
            updated(*old(self), reading, *final(self)),
            r is Err ==> *final(self) == *old(self),
            kind_wf(old(self).block) ==> kind_wf(final(self).block),
    {
        match (&mut self.block, reading) {
            (BlockKind::Clock(b), Reading::Nothing) => {
                b.update();
                Ok(())
            },
            (BlockKind::Date(b), Reading::Nothing) => {
                b.update();
                Ok(())
            },
            (BlockKind::Separator(_), Reading::Nothing) => Ok(()),
            (BlockKind::Load(b), Reading::Load(shown, floor)) => {
                b.update(shown, floor);
                Ok(())
            },
            (BlockKind::Volume(b), Reading::Volume(s)) => {
                b.update(s.as_str());
                Ok(())
            },
            (BlockKind::Media(b), Reading::Media(m)) => {
                let ghost c = b.color;
                let ghost r = m;
                b.update(m);
                assert(segment_views(b.blocks@) == media_segments(r, c));
                Ok(())
            },
            (BlockKind::Network(b), Reading::Network(ifs, now)) => {
                b.update(&ifs, now);
                Ok(())
            },
            (_, Reading::Unavailable) => Err(UpdateError::SourceUnavailable),
            _ => Err(UpdateError::WrongReading),
        }
    }

    /// The command that `event` asks of this block; `None` when the block
    /// ignores it.
    pub fn command_for(&self, event: &InputEvent) -> (r: Option<Command>)
        ensures
            r == command_of(self.block, event.button),
    {
        match &self.block {
            BlockKind::Media(b) => match b.handle_input(event) {
                Some(c) => Some(Command::Media(c)),
                None => None,
            },
            BlockKind::Volume(b) => match b.handle_input(event) {
                Some(c) => Some(Command::Volume(c)),
                None => None,
            },
            _ => None,
        }
    }

    /// Reacts to a click. When the block has a command for it, `perform`
    /// carries the command out and, when it took effect, reads the source
    /// again (`Some`); the block is then updated from that reading at once,
    /// so the next render shows the result. Returns whether the click changed
    /// the block's source.
    pub fn handle_input<F: FnOnce(Command) -> Option<Reading>>(
        &mut self,
        event: &InputEvent,
        perform: F,
    ) -> (r: bool)
        requires
            forall|c: Command| perform.requires((c,)),
        ensures
            reacted(*old(self), event.button, perform, r, *final(self)),
            kind_wf(old(self).block) ==> kind_wf(final(self).block),
    {
        match self.command_for(event) {
            Some(c) => {
                let out = perform(c);
                match out {
                    Some(reading) => {
                        let _ = self.update(reading);
                        true
                    },
                    None => false,
                }
            },
            None => false,
        }
    }
}

/// How a block `old` ends up as `new` after a click with `button`, `perform`
/// standing for the outside world: a block without a command for the click,
/// or whose command took no effect, stays as it was and reports no change;
/// otherwise it reports a change and is updated from the fresh reading.
pub open spec fn reacted<F: FnOnce(Command) -> Option<Reading>>(
    old: Block,
    button: Button,
    perform: F,
    acted: bool,
    new: Block,
) -> bool {
    match command_of(old.block, button) {
        None => !acted && new == old,
        Some(c) => exists|out: Option<Reading>|
            #[trigger] perform.ensures((c,), out) && match out {
                None => !acted && new == old,
                Some(rd) => acted && updated(old, rd, new),
            },
    }
}

/// Whether every segment of `segs` has a name that starts with `name`.
pub open spec fn owns_segments(name: Seq<char>, segs: Seq<SegmentView>) -> bool {
    forall|i: int| 0 <= i < segs.len() ==> name.is_prefix_of(#[trigger] segs[i].name)
}

/// Whether a block's state is one that its own operations produce: a media
/// block shows nothing or what some reading rendered as, and a divider's name
/// holds no `"`.
pub open spec fn kind_wf(k: BlockKind) -> bool {
    match k {
        BlockKind::Media(m) => m.blocks@.len() == 0 || exists|r: MediaReading, c: Color|
            segment_views(m.blocks@) == media_segments(r, c),
        BlockKind::Separator(s) => forall|i: int| 0 <= i < s.name@.len() ==> s.name@[i] != '"',
        _ => true,
    }
}

proof fn lemma_plain_owner(name: Seq<char>, seg: Seq<char>)
    requires
        name.is_prefix_of(seg),
        forall|i: int| 0 <= i < seg.len() ==> seg[i] != '"',
    ensures
        name.is_prefix_of(escape_spec(seg)),
{
    lemma_escape_plain(seg);
}

/// Every media segment is named `media_...`.
pub proof fn lemma_media_segments_owned(r: MediaReading, c: Color)
    ensures
        owns_segments("media"@, media_segments(r, c)),
{
    reveal_strlit("media");
    reveal_strlit("media_error");
    reveal_strlit("media_status");
    reveal_strlit("media_title");
    reveal_strlit("media_artist");
    reveal_strlit("media_album");
    reveal_strlit("media_progress");
    let m = "media"@;
    assert(m =~= "media_error"@.subrange(0, 5));
    assert(m =~= "media_status"@.subrange(0, 5));
    assert(m =~= "media_title"@.subrange(0, 5));
    assert(m =~= "media_artist"@.subrange(0, 5));
    assert(m =~= "media_album"@.subrange(0, 5));
    assert(m =~= "media_progress"@.subrange(0, 5));
    lemma_plain_owner(m, "media_error"@);
    lemma_plain_owner(m, "media_status"@);
    lemma_plain_owner(m, "media_title"@);
    lemma_plain_owner(m, "media_artist"@);
    lemma_plain_owner(m, "media_album"@);
    lemma_plain_owner(m, "media_progress"@);
}

/// Every segment that a block renders is named after the block, so the
/// router's prefix match on the block's name finds the block that drew it.
pub proof fn lemma_segments_named_after_block(k: BlockKind)
    requires
        kind_wf(k),
    ensures
        owns_segments(kind_name(k), kind_segments(k)),
{
    match k {
        BlockKind::Media(m) => {
            if m.blocks@.len() != 0 {
                let (r, c) = choose|r: MediaReading, c: Color|
                    segment_views(m.blocks@) == media_segments(r, c);
                lemma_media_segments_owned(r, c);
            }
        },
        BlockKind::Separator(s) => {
            lemma_plain_owner(s.name@, s.name@);
        },
        BlockKind::Load(_) => {
            reveal_strlit("load");
            lemma_plain_owner("load"@, "load"@);
        },
        BlockKind::Volume(_) => {
            reveal_strlit("volume");
            lemma_plain_owner("volume"@, "volume"@);
        },
        BlockKind::Network(_) => {
            reveal_strlit("network");
            reveal_strlit("network_device");
            reveal_strlit("network_speed");
            assert("network"@ =~= "network_device"@.subrange(0, 7));
            assert("network"@ =~= "network_speed"@.subrange(0, 7));
            lemma_plain_owner("network"@, "network_device"@);
            lemma_plain_owner("network"@, "network_speed"@);
        },
        BlockKind::Date(_) => {
            reveal_strlit("date");
            lemma_plain_owner("date"@, "date"@);
        },
        BlockKind::Clock(_) => {
            reveal_strlit("clock");
            lemma_plain_owner("clock"@, "clock"@);
        },
    }
}

/// The views of a sequence of strings.
pub open spec fn name_views(v: Seq<String>) -> Seq<Seq<char>> {
    v.map_values(|s: String| s@)
}

/// Whether `i` is the first of `names` that `target` starts with.
pub open spec fn is_first_match(names: Seq<Seq<char>>, target: Seq<char>, i: int) -> bool {
    &&& 0 <= i < names.len()
    &&& names[i].is_prefix_of(target)
    &&& forall|j: int| 0 <= j < i ==> !names[j].is_prefix_of(target)
}

/// Finds the block that a segment name belongs to: the first of `names` that
/// `target` starts with, if any.
pub fn route(names: &Vec<String>, target: &str) -> (r: Option<usize>)
    ensures
        r matches Some(i) ==> is_first_match(name_views(names@), target@, i as int),
        r is None <==> forall|j: int|
            0 <= j < names@.len() ==> !(#[trigger] names@[j])@.is_prefix_of(target@),
{
    let mut i: usize = 0;
    while i < names.len()
        invariant
            i <= names@.len(),
            forall|j: int| 0 <= j < i ==> !(#[trigger] names@[j])@.is_prefix_of(target@),
        decreases names@.len() - i,
    {
        if starts_with(target, names[i].as_str()) {
            return Some(i);
        }
        i = i + 1;
    }
    None
}

/// The segments of `parts`, one after the other.
pub open spec fn concat_segments(parts: Seq<Vec<BlockOutput>>) -> Seq<SegmentView> {
    parts.map_values(|p: Vec<BlockOutput>| segment_views(p@)).flatten()
}

/// Puts the segments that each block rendered into one frame, in the order of
/// the blocks.
pub fn render_frame(parts: &Vec<Vec<BlockOutput>>) -> (r: Vec<BlockOutput>)
    ensures
        segment_views(r@) == concat_segments(parts@),
{
    let mut out: Vec<BlockOutput> = Vec::new();
    let mut i: usize = 0;
    while i < parts.len()
        invariant
            i <= parts@.len(),
            segment_views(out@) == concat_segments(parts@.take(i as int)),
        decreases parts@.len() - i,
    {
        let part = &parts[i];
        append_segments(&mut out, part);
        proof {
            let views = parts@.take(i as int).map_values(
                |p: Vec<BlockOutput>| segment_views(p@),
            );
            views.lemma_flatten_push(segment_views(part@));
            assert(parts@.take(i + 1).map_values(|p: Vec<BlockOutput>| segment_views(p@))
                =~= views.push(segment_views(part@)));
        }
        i = i + 1;
    }
    assert(parts@.take(i as int) =~= parts@);
    out
}

/// Whether `k` is a block in the state it starts in.
pub open spec fn is_initial(k: BlockKind) -> bool {
    match k {
        BlockKind::Media(b) => b.blocks@.len() == 0 && b.color == crate::colors::Color::White,
        BlockKind::Separator(_) => true,
        BlockKind::Load(b) => b.text@.len() == 0 && b.color == crate::colors::Color::White,
        BlockKind::Volume(b) => b.text@.len() == 0,
        BlockKind::Network(b) => b.up_history@.len() == 0 && b.down_history@.len() == 0
            && b.bps_up is None && b.bps_down is None,
        BlockKind::Date(b) => b.text@.len() == 0,
        BlockKind::Clock(b) => b.text@.len() == 0,
    }
}

/// The blocks, by name and cadence, shown on the output `output`: the full set
/// on `DP-2`, the date and time elsewhere. No name is a prefix of another, so
/// each segment has exactly one owner.
pub open spec fn layout(output: Seq<char>) -> Seq<(Seq<char>, u64)> {
    if output == "DP-2"@ {
        seq![
            ("media"@, SUB_SECOND),
            ("separator1"@, NEVER),
            ("load"@, SECOND),
            ("separator2"@, NEVER),
            ("volume"@, SUB_SECOND),
            ("separator3"@, NEVER),
            ("network"@, SECOND),
            ("separator4"@, NEVER),
            ("date"@, SUB_MINUTE),
            ("separator5"@, NEVER),
            ("clock"@, SUB_MINUTE),
        ]
    } else {
        seq![("date"@, SUB_MINUTE), ("separator"@, NEVER), ("clock"@, SUB_MINUTE)]
    }
}

/// In either layout no block name is a prefix of another, so the names are
/// distinct and a segment named after one block is never claimed by another.
pub proof fn lemma_layout_names_unambiguous(output: Seq<char>)
    ensures
        forall|i: int, j: int|
            0 <= i < layout(output).len() && 0 <= j < layout(output).len() && i != j
                ==> !(#[trigger] layout(output)[i]).0.is_prefix_of((#[trigger] layout(output)[j]).0),
{
    reveal_strlit("media");
    reveal_strlit("load");
    reveal_strlit("volume");
    reveal_strlit("network");
    reveal_strlit("date");
    reveal_strlit("clock");
    reveal_strlit("separator");
    reveal_strlit("separator1");
    reveal_strlit("separator2");
    reveal_strlit("separator3");
    reveal_strlit("separator4");
    reveal_strlit("separator5");
    let l = layout(output);
    assert forall|i: int, j: int|
        0 <= i < l.len() && 0 <= j < l.len() && i != j implies !(#[trigger] l[i]).0.is_prefix_of(
        (#[trigger] l[j]).0,
    ) by {
        let a = l[i].0;
        let b = l[j].0;
        if a.is_prefix_of(b) {
            // The names differ in their first, second or tenth character.
            assert(a[0] == b.subrange(0, a.len() as int)[0]);
            assert(a[1] == b.subrange(0, a.len() as int)[1]);
            assert(a.len() >= 10 ==> a[9] == b.subrange(0, a.len() as int)[9]);
        }
    }
}

/// The ordered, fixed set of blocks of one bar; their order is render order.
#[derive(Debug)]
pub struct Registry {
    pub blocks: Vec<Block>,
}

impl Registry {
    /// The frame that the blocks render as: each block's segments, in order.
    pub open spec fn frame_spec(&self) -> Seq<SegmentView> {
        self.blocks@.map_values(|b: Block| b.segments_spec()).flatten()
    }

    pub open spec fn names_spec(&self) -> Seq<Seq<char>> {
        self.blocks@.map_values(|b: Block| b.name_spec())
    }

    /// The blocks for the output `output`, each in its starting state.
    pub fn for_output(output: &str) -> (r: Registry)
        ensures
            r.blocks@.len() == layout(output@).len(),
            forall|i: int|
                0 <= i < r.blocks@.len() ==> {
                    &&& (#[trigger] r.blocks@[i]).name_spec() == layout(output@)[i].0
                    &&& r.blocks@[i].update_time_ms == layout(output@)[i].1
                    &&& is_initial(r.blocks@[i].block)
                    &&& kind_wf(r.blocks@[i].block)
                },
    {
        let mut blocks: Vec<Block> = Vec::new();
        proof {
            reveal_strlit("separator");
            reveal_strlit("separator1");
            reveal_strlit("separator2");
            reveal_strlit("separator3");
            reveal_strlit("separator4");
            reveal_strlit("separator5");
        }
        if crate::text::same_text(output, "DP-2") {
            blocks.push(Block::new(BlockKind::Media(MediaBlock::default()), SUB_SECOND));
            blocks.push(Block::new(BlockKind::Separator(Separator::named("separator1")), NEVER));
            blocks.push(Block::new(BlockKind::Load(LoadBlock::default()), SECOND));
            blocks.push(Block::new(BlockKind::Separator(Separator::named("separator2")), NEVER));
            blocks.push(Block::new(BlockKind::Volume(VolumeBlock::default()), SUB_SECOND));
            blocks.push(Block::new(BlockKind::Separator(Separator::named("separator3")), NEVER));
            blocks.push(Block::new(BlockKind::Network(NetworkBlock::default()), SECOND));
            blocks.push(Block::new(BlockKind::Separator(Separator::named("separator4")), NEVER));
            blocks.push(Block::new(BlockKind::Date(DateBlock::default()), SUB_MINUTE));
            blocks.push(Block::new(BlockKind::Separator(Separator::named("separator5")), NEVER));
            blocks.push(Block::new(BlockKind::Clock(ClockBlock::default()), SUB_MINUTE));
        } else {
            blocks.push(Block::new(BlockKind::Date(DateBlock::default()), SUB_MINUTE));
            blocks.push(Block::new(BlockKind::Separator(Separator::default()), NEVER));
            blocks.push(Block::new(BlockKind::Clock(ClockBlock::default()), SUB_MINUTE));
        }
        Registry { blocks }
    }

    /// The names of the blocks, in order.
    pub fn names(&self) -> (r: Vec<String>)
        ensures
            name_views(r@) == self.names_spec(),
    {
        let mut out: Vec<String> = Vec::new();
        let mut i: usize = 0;
        while i < self.blocks.len()
            invariant
                i <= self.blocks@.len(),
                out@.len() == i,
                forall|j: int| 0 <= j < i ==> out@[j]@ == self.blocks@[j].name_spec(),
            decreases self.blocks@.len() - i,
        {
            out.push(String::from_str(self.blocks[i].name()));
            i = i + 1;
        }
        assert(name_views(out@) =~= self.names_spec());
        out
    }

    /// Routes a click to the first block whose name the clicked segment's name
    /// starts with and lets that block react (see `Block::handle_input`). An
    /// event that no block claims changes nothing.
    pub fn dispatch<F: FnOnce(Command) -> Option<Reading>>(
        &mut self,
        event: &InputEvent,
        perform: F,
    ) -> (r: Option<usize>)
        requires
            forall|c: Command| perform.requires((c,)),
        ensures
            r matches Some(i) ==> is_first_match(old(self).names_spec(), event.name@, i as int),
            r is None <==> forall|j: int|
                0 <= j < old(self).blocks@.len() ==> !(#[trigger] old(self).names_spec()[j]).is_prefix_of(
                    event.name@,
                ),
            r is None ==> *final(self) == *old(self),
            final(self).blocks@.len() == old(self).blocks@.len(),
            forall|j: int|
                0 <= j < old(self).blocks@.len() && (r is None || r->Some_0 != j)
                    ==> #[trigger] final(self).blocks@[j] == old(self).blocks@[j],
            r matches Some(i) ==> exists|acted: bool|
                reacted(
                    old(self).blocks@[i as int],
                    event.button,
                    perform,
                    acted,
                    final(self).blocks@[i as int],
                ),
    {
        let names = self.names();
        let found = route(&names, event.name.as_str());
        match found {
            Some(i) => {
                let mut b = self.blocks.remove(i);
                let ghost b0 = b;
                let acted = b.handle_input(event, perform);
                self.blocks.insert(i, b);
                assert(self.blocks@ =~= old(self).blocks@.update(i as int, b));
                assert(b0 == old(self).blocks@[i as int]);
                assert(reacted(old(self).blocks@[i as int], event.button, perform, acted, self.blocks@[i as int]));
                Some(i)
            },
            None => {
                assert(name_views(names@).len() == names@.len());
                assert forall|j: int| 0 <= j < self.blocks@.len() implies !(
                #[trigger] self.names_spec()[j]).is_prefix_of(event.name@) by {
                    assert(names@[j]@ == name_views(names@)[j]);
                }
                None
            },
        }
    }

    /// One frame: every block's current segments, in registry order.
    pub fn render(&self) -> (r: Vec<BlockOutput>)
        ensures
            segment_views(r@) == self.frame_spec(),
    {
        let mut out: Vec<BlockOutput> = Vec::new();
        let mut i: usize = 0;
        while i < self.blocks.len()
            invariant
                i <= self.blocks@.len(),
                segment_views(out@) == self.blocks@.take(i as int).map_values(
                    |b: Block| b.segments_spec(),
                ).flatten(),
            decreases self.blocks@.len() - i,
        {
            let part = self.blocks[i].get_blocks();
            append_segments(&mut out, &part);
            proof {
                let views = self.blocks@.take(i as int).map_values(|b: Block| b.segments_spec());
                views.lemma_flatten_push(self.blocks@[i as int].segments_spec());
                assert(self.blocks@.take(i + 1).map_values(|b: Block| b.segments_spec())
                    =~= views.push(self.blocks@[i as int].segments_spec()));
            }
            i = i + 1;
        }
        assert(self.blocks@.take(i as int) =~= self.blocks@);
        out
    }
}

} // verus!
