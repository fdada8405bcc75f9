use vstd::prelude::*;

use super::{append_segments, make_block, segment_of, segment_views, BlockInterface, BlockOutput, SegmentView};
use crate::colors::Color;
use crate::events::{Button, InputEvent};
use crate::text::{decimal, pad_left, push_decimal, push_padded, same_text};

verus! {

/// What a media player reports about playback.
#[derive(Debug, Clone, Copy, PartialEq, Eq, Structural)]
pub enum PlaybackStatus {
    Playing,
    Paused,
    Stopped,
}

/// What is known of one media player when choosing which one to show.
#[derive(Debug)]
pub struct PlayerSummary {
    /// The player part of its bus name, such as `spotify`.
    pub name: String,
    /// `None` when the status could not be read.
    pub status: Option<PlaybackStatus>,
}

/// Rank by playback status: playing, paused, stopped, unreadable.
pub open spec fn status_priority(s: Option<PlaybackStatus>) -> u8 {
    match s {
        Some(PlaybackStatus::Playing) => 0,
        Some(PlaybackStatus::Paused) => 1,
        Some(PlaybackStatus::Stopped) => 2,
        None => 3,
    }
}

/// Rank by player: spotify first, kdeconnect last, any other between.
pub open spec fn name_priority(name: Seq<char>) -> u8 {
    if name == "spotify"@ {
        0
    } else if name == "kdeconnect"@ {
        2
    } else {
        1
    }
}

/// The rank of a player, playback status first and player name second;
/// a lower rank is preferred.
pub open spec fn player_rank(p: PlayerSummary) -> (u8, u8) {
    (status_priority(p.status), name_priority(p.name@))
}

pub open spec fn rank_lt(a: (u8, u8), b: (u8, u8)) -> bool {
    a.0 < b.0 || (a.0 == b.0 && a.1 < b.1)
}

/// Whether `i` is the player to show among `ps`: no player has a better rank,
/// and none before it has the same rank.
pub open spec fn is_active_choice(ps: Seq<PlayerSummary>, i: int) -> bool {
    &&& 0 <= i < ps.len()
    &&& forall|j: int| 0 <= j < ps.len() ==> !rank_lt(player_rank(ps[j]), player_rank(ps[i]))
    &&& forall|j: int| 0 <= j < i ==> player_rank(ps[j]) != player_rank(ps[i])
}

pub fn rank_of(p: &PlayerSummary) -> (r: (u8, u8))
    ensures
        r == player_rank(*p),
{
    let s: u8 = match p.status {
        Some(PlaybackStatus::Playing) => 0,
        Some(PlaybackStatus::Paused) => 1,
        Some(PlaybackStatus::Stopped) => 2,
        None => 3,
    };
    let n: u8 = if same_text(p.name.as_str(), "spotify") {
        0
    } else if same_text(p.name.as_str(), "kdeconnect") {
        2
    } else {
        1
    };
    (s, n)
}

/// Chooses the player to show: the best ranked, the first of those in a tie.
pub fn find_active_non_kdeconnect(players: &Vec<PlayerSummary>) -> (r: Option<usize>)
    ensures
        r is None <==> players@.len() == 0,
        r matches Some(i) ==> is_active_choice(players@, i as int),
{
    if players.len() == 0 {
        return None;
    }
    let mut best: usize = 0;
    let mut best_rank = rank_of(&players[0]);
    let mut i: usize = 1;
    while i < players.len()
        invariant
            1 <= i <= players@.len(),
            best < i,
            best_rank == player_rank(players@[best as int]),
            forall|j: int| 0 <= j < i ==> !rank_lt(player_rank(players@[j]), best_rank),
            forall|j: int| 0 <= j < best ==> player_rank(players@[j]) != best_rank,
        decreases players@.len() - i,
    {
        let r = rank_of(&players[i]);
        if r.0 < best_rank.0 || (r.0 == best_rank.0 && r.1 < best_rank.1) {
            best = i;
            best_rank = r;
        }
        i = i + 1;
    }
    Some(best)
}

/// One track as a player reports it.
#[derive(Debug)]
pub struct TrackInfo {
    pub status: Option<PlaybackStatus>,
    pub title: Option<String>,
    pub artists: Option<Vec<String>>,
    pub album: Option<String>,
    /// Position in the track, in whole seconds.
    pub position_secs: Option<u64>,
    /// Length of the track, in whole seconds.
    pub length_secs: Option<u64>,
}

/// What a look at the media players found.
#[derive(Debug)]
pub enum MediaReading {
    NoPlayer,
    NoMetadata,
    Track(TrackInfo),
}

/// A duration as `M:SS`-like text: `H:MM:SS` beyond an hour, `MM:SS` up to
/// it, and `?:??` when unknown.
pub open spec fn duration_text(d: Option<u64>) -> Seq<char> {
    match d {
        None => "?:??"@,
        Some(s) => if s > 3600 {
            decimal((s / 3600) as nat) + ":"@ + pad_left(decimal((s / 60 % 60) as nat), '0', 2)
                + ":"@ + pad_left(decimal((s % 60) as nat), '0', 2)
        } else {
            pad_left(decimal((s / 60) as nat), '0', 2) + ":"@ + pad_left(
                decimal((s % 60) as nat),
                '0',
                2,
            )
        },
    }
}

pub fn format_duration(dur: Option<u64>) -> (r: String)
    ensures
        r@ == duration_text(dur),
{
    let mut res = String::new();
    match dur {
        None => {
            res.append("?:??");
        },
        Some(seconds) => {
            if seconds > 3600 {
                push_decimal(&mut res, seconds / 3600);
                res.append(":");
                push_padded(&mut res, seconds / 60 % 60, '0', 2);
                res.append(":");
                push_padded(&mut res, seconds % 60, '0', 2);
            } else {
                push_padded(&mut res, seconds / 60, '0', 2);
                res.append(":");
                push_padded(&mut res, seconds % 60, '0', 2);
            }
        },
    }
    assert(res@ =~= duration_text(dur));
    res
}

/// The texts of `parts`, with `sep` between each two.
pub open spec fn join_spec(parts: Seq<Seq<char>>, sep: Seq<char>) -> Seq<char>
    decreases parts.len(),
{
    if parts.len() == 0 {
        seq![]
    } else if parts.len() == 1 {
        parts[0]
    } else {
        join_spec(parts.drop_last(), sep) + sep + parts.last()
    }
}

pub open spec fn string_views(v: Seq<String>) -> Seq<Seq<char>> {
    v.map_values(|s: String| s@)
}

/// Joins `parts` with `sep` between each two.
pub fn join(parts: &Vec<String>, sep: &str) -> (r: String)
    ensures
        r@ == join_spec(string_views(parts@), sep@),
{
    let mut res = String::new();
    let mut i: usize = 0;
    while i < parts.len()
        invariant
            i <= parts@.len(),
            res@ == join_spec(string_views(parts@.take(i as int)), sep@),
        decreases parts@.len() - i,
    {
        if i > 0 {
            res.append(sep);
        }
        res.append(parts[i].as_str());
        let ghost prev = string_views(parts@.take(i as int));
        i = i + 1;
        assert(string_views(parts@.take(i as int)).drop_last() =~= prev);
        assert(res@ =~= join_spec(string_views(parts@.take(i as int)), sep@));
    }
    assert(parts@.take(i as int) =~= parts@);
    res
}

/// The glyph that shows a playback status.
pub open spec fn status_glyph(s: Option<PlaybackStatus>) -> Seq<char> {
    match s {
        Some(PlaybackStatus::Playing) => "▶ "@,
        Some(PlaybackStatus::Paused) => "⏸ "@,
        _ => "⏹ "@,
    }
}

/// The segments that a reading renders as.
pub open spec fn media_segments(reading: MediaReading, color: Color) -> Seq<SegmentView> {
    match reading {
        MediaReading::NoPlayer => seq![segment_of("media_error"@, "No player found"@, color)],
        MediaReading::NoMetadata => seq![
            segment_of("media_error"@, "No song metadata found"@, color),
        ],
        MediaReading::Track(t) => {
            let head = seq![
                segment_of("media_status"@, status_glyph(t.status), Color::White),
                segment_of(
                    "media_title"@,
                    match t.title {
                        Some(s) => s@,
                        None => "Unknown Title"@,
                    } + "  "@,
                    Color::Red,
                ),
            ];
            let with_artist = match t.artists {
                Some(a) => head.push(
                    segment_of(
                        "media_artist"@,
                        join_spec(string_views(a@), ", "@) + "  "@,
                        Color::Yellow,
                    ),
                ),
                None => head,
            };
            let with_album = match t.album {
                Some(a) => with_artist.push(
                    segment_of("media_album"@, a@ + "  "@, Color::Blue),
                ),
                None => with_artist,
            };
            with_album.push(
                segment_of(
                    "media_progress"@,
                    duration_text(t.position_secs) + "/"@ + duration_text(t.length_secs),
                    Color::Green,
                ),
            )
        },
    }
}

/// What a click on the media block asks the player to do.
#[derive(Debug, Clone, Copy, PartialEq, Eq, Structural)]
pub enum MediaCommand {
    PlayPause,
    Previous,
    Next,
    VolumeUp,
    VolumeDown,
}

pub open spec fn media_command_of(b: Button) -> Option<MediaCommand> {
    match b {
        Button::Left => Some(MediaCommand::PlayPause),
        Button::Middle => Some(MediaCommand::Previous),
        Button::Right => Some(MediaCommand::Next),
        Button::ScrollUp => Some(MediaCommand::VolumeUp),
        Button::ScrollDown => Some(MediaCommand::VolumeDown),
        Button::Back => Some(MediaCommand::Previous),
        Button::Forward => Some(MediaCommand::Next),
        _ => None,
    }
}

/// The track that the chosen media player is on, one segment per field.
#[derive(Debug)]
pub struct MediaBlock {
    pub blocks: Vec<BlockOutput>,
    pub color: Color,
}

impl Default for MediaBlock {
    fn default() -> (r: MediaBlock)
        ensures
            r.blocks@.len() == 0,
            r.color == Color::White,
    {
        MediaBlock { blocks: Vec::new(), color: Color::White }
    }
}

impl MediaBlock {
    /// Shows what `reading` found.
    pub fn update(&mut self, reading: MediaReading)
        ensures
            segment_views(final(self).blocks@) == media_segments(reading, old(self).color),
            final(self).color == old(self).color,
    {
        let ghost spec_reading = reading;
        let mut blocks: Vec<BlockOutput> = Vec::new();
        match reading {
            MediaReading::NoPlayer => {
                blocks.push(make_block("media_error", "No player found", self.color));
            },
            MediaReading::NoMetadata => {
                blocks.push(make_block("media_error", "No song metadata found", self.color));
            },
            MediaReading::Track(t) => {
                let status = match t.status {
                    Some(PlaybackStatus::Playing) => "▶ ",
                    Some(PlaybackStatus::Paused) => "⏸ ",
                    _ => "⏹ ",
                };
                blocks.push(make_block("media_status", status, Color::White));
                let mut title = match &t.title {
                    Some(s) => s.clone(),
                    None => String::from_str("Unknown Title"),
                };
                title.append("  ");
                blocks.push(make_block("media_title", title.as_str(), Color::Red));
                match &t.artists {
                    Some(a) => {
                        let mut artist = join(a, ", ");
                        artist.append("  ");
                        blocks.push(make_block("media_artist", artist.as_str(), Color::Yellow));
                    },
                    None => {},
                }
                match &t.album {
                    Some(a) => {
                        let mut album = a.clone();
                        album.append("  ");
                        blocks.push(make_block("media_album", album.as_str(), Color::Blue));
                    },
                    None => {},
                }
                let mut progress = format_duration(t.position_secs);
                progress.append("/");
                let length = format_duration(t.length_secs);
                progress.append(length.as_str());
                blocks.push(make_block("media_progress", progress.as_str(), Color::Green));
            },
        }
        assert(segment_views(blocks@) =~= media_segments(spec_reading, self.color));
        self.blocks = blocks;
    }

    /// The command that a click asks for; `None` when the click is ignored.
    pub fn handle_input(&self, event: &InputEvent) -> (r: Option<MediaCommand>)
        ensures
            r == media_command_of(event.button),
    {
        match event.button {
            Button::Left => Some(MediaCommand::PlayPause),
            Button::Middle => Some(MediaCommand::Previous),
            Button::Right => Some(MediaCommand::Next),
            Button::ScrollUp => Some(MediaCommand::VolumeUp),
            Button::ScrollDown => Some(MediaCommand::VolumeDown),
            Button::Back => Some(MediaCommand::Previous),
            Button::Forward => Some(MediaCommand::Next),
            _ => None,
        }
    }
}

impl BlockInterface for MediaBlock {
    open spec fn name_spec(&self) -> Seq<char> {
        "media"@
    }

    open spec fn segments_spec(&self) -> Seq<SegmentView> {
        segment_views(self.blocks@)
    }

    fn name(&self) -> (r: &str) {
        "media"
    }

    fn get_blocks(&self) -> (r: Vec<BlockOutput>) {
        let mut out: Vec<BlockOutput> = Vec::new();
        append_segments(&mut out, &self.blocks);
        assert(segment_views(out@) =~= segment_views(self.blocks@));
        out
    }
}

} // verus!
