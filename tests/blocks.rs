use bar_rs::blocks::clock_block::ClockBlock;
use bar_rs::blocks::date_block::{day_suffix, DateBlock};
use bar_rs::blocks::load_block::LoadBlock;
use bar_rs::blocks::media_block::{
    find_active_non_kdeconnect, format_duration, join, MediaBlock, MediaReading, PlaybackStatus,
    PlayerSummary, TrackInfo,
};
use bar_rs::blocks::network_block::{pretty_speed, record, InterfaceCounters, NetworkBlock};
use bar_rs::blocks::volume_block::VolumeBlock;
use bar_rs::blocks::{escape, make_block, BlockInterface, Separator};
use bar_rs::clock::LocalTime;
use bar_rs::colors::Color;

#[test]
fn escape_replaces_quotes() {
    assert_eq!(escape("say \"hi\""), "say &quot;hi&quot;");
    assert_eq!(escape("plain"), "plain");
    assert_eq!(escape(""), "");
}

#[test]
fn make_block_escapes_every_field() {
    let b = make_block("a\"b", "x\"y", Color::Red);
    assert_eq!(b.name, "a&quot;b");
    assert_eq!(b.full_text, "x&quot;y");
    assert_eq!(b.color, "#D65453");
    assert!(!b.separator);
    assert_eq!(b.separator_block_width, 0);
}

#[test]
fn color_values() {
    assert_eq!(Color::Gray.value(), "#9C998E");
    assert_eq!(Color::LightCyan.value(), "#85D5D4");
    assert_eq!(Color::default().value(), "#cccccc");
}

#[test]
fn clock_formats_hours_and_minutes() {
    let mut c = ClockBlock::default();
    c.set_time(LocalTime { hour: 9, minute: 5, day: 1, month: 1, weekday: 0 });
    assert_eq!(c.text(), "09:05");
    c.set_time(LocalTime { hour: 23, minute: 59, day: 1, month: 1, weekday: 0 });
    assert_eq!(c.text(), "23:59");
    let segs = c.get_blocks();
    assert_eq!(segs.len(), 1);
    assert_eq!(segs[0].name, "clock");
    assert_eq!(segs[0].full_text, "23:59");
}

#[test]
fn clock_update_gives_a_time() {
    let mut c = ClockBlock::default();
    c.update();
    let t = c.text();
    assert_eq!(t.len(), 5);
    assert_eq!(&t[2..3], ":");
}

#[test]
fn date_spells_out_the_day() {
    let mut d = DateBlock::default();
    d.set_time(LocalTime { hour: 0, minute: 0, day: 21, month: 3, weekday: 4 });
    assert_eq!(d.text(), "Friday 21st of March");
    d.set_time(LocalTime { hour: 0, minute: 0, day: 12, month: 12, weekday: 6 });
    assert_eq!(d.text(), "Sunday 12th of December");
}

#[test]
fn day_suffixes() {
    assert_eq!(day_suffix(1), "st");
    assert_eq!(day_suffix(2), "nd");
    assert_eq!(day_suffix(3), "rd");
    assert_eq!(day_suffix(11), "th");
    assert_eq!(day_suffix(22), "nd");
    assert_eq!(day_suffix(23), "rd");
    assert_eq!(day_suffix(31), "st");
}

#[test]
fn load_thresholds() {
    let mut l = LoadBlock::default();
    l.update(57, 57);
    assert_eq!(l.text(), "0.57");
    assert_eq!(l.color(), Color::White);
    l.update(105, 105);
    assert_eq!(l.text(), "1.05");
    assert_eq!(l.color(), Color::Yellow);
    l.update(250, 250);
    assert_eq!(l.text(), "2.50!!!");
    assert_eq!(l.color(), Color::Red);
    assert_eq!(l.get_blocks()[0].color, "#D65453");
}

#[test]
fn load_thresholds_go_by_the_unrounded_load() {
    let mut l = LoadBlock::default();
    // A load of 0.996 is written 1.00 but is still below 1.
    l.update(100, 99);
    assert_eq!(l.text(), "1.00");
    assert_eq!(l.color(), Color::White);
    // A load of 1.996 is written 2.00 but is still below 2.
    l.update(200, 199);
    assert_eq!(l.text(), "2.00");
    assert_eq!(l.color(), Color::Yellow);
}

#[test]
fn separators_carry_their_own_names() {
    let s = Separator::named("separator3");
    assert_eq!(s.name(), "separator3");
    assert_eq!(s.get_blocks()[0].name, "separator3");
    assert_eq!(s.get_blocks()[0].full_text, s.text());
}

#[test]
fn durations() {
    assert_eq!(format_duration(None), "?:??");
    assert_eq!(format_duration(Some(65)), "01:05");
    assert_eq!(format_duration(Some(3600)), "60:00");
    assert_eq!(format_duration(Some(3725)), "1:02:05");
    assert_eq!(format_duration(Some(0)), "00:00");
}

#[test]
fn speeds() {
    assert_eq!(pretty_speed(None), "N/A");
    assert_eq!(pretty_speed(Some(123456789)), " 123MB");
    assert_eq!(pretty_speed(Some(12345678)), "12.3MB");
    assert_eq!(pretty_speed(Some(1234567)), "1.23MB");
    assert_eq!(pretty_speed(Some(123456)), " 123kB");
    assert_eq!(pretty_speed(Some(12345)), "12.3kB");
    assert_eq!(pretty_speed(Some(1005)), "1.00kB");
    assert_eq!(pretty_speed(Some(12)), "  12 B");
}

#[test]
fn history_window() {
    let mut h: Vec<(u64, u64)> = Vec::new();
    assert_eq!(record(&mut h, 1000, 5000), None);
    assert_eq!(record(&mut h, 2000, 7000), Some(2000));
    assert_eq!(h.len(), 2);
    assert_eq!(record(&mut h, 13000, 9000), None);
    assert_eq!(h, vec![(13000, 9000)]);
}

#[test]
fn network_counts_wired_interfaces() {
    let mut n = NetworkBlock::default();
    let first = vec![
        InterfaceCounters { name: "enp3s0".to_string(), received: 100, transmitted: 50 },
        InterfaceCounters { name: "wlan0".to_string(), received: 1000, transmitted: 1000 },
    ];
    n.update(&first, 0);
    assert_eq!(n.bps_up, None);
    let second = vec![InterfaceCounters {
        name: "enp3s0".to_string(),
        received: 1100,
        transmitted: 250,
    }];
    n.update(&second, 1000);
    assert_eq!(n.bps_up, Some(1000));
    assert_eq!(n.bps_down, Some(200));
    let segs = n.get_blocks();
    assert_eq!(segs.len(), 2);
    assert_eq!(segs[0].name, "network_device");
    assert_eq!(segs[0].full_text, "Eth ");
    assert_eq!(segs[1].name, "network_speed");
    assert_eq!(segs[1].full_text, "▲ 1.00kB ▼  200 B");
}

#[test]
fn player_choice_prefers_playing_then_spotify() {
    let players = vec![
        PlayerSummary { name: "kdeconnect".to_string(), status: Some(PlaybackStatus::Playing) },
        PlayerSummary { name: "spotify".to_string(), status: Some(PlaybackStatus::Paused) },
        PlayerSummary { name: "vlc".to_string(), status: Some(PlaybackStatus::Playing) },
    ];
    assert_eq!(find_active_non_kdeconnect(&players), Some(2));
    let tie = vec![
        PlayerSummary { name: "mpv".to_string(), status: None },
        PlayerSummary { name: "vlc".to_string(), status: None },
    ];
    assert_eq!(find_active_non_kdeconnect(&tie), Some(0));
    assert_eq!(find_active_non_kdeconnect(&Vec::new()), None);
}

#[test]
fn joins_artists() {
    let a = vec!["A".to_string(), "B".to_string(), "C".to_string()];
    assert_eq!(join(&a, ", "), "A, B, C");
    assert_eq!(join(&Vec::new(), ", "), "");
}

#[test]
fn media_segments_per_field() {
    let mut m = MediaBlock::default();
    m.update(MediaReading::NoPlayer);
    assert_eq!(m.get_blocks().len(), 1);
    assert_eq!(m.get_blocks()[0].name, "media_error");
    assert_eq!(m.get_blocks()[0].full_text, "No player found");
    m.update(MediaReading::Track(TrackInfo {
        status: Some(PlaybackStatus::Playing),
        title: Some("Song".to_string()),
        artists: Some(vec!["A".to_string(), "B".to_string()]),
        album: None,
        position_secs: Some(61),
        length_secs: Some(200),
    }));
    let segs = m.get_blocks();
    let names: Vec<&str> = segs.iter().map(|s| s.name.as_str()).collect();
    assert_eq!(names, vec!["media_status", "media_title", "media_artist", "media_progress"]);
    assert_eq!(segs[0].full_text, "▶ ");
    assert_eq!(segs[1].full_text, "Song  ");
    assert_eq!(segs[2].full_text, "A, B  ");
    assert_eq!(segs[3].full_text, "01:01/03:20");
    m.update(MediaReading::NoMetadata);
    assert_eq!(m.get_blocks()[0].full_text, "No song metadata found");
}

#[test]
fn volume_shows_reported_text() {
    let mut v = VolumeBlock::default();
    v.update("45%");
    assert_eq!(v.text(), "45%");
    assert_eq!(v.get_blocks()[0].color, "#D65453");
}

#[test]
fn separator_is_fixed() {
    let s = Separator::default();
    let segs = s.get_blocks();
    assert_eq!(segs.len(), 1);
    assert_eq!(segs[0].name, "separator");
    assert_eq!(segs[0].color, "#9C998E");
}
