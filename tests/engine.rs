use bar_rs::blocks::volume_block::VolumeBlock;
use bar_rs::blocks::{make_block, BlockOutput, ClockBlock, DateBlock, Separator};
use bar_rs::codec::{encode_frame, encode_segments, header, stream_open, strip_event_line};
use bar_rs::colors::Color;
use bar_rs::events::{Button, InputEvent};
use bar_rs::registry::{
    render_frame, route, Block, BlockKind, Command, Reading, Registry, UpdateError, NEVER,
    SUB_MINUTE, SUB_SECOND,
};
use bar_rs::blocks::volume_block::VolumeCommand;

fn event(name: &str, button: Button) -> InputEvent {
    InputEvent {
        name: name.to_string(),
        button,
        modifiers: Vec::new(),
        x: 0,
        y: 0,
        relative_x: 0,
        relative_y: 0,
        output_x: 0,
        output_y: 0,
        width: 0,
        height: 0,
    }
}

fn names(segs: &[BlockOutput]) -> Vec<String> {
    segs.iter().map(|s| s.name.clone()).collect()
}

#[test]
fn frame_line_shape() {
    let segs = vec![make_block("clock", "12:00", Color::White)];
    assert_eq!(
        encode_frame(&segs),
        "[{\"name\":\"clock\",\"full_text\":\"12:00\",\"color\":\"#cccccc\",\"separator\":false,\"separator_block_width\":0}],"
    );
    assert_eq!(encode_frame(&Vec::new()), "[],");
}

#[test]
fn header_and_open() {
    let h: serde_json::Value = serde_json::from_str(header()).unwrap();
    assert_eq!(h["version"], 1);
    assert_eq!(h["click_events"], true);
    assert_eq!(stream_open(), "[");
}

#[test]
fn frame_round_trips_through_json() {
    let segs = vec![
        make_block("media_title", "He said \"hi\"  ", Color::Red),
        make_block("a\\b", "tab\there\u{1}", Color::Blue),
        make_block("volume", "", Color::Green),
    ];
    let line = encode_frame(&segs);
    assert!(line.ends_with(','));
    let parsed: serde_json::Value = serde_json::from_str(&line[..line.len() - 1]).unwrap();
    let arr = parsed.as_array().unwrap();
    assert_eq!(arr.len(), segs.len());
    for (obj, seg) in arr.iter().zip(segs.iter()) {
        let obj = obj.as_object().unwrap();
        assert_eq!(obj.len(), 5);
        assert_eq!(obj["name"], seg.name.as_str());
        assert_eq!(obj["full_text"], seg.full_text.as_str());
        assert_eq!(obj["color"], seg.color.as_str());
        assert_eq!(obj["separator"], seg.separator);
        assert_eq!(obj["separator_block_width"], seg.separator_block_width);
    }
    assert_eq!(arr[0]["full_text"], "He said &quot;hi&quot;  ");
    assert_eq!(arr[0]["full_text"].as_str().unwrap().replace("&quot;", "\""), "He said \"hi\"  ");
    assert_eq!(arr[1]["full_text"], "tab\there\u{1}");
}

#[test]
fn segments_join_with_commas() {
    let segs = vec![make_block("a", "1", Color::Red), make_block("b", "2", Color::Red)];
    let s = encode_segments(&segs);
    let parsed: serde_json::Value = serde_json::from_str(&format!("[{}]", s)).unwrap();
    assert_eq!(parsed.as_array().unwrap().len(), 2);
}

#[test]
fn event_lines_lose_leading_commas() {
    assert_eq!(strip_event_line(",{\"name\":\"clock\"}"), "{\"name\":\"clock\"}");
    assert_eq!(strip_event_line("{\"a\":1}"), "{\"a\":1}");
    assert_eq!(strip_event_line(",,x,"), "x,");
    assert_eq!(strip_event_line(""), "");
}

#[test]
fn button_codes() {
    assert_eq!(Button::from_code(1), Some(Button::Left));
    assert_eq!(Button::from_code(4), Some(Button::ScrollUp));
    assert_eq!(Button::from_code(9), Some(Button::Forward));
    assert_eq!(Button::from_code(0), None);
    assert_eq!(Button::from_code(10), None);
    assert_eq!(Button::ScrollDown.code(), 5);
}

#[test]
fn media_title_goes_to_media() {
    let names = vec!["media".to_string(), "volume".to_string()];
    assert_eq!(route(&names, "media_title"), Some(0));
    assert_eq!(route(&names, "volume"), Some(1));
    assert_eq!(route(&names, "clock"), None);
    let shadowed = vec!["med".to_string(), "media".to_string()];
    assert_eq!(route(&shadowed, "media_title"), Some(0));
}

#[test]
fn unmatched_event_changes_nothing() {
    let mut reg = Registry::for_output("HDMI-1");
    let before: Vec<String> = reg.blocks.iter().map(|b| b.to_string()).collect();
    let mut called = false;
    let r = reg.dispatch(&event("weather", Button::Left), |_c| {
        called = true;
        Some(Reading::Nothing)
    });
    assert_eq!(r, None);
    assert!(!called);
    let after: Vec<String> = reg.blocks.iter().map(|b| b.to_string()).collect();
    assert_eq!(before, after);
    let r2 = reg.dispatch(&event("clock", Button::Left), |_c| Some(Reading::Nothing));
    assert_eq!(r2, Some(2));
}

#[test]
fn scroll_up_refreshes_volume_at_once() {
    let mut b = Block::new(BlockKind::Volume(VolumeBlock::default()), SUB_SECOND);
    assert!(b.update(Reading::Volume("45%".to_string())).is_ok());
    let mut seen = None;
    let acted = b.handle_input(&event("volume", Button::ScrollUp), |c| {
        seen = Some(c);
        Some(Reading::Volume("46%".to_string()))
    });
    assert!(acted);
    assert_eq!(seen, Some(Command::Volume(VolumeCommand::Raise)));
    assert_eq!(b.get_blocks()[0].full_text, "46%");
    let ignored = b.handle_input(&event("volume", Button::Right), |_c| {
        Some(Reading::Volume("0%".to_string()))
    });
    assert!(!ignored);
    assert_eq!(b.get_blocks()[0].full_text, "46%");
}

#[test]
fn command_without_effect_reports_no_change() {
    let mut b = Block::new(BlockKind::Volume(VolumeBlock::default()), SUB_SECOND);
    assert!(b.update(Reading::Volume("45%".to_string())).is_ok());
    let acted = b.handle_input(&event("volume", Button::Left), |c| {
        assert_eq!(c, Command::Volume(VolumeCommand::ToggleMute));
        None
    });
    assert!(!acted);
    assert_eq!(b.get_blocks()[0].full_text, "45%");
}

#[test]
fn network_clicks_reach_the_network_block() {
    let mut reg = Registry::for_output("DP-2");
    let segs = reg.render();
    let names = reg.names();
    for seg in segs.iter() {
        let owner = route(&names, &seg.name).expect("every segment has an owner");
        assert!(seg.name.starts_with(names[owner].as_str()));
    }
    assert_eq!(route(&names, "network_speed"), Some(6));
    assert_eq!(reg.dispatch(&event("network_device", Button::Left), |_c| None), Some(6));
}

#[test]
fn failed_update_keeps_segments() {
    let mut b = Block::new(BlockKind::Volume(VolumeBlock::default()), SUB_SECOND);
    assert_eq!(b.update(Reading::Volume("30%".to_string())), Ok(()));
    assert_eq!(b.update(Reading::Unavailable), Err(UpdateError::SourceUnavailable));
    assert_eq!(b.get_blocks()[0].full_text, "30%");
    assert_eq!(b.update(Reading::Load(100, 100)), Err(UpdateError::WrongReading));
    assert_eq!(b.get_blocks()[0].full_text, "30%");
}

#[test]
fn clock_separator_date_scenario() {
    let mut reg = Registry {
        blocks: vec![
            Block::new(BlockKind::Clock(ClockBlock::default()), SUB_MINUTE),
            Block::new(BlockKind::Separator(Separator::default()), NEVER),
            Block::new(BlockKind::Date(DateBlock::default()), SUB_MINUTE),
        ],
    };
    for b in reg.blocks.iter_mut() {
        assert!(b.update(Reading::Nothing).is_ok());
    }
    let frame = reg.render();
    assert_eq!(names(&frame), vec!["clock", "separator", "date"]);
    assert_eq!(frame[0].full_text.len(), 5);
    assert!(frame[2].full_text.contains(" of "));
    let r = reg.dispatch(&event("clock", Button::Left), |_c| Some(Reading::Unavailable));
    assert_eq!(r, Some(0));
    assert_eq!(names(&reg.render()), vec!["clock", "separator", "date"]);
    assert_eq!(reg.render()[0].full_text, frame[0].full_text);
}

#[test]
fn frame_is_blocks_in_order() {
    let parts = vec![
        vec![make_block("a", "1", Color::Red), make_block("b", "2", Color::Red)],
        vec![],
        vec![make_block("c", "3", Color::Red)],
    ];
    assert_eq!(names(&render_frame(&parts)), vec!["a", "b", "c"]);
    let reg = Registry::for_output("DP-2");
    let block_names: Vec<String> = reg.names();
    assert_eq!(
        block_names,
        vec![
            "media", "separator1", "load", "separator2", "volume", "separator3", "network",
            "separator4", "date", "separator5", "clock"
        ]
    );
    assert_eq!(reg.blocks[0].update_time_ms, 250);
    assert_eq!(reg.blocks[10].update_time_ms, 30000);
    assert_eq!(names(&reg.render()).len(), 11);
}

#[test]
fn fallback_layout() {
    let reg = Registry::for_output("eDP-1");
    assert_eq!(reg.names(), vec!["date", "separator", "clock"]);
}
