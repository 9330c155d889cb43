use gpui_ios::demo_state::{
    clamp_segment, clipboard_read_status, composed_display, edit_text, field_display, or_none,
    palette, picker_opening_status, picker_status, stepper_decrement, stepper_increment,
    CombinedDemo, EventLog, FileDropDemo, TapBox, Palette, PickerKind, PickerOutcome, TouchDemo, EVENT_LOG_CAPACITY,
};
use gpui_ios::platform::WindowAppearance;

#[test]
fn single_line_editing() {
    let mut text = String::from("ab");
    edit_text(&mut text, "c", Some("c"), false);
    assert_eq!(text, "abc");
    edit_text(&mut text, "backspace", None, false);
    assert_eq!(text, "ab");
    edit_text(&mut text, "enter", None, false);
    assert_eq!(text, "ab");
    edit_text(&mut text, "shift", None, false);
    assert_eq!(text, "ab");
    let mut empty = String::new();
    edit_text(&mut empty, "backspace", None, false);
    assert_eq!(empty, "");
}

#[test]
fn multi_line_editing() {
    let mut text = String::from("line");
    edit_text(&mut text, "enter", None, true);
    assert_eq!(text, "line\n");
    edit_text(&mut text, "space", Some(" "), true);
    assert_eq!(text, "line\n ");
    edit_text(&mut text, "backspace", None, true);
    edit_text(&mut text, "backspace", None, true);
    assert_eq!(text, "line");
}

#[test]
fn field_display_text() {
    assert_eq!(field_display("", false), "Tap here to type...");
    assert_eq!(field_display("", true), "|");
    assert_eq!(field_display("hey", false), "hey|");
    assert_eq!(field_display("hey", true), "hey|");
    assert_eq!(composed_display(""), "<empty>");
    assert_eq!(composed_display("日本"), "日本");
}

#[test]
fn event_log_keeps_last_forty() {
    let mut log = EventLog::new();
    for i in 0..45 {
        log.record(format!("event {i}"));
    }
    assert_eq!(log.lines.len(), EVENT_LOG_CAPACITY);
    assert_eq!(log.lines[0], "event 5");
    assert_eq!(log.lines[39], "event 44");
    let recent = log.recent();
    assert_eq!(recent.len(), 10);
    assert_eq!(recent[0], "event 44");
    assert_eq!(recent[9], "event 35");
}

#[test]
fn event_log_recent_when_short() {
    let mut log = EventLog::new();
    log.record("a".to_string());
    log.record("b".to_string());
    assert_eq!(log.recent(), vec!["b".to_string(), "a".to_string()]);
    assert!(EventLog::new().recent().is_empty());
}

#[test]
fn stepper_stays_in_bounds() {
    assert_eq!(stepper_increment(5), 6);
    assert_eq!(stepper_increment(20), 20);
    assert_eq!(stepper_decrement(0), 0);
    assert_eq!(stepper_decrement(7), 6);
    assert_eq!(stepper_decrement(50), 20);
    assert_eq!(stepper_increment(-10), 0);
    assert_eq!(stepper_decrement(stepper_increment(3)), 3);
}

#[test]
fn segments_clamp() {
    assert_eq!(clamp_segment(0), 0);
    assert_eq!(clamp_segment(2), 2);
    assert_eq!(clamp_segment(7), 2);
}

#[test]
fn touch_demo_counts_taps() {
    let mut d = TouchDemo::new();
    assert_eq!(d.title(), "Tap a box! (taps: 0)");
    assert_eq!(d.box_color(1, 0xa6e3a1, 0x55ff77), 0xa6e3a1);
    d.tap(1);
    d.tap(2);
    assert_eq!(d.tapped_box, Some(2));
    assert_eq!(d.title(), "Tap a box! (taps: 2)");
    assert_eq!(d.box_color(2, 0x89b4fa, 0x5577ff), 0x5577ff);
    assert_eq!(d.box_color(1, 0xa6e3a1, 0x55ff77), 0xa6e3a1);
}

#[test]
fn palettes() {
    let dark = Palette { background: 0x1e1e2e, text: 0xcdd6f4, panel: 0x313244, muted: 0x6c7086 };
    let light = Palette { background: 0xeff1f5, text: 0x4c4f69, panel: 0xccd0da, muted: 0x9ca0b0 };
    assert_eq!(palette(WindowAppearance::Dark), dark);
    assert_eq!(palette(WindowAppearance::VibrantDark), dark);
    assert_eq!(palette(WindowAppearance::Light), light);
    assert_eq!(palette(WindowAppearance::VibrantLight), light);
}

#[test]
fn picker_statuses() {
    assert_eq!(picker_opening_status(PickerKind::Files), "Opening file picker (files)...");
    assert_eq!(picker_opening_status(PickerKind::Directories), "Opening file picker (directories)...");
    assert_eq!(picker_opening_status(PickerKind::Save), "Opening save picker...");
    assert_eq!(picker_status(PickerKind::Files, &PickerOutcome::Picked { count: 3 }), "Selected 3 file(s)");
    assert_eq!(picker_status(PickerKind::Directories, &PickerOutcome::Picked { count: 1 }), "Selected 1 folder(s)");
    assert_eq!(picker_status(PickerKind::Save, &PickerOutcome::Picked { count: 1 }), "Save destination selected");
    assert_eq!(picker_status(PickerKind::Directories, &PickerOutcome::Cancelled), "Directory picker cancelled");
    assert_eq!(
        picker_status(PickerKind::Files, &PickerOutcome::Failed { error: "denied".into() }),
        "File picker failed: denied"
    );
    assert_eq!(
        picker_status(PickerKind::Save, &PickerOutcome::ChannelFailed { error: "oneshot canceled".into() }),
        "Save picker channel failed: oneshot canceled"
    );
}

#[test]
fn clipboard_statuses() {
    assert_eq!(clipboard_read_status(1), "Read 1 clipboard entry");
    assert_eq!(clipboard_read_status(0), "Read 0 clipboard entries");
    assert_eq!(clipboard_read_status(2), "Read 2 clipboard entries");
    assert_eq!(or_none(None), "<none>");
    assert_eq!(or_none(Some("x".into())), "x");
}

#[test]
fn file_drop_demo() {
    let mut d = FileDropDemo { status: String::new(), hover_count: 0, dropped_paths: vec![] };
    assert!(!d.highlighted());
    d.drag_moved(2);
    assert!(d.highlighted());
    assert_eq!(d.status, "Dragging 2 file(s)...");
    let paths: Vec<String> = (0..10).map(|i| format!("/f{i}")).collect();
    d.dropped(paths.clone());
    assert!(!d.highlighted());
    assert_eq!(d.dropped_paths, paths);
    assert_eq!(d.status, "Dropped 10 file(s)");
    assert_eq!(d.shown_count(), 8);
    d.dropped(vec!["/only".into()]);
    assert_eq!(d.shown_count(), 1);
}

#[test]
fn combined_demo_taps() {
    let mut d = CombinedDemo::new();
    assert_eq!(d.status_line(), "Taps: 0  Last: none");
    d.tap(TapBox::Red);
    d.tap(TapBox::Blue);
    assert_eq!(d.status_line(), "Taps: 2  Last: blue");
    assert_eq!(TapBox::Green.name(), "green");
}
