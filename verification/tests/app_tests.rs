use gpui_ios::demos::{
    all_demos, available_demo_names, demo_names_joined, demo_to_run, list_demos, resolve_demo,
    unknown_demo_message, Demo, DemoLaunch,
};
use gpui_ios::logging::{
    enabled, format_log_line, format_timestamp, level_color, level_tag, parse_level_filter,
    LevelFilter, LogLevel, RelayReconnectState, TCP_RECONNECT_COOLDOWN_MS,
};
use gpui_ios::url_scheme::{register_url_scheme, scheme_is_declared, url_scheme, BundleUrlTypes, UrlSchemeError};

const ALL_NAMES: [&str; 19] = [
    "hello_world",
    "touch",
    "text",
    "lifecycle",
    "combined",
    "scroll",
    "text_input",
    "vertical_scroll",
    "horizontal_scroll",
    "pinch",
    "rotation",
    "controls",
    "native_controls",
    "safe_area",
    "layout_showcase",
    "keyboard_ime",
    "file_picker",
    "clipboard",
    "file_drop",
];

#[test]
fn level_filtering() {
    assert!(enabled(LogLevel::Error, LevelFilter::Error));
    assert!(!enabled(LogLevel::Warn, LevelFilter::Error));
    assert!(enabled(LogLevel::Debug, LevelFilter::Debug));
    assert!(!enabled(LogLevel::Trace, LevelFilter::Debug));
    assert!(!enabled(LogLevel::Error, LevelFilter::Off));
    assert!(enabled(LogLevel::Trace, LevelFilter::Trace));
}

#[test]
fn level_tags_and_colors() {
    assert_eq!(level_tag(LogLevel::Warn), "WARN ");
    assert_eq!(level_tag(LogLevel::Trace), "TRACE");
    assert_eq!(level_color(LogLevel::Error), "\x1b[31m");
    assert_eq!(level_color(LogLevel::Info), "\x1b[32m");
    assert_eq!(level_color(LogLevel::Trace), "\x1b[90m");
}

#[test]
fn timestamps() {
    assert_eq!(format_timestamp(0, 0), "00:00:00.000");
    // 1 day + 13:05:09 and 42 ms
    let secs = 86_400 + 13 * 3600 + 5 * 60 + 9;
    assert_eq!(format_timestamp(secs, 42), "13:05:09.042");
    assert_eq!(format_timestamp(86_399, 999), "23:59:59.999");
}

#[test]
fn log_lines() {
    assert_eq!(
        format_log_line("12:00:00.000", LogLevel::Info, "gpui_ios", "window created"),
        "12:00:00.000 \x1b[32mINFO \x1b[0m [gpui_ios] window created"
    );
    assert_eq!(format_log_line("t", LogLevel::Error, "", ""), "t \x1b[31mERROR\x1b[0m [] ");
}

#[test]
fn relay_reconnect_cooldown() {
    let mut state = RelayReconnectState { last_reconnect_attempt_ms: 0 };
    assert!(state.begin_attempt(TCP_RECONNECT_COOLDOWN_MS));
    assert_eq!(state.last_reconnect_attempt_ms, 5000);
    assert!(!state.begin_attempt(9_999));
    assert_eq!(state.last_reconnect_attempt_ms, 5000);
    assert!(state.begin_attempt(10_000));
    // A clock that went backwards never triggers an attempt.
    assert!(!state.begin_attempt(1));
    assert_eq!(state.last_reconnect_attempt_ms, 10_000);
}

#[test]
fn level_setting() {
    assert_eq!(parse_level_filter(Some("trace")), LevelFilter::Trace);
    assert_eq!(parse_level_filter(Some("WARN")), LevelFilter::Warn);
    assert_eq!(parse_level_filter(Some("error")), LevelFilter::Error);
    assert_eq!(parse_level_filter(Some("Info")), LevelFilter::Debug);
    assert_eq!(parse_level_filter(None), LevelFilter::Debug);
}

#[test]
fn demo_catalogue() {
    assert_eq!(available_demo_names(), ALL_NAMES.to_vec());
    let demos = all_demos();
    assert_eq!(demos.len(), 19);
    for (demo, name) in demos.iter().zip(ALL_NAMES.iter()) {
        assert_eq!(demo.name(), *name);
        assert_eq!(Demo::from_name(name), Some(*demo));
    }
    assert_eq!(Demo::from_name("nope"), None);
    assert_eq!(Demo::from_name("Touch"), None);
}

#[test]
fn demo_listing() {
    assert_eq!(list_demos(), ALL_NAMES.join("\n"));
    assert_eq!(demo_names_joined(", "), ALL_NAMES.join(", "));
    assert_eq!(
        unknown_demo_message("bogus"),
        format!("Unknown demo: 'bogus'. Available: {}", ALL_NAMES.join(", "))
    );
}

#[test]
fn demo_resolution() {
    assert_eq!(resolve_demo(Some("pinch")), DemoLaunch::Known(Demo::Pinch));
    assert_eq!(resolve_demo(Some("bogus")), DemoLaunch::UnknownFallback);
    assert_eq!(resolve_demo(None), DemoLaunch::Known(Demo::HelloWorld));
    assert_eq!(demo_to_run(DemoLaunch::UnknownFallback), Demo::HelloWorld);
    assert_eq!(demo_to_run(DemoLaunch::Known(Demo::FileDrop)), Demo::FileDrop);
}

#[test]
fn scheme_extraction() {
    assert_eq!(url_scheme("  zed://  "), "zed");
    assert_eq!(url_scheme("zed"), "zed");
    assert_eq!(url_scheme("zed:///"), "zed");
    assert_eq!(url_scheme("myapp://open?x=1"), "myapp");
    assert_eq!(url_scheme("a:b://"), "a");
    assert_eq!(url_scheme("\tgpui\n"), "gpui");
    assert_eq!(url_scheme(""), "");
    assert_eq!(url_scheme("MyApp://"), "MyApp");
    assert_eq!(url_scheme("\u{3000}ideo\u{2028}"), "ideo");
}

#[test]
fn scheme_declaration_ignores_ascii_case() {
    let declared = vec!["Zed".to_string(), "other".to_string()];
    assert!(scheme_is_declared(&declared, "zed"));
    assert!(scheme_is_declared(&declared, "OTHER"));
    assert!(!scheme_is_declared(&declared, "zedx"));
    assert!(!scheme_is_declared(&[], "zed"));
}

#[test]
fn scheme_registration() {
    let bundle = BundleUrlTypes::Declared(vec!["zed".to_string()]);
    assert!(register_url_scheme("zed://", &bundle).is_ok());
    match register_url_scheme("other://", &bundle) {
        Err(e @ UrlSchemeError::NotDeclared { .. }) => {
            assert_eq!(e.message(), "URL scheme 'other' is not declared in CFBundleURLTypes")
        }
        other => panic!("unexpected {:?}", other),
    }
    match register_url_scheme("zed://", &BundleUrlTypes::NoUrlTypes) {
        Err(UrlSchemeError::NotDeclared { scheme }) => assert_eq!(scheme, "zed"),
        other => panic!("unexpected {:?}", other),
    }
    let e = register_url_scheme("zed", &BundleUrlTypes::NoBundle).unwrap_err();
    assert_eq!(e.message(), "main bundle unavailable; cannot validate URL scheme");
    let e = register_url_scheme("zed", &BundleUrlTypes::NoInfoPlist).unwrap_err();
    assert_eq!(e.message(), "Info.plist missing; cannot validate URL scheme");
}
