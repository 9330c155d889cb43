use gpui_ios::clipboard::{
    pasteboard_read, pasteboard_write_steps, PasteboardContent, PasteboardWriteStep,
    CLIPBOARD_METADATA_TYPE,
};
use gpui_ios::input::{
    drop_can_handle, gesture_phase, hover_moves_pointer, long_press_action,
    resigns_on_take_input_handler, should_request_keyboard, unhandled_dispatch_result, url_paths,
    DispatchEventResult, LongPressAction, PickedUrl, TouchPhase, TouchTracker,
};
use gpui_ios::window::{
    background_plan, creates_window_with_scene, perform_drop_events, scene_transition,
    teardown_steps, window_gestures, BackgroundAppearance, BackgroundPlan, DropEvent,
    FrameScheduler, GestureKind, SceneAction, SceneEvent, TeardownStep, WindowResources,
    BLUR_AUTORESIZING_MASK, BLUR_EFFECT_STYLE_SYSTEM_MATERIAL, DROP_OPERATION_COPY,
};

#[test]
fn gesture_phases() {
    assert_eq!(gesture_phase(1), Some(TouchPhase::Started));
    assert_eq!(gesture_phase(2), Some(TouchPhase::Moved));
    assert_eq!(gesture_phase(3), Some(TouchPhase::Ended));
    assert_eq!(gesture_phase(4), Some(TouchPhase::Ended));
    assert_eq!(gesture_phase(0), None);
    assert_eq!(gesture_phase(5), None);
    assert!(hover_moves_pointer(1) && hover_moves_pointer(2));
    assert!(!hover_moves_pointer(3));
}

#[test]
fn long_press_is_right_click() {
    assert_eq!(long_press_action(1), LongPressAction::RightButtonDown);
    assert_eq!(long_press_action(2), LongPressAction::Nothing);
    assert_eq!(long_press_action(3), LongPressAction::RightButtonUp);
    assert_eq!(long_press_action(4), LongPressAction::RightButtonUp);
}

#[test]
fn first_touch_is_tracked_until_released() {
    let mut t = TouchTracker::new();
    assert_eq!(t.primary_touch(&[]), None);
    assert_eq!(t.tracked_touch, None);
    assert_eq!(t.primary_touch(&[0xA0, 0xB0]), Some(0xA0));
    assert_eq!(t.tracked_touch, Some(0xA0));
    assert_eq!(t.primary_touch(&[0xB0, 0xA0]), Some(0xA0));
    assert_eq!(t.primary_touch(&[0xB0]), None);
    t.release();
    assert_eq!(t.primary_touch(&[0xB0]), Some(0xB0));
}

#[test]
fn keyboard_request_after_touch() {
    let consumed = DispatchEventResult { propagate: false, default_prevented: true };
    assert!(should_request_keyboard(true, consumed, false));
    assert!(!should_request_keyboard(true, consumed, true));
    assert!(!should_request_keyboard(false, consumed, false));
    let unhandled = unhandled_dispatch_result();
    assert_eq!(unhandled, DispatchEventResult { propagate: true, default_prevented: false });
    assert!(!should_request_keyboard(true, unhandled, false));
    assert!(resigns_on_take_input_handler(true, false));
    assert!(!resigns_on_take_input_handler(false, false));
    assert!(!resigns_on_take_input_handler(true, true));
}

#[test]
fn drops_accept_urls() {
    assert!(drop_can_handle(true, false));
    assert!(drop_can_handle(false, true));
    assert!(!drop_can_handle(false, false));
    assert_eq!(DROP_OPERATION_COPY, 2);
}

#[test]
fn dropped_urls_become_paths() {
    let urls = vec![
        PickedUrl { is_file_url: true, path: Some("/tmp/a.txt".into()) },
        PickedUrl { is_file_url: false, path: Some("https://x".into()) },
        PickedUrl { is_file_url: true, path: Some(String::new()) },
        PickedUrl { is_file_url: true, path: None },
        PickedUrl { is_file_url: true, path: Some("/tmp/b".into()) },
    ];
    assert_eq!(url_paths(&urls), vec!["/tmp/a.txt".to_string(), "/tmp/b".to_string()]);
}

#[test]
fn drop_event_sequences() {
    assert_eq!(perform_drop_events(vec![]), vec![DropEvent::Exited]);
    assert_eq!(
        perform_drop_events(vec!["/a".to_string()]),
        vec![DropEvent::Entered { paths: vec!["/a".to_string()] }, DropEvent::Submit, DropEvent::Exited]
    );
}

#[test]
fn scene_lifecycle() {
    let mut active = false;
    assert_eq!(scene_transition(&mut active, SceneEvent::DidActivate, true), SceneAction::NotifyActive { active: true });
    assert!(active);
    assert_eq!(
        scene_transition(&mut active, SceneEvent::DidEnterBackground, true),
        SceneAction::PauseDisplayLink { paused: true }
    );
    assert!(active);
    assert_eq!(scene_transition(&mut active, SceneEvent::WillEnterForeground, false), SceneAction::Nothing);
    assert_eq!(
        scene_transition(&mut active, SceneEvent::WillEnterForeground, true),
        SceneAction::PauseDisplayLink { paused: false }
    );
    assert_eq!(scene_transition(&mut active, SceneEvent::WillDeactivate, true), SceneAction::NotifyActive { active: false });
    assert!(!active);
}

#[test]
fn only_first_frame_is_forced() {
    let mut s = FrameScheduler::new();
    let first = s.next_frame();
    assert!(first.force_render && !first.require_presentation);
    assert!(!s.next_frame().force_render);
    assert!(!s.next_frame().force_render);
}

#[test]
fn background_plans() {
    assert_eq!(
        background_plan(BackgroundAppearance::Blurred, true),
        BackgroundPlan { remove_existing_blur: true, layer_opaque: false, insert_blur: true }
    );
    assert_eq!(
        background_plan(BackgroundAppearance::Transparent, false),
        BackgroundPlan { remove_existing_blur: false, layer_opaque: false, insert_blur: false }
    );
    assert!(background_plan(BackgroundAppearance::Opaque, false).layer_opaque);
    assert!(background_plan(BackgroundAppearance::MicaBackdrop, false).layer_opaque);
    assert!(!background_plan(BackgroundAppearance::MicaAltBackdrop, false).insert_blur);
    assert_eq!(BLUR_EFFECT_STYLE_SYSTEM_MATERIAL, 6);
    assert_eq!(BLUR_AUTORESIZING_MASK, 0x3F);
}

fn all_resources() -> WindowResources {
    WindowResources {
        scene_observer: true,
        scene_observer_state: true,
        ui_view: true,
        view_state: true,
        tokenizer: true,
        drop_delegate: true,
        drop_delegate_state: true,
        display_link: true,
        display_link_target: true,
        frame_callback: true,
        blur_view: true,
        drop_interaction: true,
        gesture_delegate: true,
        view_controller: true,
        ui_window: true,
        on_close: true,
    }
}

#[test]
fn full_teardown_order() {
    assert_eq!(
        teardown_steps(all_resources()),
        vec![
            TeardownStep::RemoveSceneObserver,
            TeardownStep::DropSceneObserverState,
            TeardownStep::ReleaseSceneObserver,
            TeardownStep::DropViewState,
            TeardownStep::DropDropDelegateState,
            TeardownStep::InvalidateDisplayLink,
            TeardownStep::ReleaseDisplayLinkTarget,
            TeardownStep::FreeFrameCallback,
            TeardownStep::RemoveBlurView,
            TeardownStep::ReleaseDropInteraction,
            TeardownStep::ReleaseDropDelegate,
            TeardownStep::ReleaseGestureDelegate,
            TeardownStep::ReleaseTokenizer,
            TeardownStep::ReleaseView,
            TeardownStep::ReleaseViewController,
            TeardownStep::ReleaseWindow,
            TeardownStep::NotifyClosed,
        ]
    );
}

#[test]
fn partial_teardown() {
    let mut r = all_resources();
    r.scene_observer = false;
    r.ui_view = false;
    r.display_link = false;
    r.blur_view = false;
    r.on_close = false;
    assert_eq!(
        teardown_steps(r),
        vec![
            TeardownStep::DropDropDelegateState,
            TeardownStep::ReleaseDisplayLinkTarget,
            TeardownStep::FreeFrameCallback,
            TeardownStep::ReleaseDropInteraction,
            TeardownStep::ReleaseDropDelegate,
            TeardownStep::ReleaseGestureDelegate,
            TeardownStep::ReleaseViewController,
            TeardownStep::ReleaseWindow,
        ]
    );
}

#[test]
fn window_setup() {
    assert!(creates_window_with_scene(1));
    assert!(!creates_window_with_scene(0));
    let gestures = window_gestures();
    assert_eq!(gestures.len(), 6);
    assert_eq!(gestures[0].kind, GestureKind::ScrollPan);
    assert_eq!(gestures[0].touches, Some(2));
    assert_eq!(gestures[1].kind, GestureKind::SingleFingerPan);
    assert!(!gestures[1].simultaneous);
    assert_eq!(gestures[5].kind, GestureKind::LongPress);
    assert!(gestures[5].simultaneous);
}

#[test]
fn pasteboard_reading() {
    assert_eq!(
        pasteboard_read(Some("hi".into()), Some("{}".into()), Some(vec![1, 2])),
        Some(PasteboardContent::Text { text: "hi".into(), metadata: Some("{}".into()) })
    );
    assert_eq!(pasteboard_read(None, None, Some(vec![1, 2])), Some(PasteboardContent::Image { png: vec![1, 2] }));
    assert_eq!(pasteboard_read(None, Some("m".into()), Some(vec![])), None);
    assert_eq!(pasteboard_read(None, None, None), None);
}

#[test]
fn pasteboard_writing() {
    assert_eq!(pasteboard_write_steps(true, true, true), vec![PasteboardWriteStep::SetImage]);
    assert_eq!(
        pasteboard_write_steps(false, true, true),
        vec![PasteboardWriteStep::SetString, PasteboardWriteStep::SetMetadata]
    );
    assert_eq!(pasteboard_write_steps(false, true, false), vec![PasteboardWriteStep::SetString]);
    assert!(pasteboard_write_steps(false, false, true).is_empty());
    assert_eq!(CLIPBOARD_METADATA_TYPE, "dev.gpui.clipboard-metadata");
}
