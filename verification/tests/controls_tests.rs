use gpui_ios::controls::{
    attach_plan, combo_box_text_field_callbacks, flatten_menu_items, flatten_outline_nodes,
    has_combo_box_callbacks, has_text_field_callbacks, has_tracking_view_callbacks, image_source,
    non_null_children, target_plan, target_then_view_cleanup, AttachPlan, ButtonStyle,
    ButtonStylePlan, CleanupStep, ComboBoxCallbacks, ImageSource, NativeMenuItemData,
    NativeOutlineNodeData, TargetPlan, TargetPolicy, TextFieldCallbacks, TrackingViewCallbacks,
};
use gpui_ios::ios_controls::{IosControlKind, IosNativeControls, ALERT_FIRST_BUTTON_RETURN};
use gpui_ios::mac_controls::{MacControlKind, MacNativeControls};
use gpui_ios::panel::{
    panel_appearance, panel_release_steps, panel_style_mask, NativePanelLevel,
    NativePanelMaterial, NativePanelStyle, PanelReleaseStep,
};
use gpui_ios::sidebar::{
    embed_pane, is_sidebar_shortcut, sidebar_detail_text, sidebar_layout,
    sidebar_requires_rebuild, sidebar_row_index, sidebar_selection, sidebar_toggle_action,
    toolbar_items, toolbar_items_to_insert, toolbar_toggles, EmbedPane, SidebarSelection,
    SidebarToggleAction, ToolbarItem,
};

fn no_text_callbacks() -> TextFieldCallbacks<u8, u8> {
    TextFieldCallbacks {
        on_change: None,
        on_begin_editing: None,
        on_end_editing: None,
        on_submit: None,
        on_move_up: None,
        on_move_down: None,
        on_cancel: None,
    }
}

#[test]
fn text_field_callbacks_presence() {
    assert!(!has_text_field_callbacks(&no_text_callbacks()));
    let mut c = no_text_callbacks();
    c.on_cancel = Some(1);
    assert!(has_text_field_callbacks(&c));
}

#[test]
fn combo_box_callbacks_presence_and_conversion() {
    let none: ComboBoxCallbacks<u8, u16> = ComboBoxCallbacks { on_select: None, on_change: None, on_submit: None };
    assert!(!has_combo_box_callbacks(&none));
    let some: ComboBoxCallbacks<u8, u16> = ComboBoxCallbacks { on_select: Some(1), on_change: Some(2), on_submit: Some(3) };
    assert!(has_combo_box_callbacks(&some));
    let tf: TextFieldCallbacks<u16, u32> = combo_box_text_field_callbacks(some);
    assert_eq!(tf.on_change, Some(2));
    assert_eq!(tf.on_submit, Some(3));
    assert!(tf.on_begin_editing.is_none() && tf.on_cancel.is_none());
}

#[test]
fn tracking_callbacks() {
    let only_move: TrackingViewCallbacks<u8, u8> = TrackingViewCallbacks { on_enter: None, on_exit: None, on_move: Some(1) };
    assert!(has_tracking_view_callbacks(&only_move));
    assert!(!IosNativeControls::tracking_view_installs_target(&only_move));
    let enter_exit: TrackingViewCallbacks<u8, u8> = TrackingViewCallbacks { on_enter: Some(1), on_exit: Some(2), on_move: None };
    assert!(IosNativeControls::tracking_view_installs_target(&enter_exit));
}

#[test]
fn menu_titles_skip_separators() {
    let items = vec![
        NativeMenuItemData::Action { title: "Open".into(), enabled: true, icon: None },
        NativeMenuItemData::Separator,
        NativeMenuItemData::Submenu {
            title: "Recent".into(),
            enabled: true,
            icon: None,
            items: vec![NativeMenuItemData::Action { title: "a.txt".into(), enabled: true, icon: None }],
        },
    ];
    assert_eq!(flatten_menu_items(&items), vec!["Open", "Recent"]);
    assert!(flatten_menu_items(&[]).is_empty());
}

#[test]
fn outline_titles_in_preorder() {
    let nodes = vec![
        NativeOutlineNodeData {
            title: "src".into(),
            children: vec![
                NativeOutlineNodeData { title: "lib.rs".into(), children: vec![] },
                NativeOutlineNodeData {
                    title: "ui".into(),
                    children: vec![NativeOutlineNodeData { title: "view.rs".into(), children: vec![] }],
                },
            ],
        },
        NativeOutlineNodeData { title: "README".into(), children: vec![] },
    ];
    let mut titles = vec!["existing".to_string()];
    flatten_outline_nodes(&nodes, &mut titles);
    assert_eq!(titles, vec!["existing", "src", "lib.rs", "ui", "view.rs", "README"]);
}

#[test]
fn button_styles_differ_by_platform() {
    assert_eq!(
        IosNativeControls::button_style_plan(ButtonStyle::Filled),
        ButtonStylePlan { bezel_style: Some(12), bordered: true, accent_bezel_color: true, shows_border_on_hover: false }
    );
    assert_eq!(
        MacNativeControls::button_style_plan(ButtonStyle::Filled),
        ButtonStylePlan { bezel_style: Some(1), bordered: true, accent_bezel_color: true, shows_border_on_hover: false }
    );
    assert_eq!(IosNativeControls::button_style_plan(ButtonStyle::Inline).bezel_style, Some(15));
    let borderless = IosNativeControls::button_style_plan(ButtonStyle::Borderless);
    assert_eq!(borderless.bezel_style, None);
    assert!(!borderless.bordered && borderless.shows_border_on_hover);
}

#[test]
fn common_cleanup_order() {
    assert_eq!(
        target_then_view_cleanup(true, false, false),
        vec![CleanupStep::ReleaseTarget, CleanupStep::RemoveViewFromParent, CleanupStep::ReleaseView]
    );
    assert_eq!(target_then_view_cleanup(true, false, true), vec![CleanupStep::RemoveViewFromParent, CleanupStep::ReleaseView]);
    assert_eq!(target_then_view_cleanup(true, true, false), vec![CleanupStep::ReleaseTarget]);
    assert!(target_then_view_cleanup(false, true, false).is_empty());
}

#[test]
fn ios_cleanup_by_kind() {
    assert_eq!(
        IosNativeControls::cleanup_steps(IosControlKind::Slider, false, false),
        vec![CleanupStep::ReleaseTarget, CleanupStep::RemoveViewFromParent, CleanupStep::ReleaseView]
    );
    assert_eq!(
        IosNativeControls::cleanup_steps(IosControlKind::Progress, false, false),
        vec![CleanupStep::RemoveViewFromParent, CleanupStep::ReleaseView]
    );
    assert!(IosNativeControls::releases_target(IosControlKind::TextField));
    assert!(!IosNativeControls::releases_target(IosControlKind::Popover));
}

#[test]
fn mac_cleanup_by_kind() {
    assert_eq!(
        MacNativeControls::cleanup_steps(MacControlKind::Button, false, false),
        vec![CleanupStep::RemoveViewFromParent, CleanupStep::ReleaseTarget, CleanupStep::ReleaseView]
    );
    assert_eq!(MacNativeControls::cleanup_steps(MacControlKind::Panel, false, false), vec![CleanupStep::ReleaseWithDelegate]);
    assert!(MacNativeControls::cleanup_steps(MacControlKind::Popover, true, false).is_empty());
    assert_eq!(
        MacNativeControls::cleanup_steps(MacControlKind::ImageView, false, false),
        vec![CleanupStep::RemoveViewFromParent, CleanupStep::ReleaseView]
    );
    assert_eq!(
        MacNativeControls::cleanup_steps(MacControlKind::Sidebar, false, false),
        vec![CleanupStep::ReleaseTarget, CleanupStep::RemoveViewFromParent, CleanupStep::ReleaseView]
    );
}

#[test]
fn target_policies() {
    assert_eq!(IosNativeControls::target_policy(IosControlKind::Button), Some(TargetPolicy::ReplaceOnCallback));
    assert_eq!(IosNativeControls::target_policy(IosControlKind::MenuButton), Some(TargetPolicy::AlwaysReplace));
    assert_eq!(IosNativeControls::target_policy(IosControlKind::TableView), Some(TargetPolicy::Rebuild));
    assert_eq!(IosNativeControls::target_policy(IosControlKind::ImageView), None);
}

#[test]
fn target_plans() {
    assert_eq!(
        target_plan(TargetPolicy::ReplaceOnCallback, true, false, false),
        TargetPlan { release_old: false, install_new: false, store_null: false }
    );
    assert_eq!(
        target_plan(TargetPolicy::ReplaceOnCallback, true, false, true),
        TargetPlan { release_old: true, install_new: true, store_null: false }
    );
    assert_eq!(
        target_plan(TargetPolicy::ReplaceOnCallback, false, true, false),
        TargetPlan { release_old: false, install_new: false, store_null: true }
    );
    assert_eq!(
        target_plan(TargetPolicy::AlwaysReplace, true, false, false),
        TargetPlan { release_old: true, install_new: false, store_null: true }
    );
    assert_eq!(
        target_plan(TargetPolicy::Rebuild, true, true, false),
        TargetPlan { release_old: true, install_new: true, store_null: false }
    );
}

#[test]
fn attach_plans() {
    assert_eq!(attach_plan(true, true), AttachPlan { detach: false, attach: false });
    assert_eq!(attach_plan(true, false), AttachPlan { detach: true, attach: true });
    assert_eq!(attach_plan(false, false), AttachPlan { detach: false, attach: true });
}

#[test]
fn image_sources() {
    assert_eq!(image_source(true, true, true), ImageSource::SymbolWithConfig);
    assert_eq!(image_source(true, false, true), ImageSource::Symbol);
    assert_eq!(image_source(false, true, true), ImageSource::Data);
    assert_eq!(image_source(false, false, false), ImageSource::Clear);
}

#[test]
fn stack_children_skip_null() {
    assert_eq!(non_null_children(&[5, 0, 7, 0]), vec![5, 7]);
    assert!(non_null_children(&[0]).is_empty());
}

#[test]
fn glass_and_alerts() {
    assert!(IosNativeControls.is_glass_effect_available());
    assert_eq!(IosNativeControls::show_alert_modal_result(), ALERT_FIRST_BUTTON_RETURN);
    assert_eq!(ALERT_FIRST_BUTTON_RETURN, 1000);
}

#[test]
fn panel_levels_and_materials() {
    assert_eq!(NativePanelLevel::Normal.to_raw(), 0);
    assert_eq!(NativePanelLevel::Floating.to_raw(), 3);
    assert_eq!(NativePanelLevel::ModalPanel.to_raw(), 8);
    assert_eq!(NativePanelLevel::PopUpMenu.to_raw(), 101);
    assert_eq!(NativePanelLevel::Custom(25).to_raw(), 25);
    assert_eq!(NativePanelMaterial::HudWindow.to_raw(), 13);
    assert_eq!(NativePanelMaterial::Popover.to_raw(), 15);
    assert_eq!(NativePanelMaterial::Sidebar.to_raw(), 7);
    assert_eq!(NativePanelMaterial::UnderWindow.to_raw(), 21);
}

#[test]
fn panel_style_masks() {
    assert_eq!(panel_style_mask(NativePanelStyle::Titled, false), 0x8003);
    assert_eq!(panel_style_mask(NativePanelStyle::Borderless, false), 0);
    assert_eq!(panel_style_mask(NativePanelStyle::Hud, false), 0x2013);
    assert_eq!(panel_style_mask(NativePanelStyle::Utility, true), 0x13 | 128);
    assert_eq!(panel_style_mask(NativePanelStyle::Borderless, true), 128);
}

#[test]
fn panel_dressing_and_release() {
    let a = panel_appearance(NativePanelStyle::Borderless, Some(NativePanelMaterial::Popover), true);
    assert!(a.transparent_background && !a.transparent_titlebar);
    assert_eq!(a.effect_material, Some(15));
    assert!(a.round_effect_view && !a.round_content_view);
    let b = panel_appearance(NativePanelStyle::Titled, None, true);
    assert!(b.transparent_titlebar && b.round_content_view && b.effect_material.is_none());
    assert_eq!(
        panel_release_steps(false, false),
        vec![PanelReleaseStep::DetachDelegate, PanelReleaseStep::ReleaseDelegate, PanelReleaseStep::ClosePanel]
    );
    assert_eq!(panel_release_steps(true, false), vec![PanelReleaseStep::ReleaseDelegate]);
    assert!(panel_release_steps(true, true).is_empty());
}

#[test]
fn sidebar_layouts_and_rebuilds() {
    let l = sidebar_layout(true, false, false, true);
    assert!(l.sidebar_on_trailing && l.uses_inspector_behavior);
    let with_inspector = sidebar_layout(true, false, true, true);
    assert!(!with_inspector.sidebar_on_trailing && !with_inspector.uses_inspector_behavior);
    assert!(!sidebar_requires_rebuild(&l, true, false, false));
    assert!(sidebar_requires_rebuild(&l, false, false, false));
    assert!(sidebar_requires_rebuild(&l, true, true, false));
    assert_eq!(toolbar_toggles(&l), (false, true));
    assert_eq!(toolbar_toggles(&sidebar_layout(false, false, false, true)), (true, false));
}

#[test]
fn sidebar_toolbar_items() {
    assert_eq!(
        toolbar_items(true, true),
        vec![
            ToolbarItem::ToggleSidebar,
            ToolbarItem::SidebarTrackingSeparator,
            ToolbarItem::FlexibleSpace,
            ToolbarItem::InspectorTrackingSeparator,
            ToolbarItem::FlexibleSpace,
            ToolbarItem::ToggleInspector,
        ]
    );
    assert_eq!(toolbar_items(true, false), vec![ToolbarItem::ToggleSidebar, ToolbarItem::SidebarTrackingSeparator]);
    assert!(toolbar_items_to_insert(2, true, true).is_empty());
    assert_eq!(toolbar_items_to_insert(0, false, true).len(), 3);
}

#[test]
fn sidebar_shortcut_and_action() {
    assert!(is_sidebar_shortcut(0x100000 | 0x80000, 1));
    assert!(!is_sidebar_shortcut(0x100000 | 0x80000 | 0x40000, 1));
    assert!(!is_sidebar_shortcut(0x100000 | 0x80000, 2));
    assert!(!is_sidebar_shortcut(0x100000, 1));
    assert_eq!(sidebar_toggle_action(Some(true)), SidebarToggleAction::ToggleInspector);
    assert_eq!(sidebar_toggle_action(Some(false)), SidebarToggleAction::ToggleSidebar);
    assert_eq!(sidebar_toggle_action(None), SidebarToggleAction::ToggleSidebar);
}

#[test]
fn sidebar_rows_and_selection() {
    assert_eq!(sidebar_row_index(-1, 3), None);
    assert_eq!(sidebar_row_index(2, 3), Some(2));
    assert_eq!(sidebar_row_index(3, 3), None);
    assert_eq!(sidebar_selection(3, Some(10)), SidebarSelection::Row(2));
    assert_eq!(sidebar_selection(3, Some(1)), SidebarSelection::Row(1));
    assert_eq!(sidebar_selection(3, None), SidebarSelection::Nothing);
    assert_eq!(sidebar_selection(0, Some(1)), SidebarSelection::Empty);
    let items = ["Inbox", "Drafts"];
    assert_eq!(sidebar_detail_text(&items, SidebarSelection::Row(1)), "Drafts");
    assert_eq!(sidebar_detail_text(&items, SidebarSelection::Nothing), "Select an item");
    assert_eq!(sidebar_detail_text(&items, SidebarSelection::Empty), "No items");
    assert_eq!(embed_pane(true), EmbedPane::Sidebar);
    assert_eq!(embed_pane(false), EmbedPane::Detail);
}
