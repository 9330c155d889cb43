//! The iOS (UIKit) implementation of GPUI's native controls: which UIKit
//! calls style a button, how each control is torn down, and how its action
//! target is kept up to date.
use vstd::prelude::*;
use crate::controls::{
    ButtonStyle, ButtonStylePlan, CleanupStep, TargetPolicy, TrackingViewCallbacks,
    spec_target_then_view_cleanup, target_then_view_cleanup,
};

verus! {

/// GPUI's native-controls backend for UIKit.
#[derive(Clone, Copy, Debug)]
pub struct IosNativeControls;

/// The value a modal alert reports for its first button.
pub const ALERT_FIRST_BUTTON_RETURN: i64 = 1000;

/// The native controls UIKit backs.
#[derive(Clone, Copy, Debug, PartialEq, Eq, Structural)]
pub enum IosControlKind {
    Button,
    Checkbox,
    Switch,
    Slider,
    Stepper,
    SegmentedControl,
    PopupButton,
    Progress,
    SearchField,
    TextField,
    ComboBox,
    ImageView,
    TabView,
    TableView,
    OutlineView,
    CollectionView,
    MenuButton,
    VisualEffectView,
    GlassEffectView,
    TrackingView,
    StackView,
    Sidebar,
    Panel,
    Popover,
}

/// Whether tearing the control down releases an action target or delegate
/// (progress indicators, search fields, image views, effect views, stack
/// views, panels and popovers hold none).
pub open spec fn spec_ios_releases_target(kind: IosControlKind) -> bool {
    !(kind == IosControlKind::Progress || kind == IosControlKind::SearchField
        || kind == IosControlKind::ImageView || kind == IosControlKind::VisualEffectView
        || kind == IosControlKind::GlassEffectView || kind == IosControlKind::StackView
        || kind == IosControlKind::Panel || kind == IosControlKind::Popover)
}

/// How an update replaces the control's action target, for the controls
/// whose target depends on the configuration.
pub open spec fn spec_ios_target_policy(kind: IosControlKind) -> Option<TargetPolicy> {
    match kind {
        IosControlKind::Button | IosControlKind::Checkbox | IosControlKind::Switch
        | IosControlKind::Slider | IosControlKind::Stepper | IosControlKind::SegmentedControl
        | IosControlKind::TabView => Some(TargetPolicy::ReplaceOnCallback),
        IosControlKind::PopupButton | IosControlKind::MenuButton => Some(TargetPolicy::AlwaysReplace),
        IosControlKind::TableView | IosControlKind::OutlineView | IosControlKind::CollectionView => Some(
            TargetPolicy::Rebuild,
        ),
        _ => None,
    }
}

impl IosNativeControls {
    /// UIKit has glass effect views on every supported version.
    pub fn is_glass_effect_available(&self) -> (b: bool)
        ensures
            b,
    {
        true
    }

    /// The style calls for a `UIButton`: rounded (bezel 1), filled (bezel 12
    /// with the accent colour), inline (bezel 15) are bordered; borderless
    /// buttons only show their border on hover.
    pub fn button_style_plan(style: ButtonStyle) -> (p: ButtonStylePlan)
        ensures
            style == ButtonStyle::Rounded ==> p == (ButtonStylePlan {
                bezel_style: Some(1),
                bordered: true,
                accent_bezel_color: false,
                shows_border_on_hover: false,
            }),
            style == ButtonStyle::Filled ==> p == (ButtonStylePlan {
                bezel_style: Some(12),
                bordered: true,
                accent_bezel_color: true,
                shows_border_on_hover: false,
            }),
            style == ButtonStyle::Inline ==> p == (ButtonStylePlan {
                bezel_style: Some(15),
                bordered: true,
                accent_bezel_color: false,
                shows_border_on_hover: false,
            }),
            style == ButtonStyle::Borderless ==> p == (ButtonStylePlan {
                bezel_style: None,
                bordered: false,
                accent_bezel_color: false,
                shows_border_on_hover: true,
            }),
    {
        match style {
            ButtonStyle::Rounded => ButtonStylePlan {
                bezel_style: Some(1),
                bordered: true,
                accent_bezel_color: false,
                shows_border_on_hover: false,
            },
            ButtonStyle::Filled => ButtonStylePlan {
                bezel_style: Some(12),
                bordered: true,
                accent_bezel_color: true,
                shows_border_on_hover: false,
            },
            ButtonStyle::Inline => ButtonStylePlan {
                bezel_style: Some(15),
                bordered: true,
                accent_bezel_color: false,
                shows_border_on_hover: false,
            },
            ButtonStyle::Borderless => ButtonStylePlan {
                bezel_style: None,
                bordered: false,
                accent_bezel_color: false,
                shows_border_on_hover: true,
            },
        }
    }

    /// Whether the control's teardown releases a target or delegate.
    pub fn releases_target(kind: IosControlKind) -> (b: bool)
        ensures
            b == spec_ios_releases_target(kind),
    {
        match kind {
            IosControlKind::Progress | IosControlKind::SearchField | IosControlKind::ImageView
            | IosControlKind::VisualEffectView | IosControlKind::GlassEffectView
            | IosControlKind::StackView | IosControlKind::Panel | IosControlKind::Popover => false,
            _ => true,
        }
    }

    /// The teardown of a control: its target (when it has one and holds
    /// one), then detaching and releasing its view (when there is one).
    pub fn cleanup_steps(kind: IosControlKind, view_is_null: bool, target_is_null: bool) -> (steps:
        Vec<CleanupStep>)
        ensures
            steps@ == spec_target_then_view_cleanup(
                spec_ios_releases_target(kind),
                view_is_null,
                target_is_null,
            ),
    {
        target_then_view_cleanup(Self::releases_target(kind), view_is_null, target_is_null)
    }

    /// How an update of the control replaces its target.
    pub fn target_policy(kind: IosControlKind) -> (p: Option<TargetPolicy>)
        ensures
            p == spec_ios_target_policy(kind),
    {
        match kind {
            IosControlKind::Button | IosControlKind::Checkbox | IosControlKind::Switch
            | IosControlKind::Slider | IosControlKind::Stepper | IosControlKind::SegmentedControl
            | IosControlKind::TabView => Some(TargetPolicy::ReplaceOnCallback),
            IosControlKind::PopupButton | IosControlKind::MenuButton => Some(
                TargetPolicy::AlwaysReplace,
            ),
            IosControlKind::TableView | IosControlKind::OutlineView
            | IosControlKind::CollectionView => Some(TargetPolicy::Rebuild),
            _ => None,
        }
    }

    /// A UIKit tracking view only gets a target when both its enter and
    /// exit callbacks are set; a move callback alone is not delivered.
    pub fn tracking_view_installs_target<E, M>(callbacks: &TrackingViewCallbacks<E, M>) -> (b: bool)
        ensures
            b == (callbacks.on_enter is Some && callbacks.on_exit is Some),
    {
        callbacks.on_enter.is_some() && callbacks.on_exit.is_some()
    }

    /// A modal alert on iOS answers as if its first button was chosen.
    pub fn show_alert_modal_result() -> (r: i64)
        ensures
            r == ALERT_FIRST_BUTTON_RETURN,
    {
        ALERT_FIRST_BUTTON_RETURN
    }
}

} // verus!
