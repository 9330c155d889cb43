//! The macOS (AppKit) implementation of GPUI's native controls: button
//! styling and control teardown.
use vstd::prelude::*;
use crate::controls::{ButtonStyle, ButtonStylePlan, CleanupStep, spec_target_then_view_cleanup, target_then_view_cleanup};

verus! {

/// GPUI's native-controls backend for AppKit.
#[derive(Clone, Copy, Debug)]
pub struct MacNativeControls;

/// The native controls AppKit backs.
#[derive(Clone, Copy, Debug, PartialEq, Eq, Structural)]
pub enum MacControlKind {
    Button,
    Checkbox,
    Switch,
    Slider,
    Stepper,
    SegmentedControl,
    PopupButton,
    Progress,
    SearchField,
    TextField,
    ComboBox,
    ImageView,
    TabView,
    TableView,
    OutlineView,
    CollectionView,
    MenuButton,
    VisualEffectView,
    GlassEffectView,
    TrackingView,
    StackView,
    Sidebar,
    Panel,
    Popover,
}

/// The teardown of an AppKit control. Panels and popovers are released
/// together with their delegate when they exist. A button is detached
/// first, then its target and its view are released. Views without a
/// target (progress, image, effect and stack views) are detached and
/// released; all others release their target or delegate first.
pub open spec fn spec_mac_cleanup(kind: MacControlKind, view_is_null: bool, target_is_null: bool) -> Seq<CleanupStep> {
    match kind {
        MacControlKind::Panel | MacControlKind::Popover => if view_is_null {
            seq![]
        } else {
            seq![CleanupStep::ReleaseWithDelegate]
        },
        MacControlKind::Button => (if view_is_null { seq![] } else { seq![CleanupStep::RemoveViewFromParent] })
            + (if target_is_null { seq![] } else { seq![CleanupStep::ReleaseTarget] })
            + (if view_is_null { seq![] } else { seq![CleanupStep::ReleaseView] }),
        MacControlKind::Progress | MacControlKind::ImageView | MacControlKind::VisualEffectView
        | MacControlKind::GlassEffectView | MacControlKind::StackView => spec_target_then_view_cleanup(
            false,
            view_is_null,
            target_is_null,
        ),
        _ => spec_target_then_view_cleanup(true, view_is_null, target_is_null),
    }
}

impl MacNativeControls {
    /// The style calls for an `NSButton`: rounded and filled buttons use the
    /// rounded bezel (filled adds the accent bezel colour), inline buttons
    /// the inline bezel; all three are bordered. Borderless buttons show
    /// their border only on hover.
    pub fn button_style_plan(style: ButtonStyle) -> (p: ButtonStylePlan)
        ensures
            style == ButtonStyle::Rounded ==> p == (ButtonStylePlan {
                bezel_style: Some(1),
                bordered: true,
                accent_bezel_color: false,
                shows_border_on_hover: false,
            }),
            style == ButtonStyle::Filled ==> p == (ButtonStylePlan {
                bezel_style: Some(1),
                bordered: true,
                accent_bezel_color: true,
                shows_border_on_hover: false,
            }),
            style == ButtonStyle::Inline ==> p == (ButtonStylePlan {
                bezel_style: Some(15),
                bordered: true,
                accent_bezel_color: false,
                shows_border_on_hover: false,
            }),
            style == ButtonStyle::Borderless ==> p == (ButtonStylePlan {
                bezel_style: None,
                bordered: false,
                accent_bezel_color: false,
                shows_border_on_hover: true,
            }),
    {
        match style {
            ButtonStyle::Rounded => ButtonStylePlan {
                bezel_style: Some(1),
                bordered: true,
                accent_bezel_color: false,
                shows_border_on_hover: false,
            },
            ButtonStyle::Filled => ButtonStylePlan {
                bezel_style: Some(1),
                bordered: true,
                accent_bezel_color: true,
                shows_border_on_hover: false,
            },
            ButtonStyle::Inline => ButtonStylePlan {
                bezel_style: Some(15),
                bordered: true,
                accent_bezel_color: false,
                shows_border_on_hover: false,
            },
            ButtonStyle::Borderless => ButtonStylePlan {
                bezel_style: None,
                bordered: false,
                accent_bezel_color: false,
                shows_border_on_hover: true,
            },
        }
    }

    /// The teardown steps of a control.
    pub fn cleanup_steps(kind: MacControlKind, view_is_null: bool, target_is_null: bool) -> (steps:
        Vec<CleanupStep>)
        ensures
            steps@ == spec_mac_cleanup(kind, view_is_null, target_is_null),
    {
        match kind {
            MacControlKind::Panel | MacControlKind::Popover => {
                let mut steps: Vec<CleanupStep> = Vec::new();
                if !view_is_null {
                    steps.push(CleanupStep::ReleaseWithDelegate);
                }
                proof {
                    assert(steps@ =~= spec_mac_cleanup(kind, view_is_null, target_is_null));
                }
                steps
            },
            MacControlKind::Button => {
                let mut steps: Vec<CleanupStep> = Vec::new();
                if !view_is_null {
                    steps.push(CleanupStep::RemoveViewFromParent);
                }
                if !target_is_null {
                    steps.push(CleanupStep::ReleaseTarget);
                }
                if !view_is_null {
                    steps.push(CleanupStep::ReleaseView);
                }
                proof {
                    assert(steps@ =~= spec_mac_cleanup(kind, view_is_null, target_is_null));
                }
                steps
            },
            MacControlKind::Progress | MacControlKind::ImageView
            | MacControlKind::VisualEffectView | MacControlKind::GlassEffectView
            | MacControlKind::StackView => target_then_view_cleanup(false, view_is_null, target_is_null),
            _ => target_then_view_cleanup(true, view_is_null, target_is_null),
        }
    }
}

} // verus!
