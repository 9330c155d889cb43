//! Standalone AppKit panels (`NSPanel`): window levels, visual-effect
//! materials, style masks and how a panel is dressed and torn down.
use vstd::prelude::*;

verus! {

pub const NS_NORMAL_WINDOW_LEVEL: i64 = 0;
pub const NS_FLOATING_WINDOW_LEVEL: i64 = 3;
pub const NS_MODAL_PANEL_WINDOW_LEVEL: i64 = 8;
pub const NS_POP_UP_MENU_WINDOW_LEVEL: i64 = 101;

pub const NS_TITLED_WINDOW_MASK: u64 = 1;
pub const NS_CLOSABLE_WINDOW_MASK: u64 = 2;
pub const NS_BORDERLESS_WINDOW_MASK: u64 = 0;
pub const NS_UTILITY_WINDOW_MASK: u64 = 16;
pub const NS_NONACTIVATING_PANEL_MASK: u64 = 128;
pub const NS_HUD_WINDOW_MASK: u64 = 8192;
pub const NS_FULL_SIZE_CONTENT_VIEW_WINDOW_MASK: u64 = 32768;

pub const NS_VISUAL_EFFECT_MATERIAL_HUD_WINDOW: i64 = 13;
pub const NS_VISUAL_EFFECT_MATERIAL_POPOVER: i64 = 15;
pub const NS_VISUAL_EFFECT_MATERIAL_SIDEBAR: i64 = 7;
pub const NS_VISUAL_EFFECT_MATERIAL_UNDER_WINDOW: i64 = 21;

/// The floating level of a native panel.
#[derive(Clone, Copy, Debug, PartialEq, Eq, Structural)]
pub enum NativePanelLevel {
    Normal,
    Floating,
    ModalPanel,
    PopUpMenu,
    Custom(i64),
}

impl NativePanelLevel {
    /// The `NSWindowLevel` value of the level.
    pub open spec fn spec_to_raw(self) -> i64 {
        match self {
            NativePanelLevel::Normal => NS_NORMAL_WINDOW_LEVEL,
            NativePanelLevel::Floating => NS_FLOATING_WINDOW_LEVEL,
            NativePanelLevel::ModalPanel => NS_MODAL_PANEL_WINDOW_LEVEL,
            NativePanelLevel::PopUpMenu => NS_POP_UP_MENU_WINDOW_LEVEL,
            NativePanelLevel::Custom(level) => level,
        }
    }

    pub fn to_raw(self) -> (r: i64)
        ensures
            r == self.spec_to_raw(),
    {
        match self {
            NativePanelLevel::Normal => NS_NORMAL_WINDOW_LEVEL,
            NativePanelLevel::Floating => NS_FLOATING_WINDOW_LEVEL,
            NativePanelLevel::ModalPanel => NS_MODAL_PANEL_WINDOW_LEVEL,
            NativePanelLevel::PopUpMenu => NS_POP_UP_MENU_WINDOW_LEVEL,
            NativePanelLevel::Custom(level) => level,
        }
    }
}

/// The window chrome of a native panel.
#[derive(Clone, Copy, Debug, PartialEq, Eq, Structural)]
pub enum NativePanelStyle {
    /// Standard titled panel with a close button.
    Titled,
    /// No title bar and no chrome.
    Borderless,
    /// Dark translucent heads-up display panel.
    Hud,
    /// Utility panel with a small title bar.
    Utility,
}

/// The visual-effect material of a panel's background.
#[derive(Clone, Copy, Debug, PartialEq, Eq, Structural)]
pub enum NativePanelMaterial {
    HudWindow,
    Popover,
    Sidebar,
    UnderWindow,
}

impl NativePanelMaterial {
    /// The `NSVisualEffectMaterial` value of the material.
    pub open spec fn spec_to_raw(self) -> i64 {
        match self {
            NativePanelMaterial::HudWindow => NS_VISUAL_EFFECT_MATERIAL_HUD_WINDOW,
            NativePanelMaterial::Popover => NS_VISUAL_EFFECT_MATERIAL_POPOVER,
            NativePanelMaterial::Sidebar => NS_VISUAL_EFFECT_MATERIAL_SIDEBAR,
            NativePanelMaterial::UnderWindow => NS_VISUAL_EFFECT_MATERIAL_UNDER_WINDOW,
        }
    }

    pub fn to_raw(self) -> (r: i64)
        ensures
            r == self.spec_to_raw(),
    {
        match self {
            NativePanelMaterial::HudWindow => NS_VISUAL_EFFECT_MATERIAL_HUD_WINDOW,
            NativePanelMaterial::Popover => NS_VISUAL_EFFECT_MATERIAL_POPOVER,
            NativePanelMaterial::Sidebar => NS_VISUAL_EFFECT_MATERIAL_SIDEBAR,
            NativePanelMaterial::UnderWindow => NS_VISUAL_EFFECT_MATERIAL_UNDER_WINDOW,
        }
    }
}

/// The `NSWindowStyleMask` of a panel style, before the non-activating bit.
pub open spec fn spec_base_style_mask(style: NativePanelStyle) -> u64 {
    match style {
        NativePanelStyle::Titled => NS_TITLED_WINDOW_MASK | NS_CLOSABLE_WINDOW_MASK
            | NS_FULL_SIZE_CONTENT_VIEW_WINDOW_MASK,
        NativePanelStyle::Borderless => NS_BORDERLESS_WINDOW_MASK,
        NativePanelStyle::Hud => NS_TITLED_WINDOW_MASK | NS_CLOSABLE_WINDOW_MASK
            | NS_HUD_WINDOW_MASK | NS_UTILITY_WINDOW_MASK,
        NativePanelStyle::Utility => NS_TITLED_WINDOW_MASK | NS_CLOSABLE_WINDOW_MASK
            | NS_UTILITY_WINDOW_MASK,
    }
}

/// The full style mask: the style's mask, with the non-activating-panel bit
/// added when the panel must not take focus.
pub open spec fn spec_style_mask(style: NativePanelStyle, non_activating: bool) -> u64 {
    if non_activating {
        spec_base_style_mask(style) | NS_NONACTIVATING_PANEL_MASK
    } else {
        spec_base_style_mask(style)
    }
}

pub fn panel_style_mask(style: NativePanelStyle, non_activating: bool) -> (mask: u64)
    ensures
        mask == spec_style_mask(style, non_activating),
{
    let base = match style {
        NativePanelStyle::Titled => NS_TITLED_WINDOW_MASK | NS_CLOSABLE_WINDOW_MASK
            | NS_FULL_SIZE_CONTENT_VIEW_WINDOW_MASK,
        NativePanelStyle::Borderless => NS_BORDERLESS_WINDOW_MASK,
        NativePanelStyle::Hud => NS_TITLED_WINDOW_MASK | NS_CLOSABLE_WINDOW_MASK
            | NS_HUD_WINDOW_MASK | NS_UTILITY_WINDOW_MASK,
        NativePanelStyle::Utility => NS_TITLED_WINDOW_MASK | NS_CLOSABLE_WINDOW_MASK
            | NS_UTILITY_WINDOW_MASK,
    };
    if non_activating {
        base | NS_NONACTIVATING_PANEL_MASK
    } else {
        base
    }
}

/// The style masks in numbers: titled panels are 0x8003, borderless 0,
/// HUD panels 0x2013 and utility panels 0x13; a non-activating panel
/// carries bit 7 on top, and only a borderless, activating panel has the
/// titled bit clear.
pub proof fn lemma_style_mask_values(style: NativePanelStyle, non_activating: bool)
    ensures
        spec_base_style_mask(style) == match style {
            NativePanelStyle::Titled => 0x8003u64,
            NativePanelStyle::Borderless => 0u64,
            NativePanelStyle::Hud => 0x2013u64,
            NativePanelStyle::Utility => 0x13u64,
        },
        spec_style_mask(style, non_activating) & NS_NONACTIVATING_PANEL_MASK != 0 <==> non_activating,
        spec_style_mask(style, non_activating) & NS_TITLED_WINDOW_MASK == 0 <==> style == NativePanelStyle::Borderless,
{
    assert(1u64 | 2u64 | 32768u64 == 0x8003u64) by (bit_vector);
    assert(1u64 | 2u64 | 8192u64 | 16u64 == 0x2013u64) by (bit_vector);
    assert(1u64 | 2u64 | 16u64 == 0x13u64) by (bit_vector);
    assert((0x8003u64 | 128u64) & 128u64 != 0 && 0x8003u64 & 128u64 == 0) by (bit_vector);
    assert((0u64 | 128u64) & 128u64 != 0 && 0u64 & 128u64 == 0) by (bit_vector);
    assert((0x2013u64 | 128u64) & 128u64 != 0 && 0x2013u64 & 128u64 == 0) by (bit_vector);
    assert((0x13u64 | 128u64) & 128u64 != 0 && 0x13u64 & 128u64 == 0) by (bit_vector);
    assert((0x8003u64 | 128u64) & 1u64 != 0 && 0x8003u64 & 1u64 != 0) by (bit_vector);
    assert((0u64 | 128u64) & 1u64 == 0 && 0u64 & 1u64 == 0) by (bit_vector);
    assert((0x2013u64 | 128u64) & 1u64 != 0 && 0x2013u64 & 1u64 != 0) by (bit_vector);
    assert((0x13u64 | 128u64) & 1u64 != 0 && 0x13u64 & 1u64 != 0) by (bit_vector);
}

/// How a freshly created panel is dressed.
#[derive(Clone, Copy, Debug, PartialEq, Eq, Structural)]
pub struct PanelAppearance {
    /// Borderless panels get a clear, non-opaque background so the visual
    /// effect shows through.
    pub transparent_background: bool,
    /// Titled panels get a transparent, hidden title bar.
    pub transparent_titlebar: bool,
    /// The material of the visual-effect view placed in the content view.
    pub effect_material: Option<i64>,
    /// Whether the rounded corners go on the effect view (when there is
    /// one) or on the content view.
    pub round_effect_view: bool,
    pub round_content_view: bool,
}

pub fn panel_appearance(style: NativePanelStyle, material: Option<NativePanelMaterial>, has_corner_radius: bool) -> (a: PanelAppearance)
    ensures
        a.transparent_background == (style == NativePanelStyle::Borderless),
        a.transparent_titlebar == (style == NativePanelStyle::Titled),
        a.effect_material == match material {
            Some(m) => Some(m.spec_to_raw()),
            None => None::<i64>,
        },
        a.round_effect_view == (material is Some && has_corner_radius),
        a.round_content_view == (material is None && has_corner_radius),
{
    let effect_material = match material {
        Some(m) => Some(m.to_raw()),
        None => None,
    };
    PanelAppearance {
        transparent_background: style == NativePanelStyle::Borderless,
        transparent_titlebar: style == NativePanelStyle::Titled,
        effect_material,
        round_effect_view: material.is_some() && has_corner_radius,
        round_content_view: material.is_none() && has_corner_radius,
    }
}

/// One step of releasing a panel.
#[derive(Clone, Copy, Debug, PartialEq, Eq, Structural)]
pub enum PanelReleaseStep {
    /// Detach the delegate so `windowWillClose:` cannot reach freed memory.
    DetachDelegate,
    /// Free the callbacks and release the delegate.
    ReleaseDelegate,
    /// Close and release the panel.
    ClosePanel,
}

/// Releasing a panel: the delegate is detached before anything is freed,
/// then the delegate and finally the panel are released, each only when
/// it exists.
pub open spec fn spec_panel_release(panel_is_nil: bool, delegate_is_null: bool) -> Seq<PanelReleaseStep> {
    (if panel_is_nil { seq![] } else { seq![PanelReleaseStep::DetachDelegate] })
        + (if delegate_is_null { seq![] } else { seq![PanelReleaseStep::ReleaseDelegate] })
        + (if panel_is_nil { seq![] } else { seq![PanelReleaseStep::ClosePanel] })
}

pub fn panel_release_steps(panel_is_nil: bool, delegate_is_null: bool) -> (steps: Vec<PanelReleaseStep>)
    ensures
        steps@ == spec_panel_release(panel_is_nil, delegate_is_null),
{
    let mut steps: Vec<PanelReleaseStep> = Vec::new();
    if !panel_is_nil {
        steps.push(PanelReleaseStep::DetachDelegate);
    }
    if !delegate_is_null {
        steps.push(PanelReleaseStep::ReleaseDelegate);
    }
    if !panel_is_nil {
        steps.push(PanelReleaseStep::ClosePanel);
    }
    proof {
        assert(steps@ =~= spec_panel_release(panel_is_nil, delegate_is_null));
    }
    steps
}

/// AppKit's numbers for the panel levels and materials: normal 0,
/// floating 3, modal panel 8, pop-up menu 101, a custom level its own
/// number; HUD window material 13, popover 15, sidebar 7, under-window 21.
pub proof fn lemma_raw_values(level: i64)
    ensures
        NativePanelLevel::Normal.spec_to_raw() == 0,
        NativePanelLevel::Floating.spec_to_raw() == 3,
        NativePanelLevel::ModalPanel.spec_to_raw() == 8,
        NativePanelLevel::PopUpMenu.spec_to_raw() == 101,
        NativePanelLevel::Custom(level).spec_to_raw() == level,
        NativePanelMaterial::HudWindow.spec_to_raw() == 13,
        NativePanelMaterial::Popover.spec_to_raw() == 15,
        NativePanelMaterial::Sidebar.spec_to_raw() == 7,
        NativePanelMaterial::UnderWindow.spec_to_raw() == 21,
{
}

} // verus!
