//! The AppKit split-view sidebar: which side it sits on, its toolbar
//! toggles, its keyboard shortcut, and how its source list selects rows.
use vstd::prelude::*;
use crate::strings::owned;

verus! {

pub const NS_CONTROL_KEY_MASK: u64 = 0x40000;
pub const NS_ALTERNATE_KEY_MASK: u64 = 0x80000;
pub const NS_COMMAND_KEY_MASK: u64 = 0x100000;
pub const NS_FUNCTION_KEY_MASK: u64 = 0x800000;

/// The arrangement a sidebar host is built with.
#[derive(Clone, Copy, Debug, PartialEq, Eq, Structural)]
pub struct SidebarLayout {
    /// The sidebar pane sits on the trailing edge.
    pub sidebar_on_trailing: bool,
    /// The trailing pane is an AppKit inspector item.
    pub uses_inspector_behavior: bool,
    /// GPUI content is embedded in the sidebar pane (no source list).
    pub embed_in_sidebar: bool,
    /// A separate inspector pane exists on the trailing edge.
    pub has_inspector: bool,
}

/// The layout a sidebar is built with: a sidebar only goes to the trailing
/// edge when there is no separate inspector, and it behaves as an
/// inspector there when AppKit offers inspector split items.
pub fn sidebar_layout(
    requested_trailing: bool,
    embed_in_sidebar: bool,
    has_inspector: bool,
    supports_inspector_items: bool,
) -> (l: SidebarLayout)
    ensures
        l.sidebar_on_trailing == (requested_trailing && !has_inspector),
        l.uses_inspector_behavior == (requested_trailing && !has_inspector && supports_inspector_items),
        l.embed_in_sidebar == embed_in_sidebar,
        l.has_inspector == has_inspector,
{
    let sidebar_on_trailing = requested_trailing && !has_inspector;
    SidebarLayout {
        sidebar_on_trailing,
        uses_inspector_behavior: sidebar_on_trailing && supports_inspector_items,
        embed_in_sidebar,
        has_inspector,
    }
}

/// A sidebar host must be rebuilt when its side, embedding or inspector
/// configuration changes; everything else is updated in place.
pub fn sidebar_requires_rebuild(
    current: &SidebarLayout,
    sidebar_on_trailing: bool,
    embed_in_sidebar: bool,
    has_inspector: bool,
) -> (b: bool)
    ensures
        b == (current.sidebar_on_trailing != sidebar_on_trailing || current.embed_in_sidebar
            != embed_in_sidebar || current.has_inspector != has_inspector),
{
    current.sidebar_on_trailing != sidebar_on_trailing || current.embed_in_sidebar
        != embed_in_sidebar || current.has_inspector != has_inspector
}

/// Toolbar items the sidebar manages.
#[derive(Clone, Copy, Debug, PartialEq, Eq, Structural)]
pub enum ToolbarItem {
    ToggleSidebar,
    SidebarTrackingSeparator,
    FlexibleSpace,
    InspectorTrackingSeparator,
    ToggleInspector,
}

/// Whether the toolbar shows the sidebar toggle and the inspector toggle:
/// the sidebar toggle unless the only pane sits on the trailing edge, the
/// inspector toggle whenever there is an inspector pane.
pub fn toolbar_toggles(layout: &SidebarLayout) -> (r: (bool, bool))
    ensures
        r.0 == (!layout.sidebar_on_trailing || layout.has_inspector),
        r.1 == (layout.has_inspector || layout.uses_inspector_behavior),
{
    (
        !layout.sidebar_on_trailing || layout.has_inspector,
        layout.has_inspector || layout.uses_inspector_behavior,
    )
}

/// The toolbar items, left to right: the sidebar toggle and its tracking
/// separator; a flexible space between the two groups when both are shown;
/// the inspector tracking separator, a flexible space and the inspector
/// toggle.
pub open spec fn spec_toolbar_items(show_sidebar_toggle: bool, show_inspector_toggle: bool) -> Seq<ToolbarItem> {
    (if show_sidebar_toggle {
        seq![ToolbarItem::ToggleSidebar, ToolbarItem::SidebarTrackingSeparator]
    } else {
        seq![]
    }) + (if show_sidebar_toggle && show_inspector_toggle {
        seq![ToolbarItem::FlexibleSpace]
    } else {
        seq![]
    }) + (if show_inspector_toggle {
        seq![
            ToolbarItem::InspectorTrackingSeparator,
            ToolbarItem::FlexibleSpace,
            ToolbarItem::ToggleInspector,
        ]
    } else {
        seq![]
    })
}

pub fn toolbar_items(show_sidebar_toggle: bool, show_inspector_toggle: bool) -> (items: Vec<ToolbarItem>)
    ensures
        items@ == spec_toolbar_items(show_sidebar_toggle, show_inspector_toggle),
{
    let mut items: Vec<ToolbarItem> = Vec::new();
    if show_sidebar_toggle {
        items.push(ToolbarItem::ToggleSidebar);
        items.push(ToolbarItem::SidebarTrackingSeparator);
    }
    if show_sidebar_toggle && show_inspector_toggle {
        items.push(ToolbarItem::FlexibleSpace);
    }
    if show_inspector_toggle {
        items.push(ToolbarItem::InspectorTrackingSeparator);
        items.push(ToolbarItem::FlexibleSpace);
        items.push(ToolbarItem::ToggleInspector);
    }
    proof {
        assert(items@ =~= spec_toolbar_items(show_sidebar_toggle, show_inspector_toggle));
    }
    items
}

/// The items to insert into the toolbar: all of them into an empty
/// toolbar, none into one that already has items.
pub fn toolbar_items_to_insert(existing_item_count: u64, show_sidebar_toggle: bool, show_inspector_toggle: bool) -> (items: Vec<ToolbarItem>)
    ensures
        existing_item_count == 0 ==> items@ == spec_toolbar_items(show_sidebar_toggle, show_inspector_toggle),
        existing_item_count != 0 ==> items@.len() == 0,
{
    if existing_item_count == 0 {
        toolbar_items(show_sidebar_toggle, show_inspector_toggle)
    } else {
        Vec::new()
    }
}

/// The sidebar shortcut is Command-Option-S (hardware key code 1, the
/// physical S key on every layout) with neither Control nor Function held.
pub open spec fn spec_is_sidebar_shortcut(modifier_flags: u64, key_code: u16) -> bool {
    &&& modifier_flags & NS_COMMAND_KEY_MASK != 0
    &&& modifier_flags & NS_ALTERNATE_KEY_MASK != 0
    &&& modifier_flags & NS_CONTROL_KEY_MASK == 0
    &&& modifier_flags & NS_FUNCTION_KEY_MASK == 0
    &&& key_code == 1
}

pub fn is_sidebar_shortcut(modifier_flags: u64, key_code: u16) -> (b: bool)
    ensures
        b == spec_is_sidebar_shortcut(modifier_flags, key_code),
{
    modifier_flags & NS_COMMAND_KEY_MASK != 0 && modifier_flags & NS_ALTERNATE_KEY_MASK != 0
        && modifier_flags & NS_CONTROL_KEY_MASK == 0 && modifier_flags & NS_FUNCTION_KEY_MASK == 0
        && key_code == 1
}

/// The action the shortcut sends.
#[derive(Clone, Copy, Debug, PartialEq, Eq, Structural)]
pub enum SidebarToggleAction {
    ToggleSidebar,
    ToggleInspector,
}

/// An inspector-style sidebar toggles the inspector; any other sidebar, or
/// a host without sidebar data, toggles the sidebar.
pub fn sidebar_toggle_action(uses_inspector_behavior: Option<bool>) -> (a: SidebarToggleAction)
    ensures
        a == (if uses_inspector_behavior == Some(true) {
            SidebarToggleAction::ToggleInspector
        } else {
            SidebarToggleAction::ToggleSidebar
        }),
{
    match uses_inspector_behavior {
        Some(true) => SidebarToggleAction::ToggleInspector,
        _ => SidebarToggleAction::ToggleSidebar,
    }
}

/// The item a table row shows: rows outside `0..item_count` show nothing.
pub fn sidebar_row_index(row: i64, item_count: usize) -> (r: Option<usize>)
    ensures
        r == (if 0 <= row && row < item_count { Some(row as usize) } else { None::<usize> }),
{
    if row < 0 {
        return None;
    }
    if (row as u64) >= (item_count as u64) {
        return None;
    }
    Some(row as usize)
}

/// The selection the source list shows after its items are set.
#[derive(Clone, Copy, Debug, PartialEq, Eq, Structural)]
pub enum SidebarSelection {
    /// Select this row.
    Row(i64),
    /// Items exist but none is selected.
    Nothing,
    /// The list is empty.
    Empty,
}

/// With rows present, a requested selection is clamped to the last row
/// (and to row 0 from below); without a request nothing is selected.
pub open spec fn spec_sidebar_selection(row_count: i64, selected_index: Option<usize>) -> SidebarSelection {
    if row_count > 0 {
        match selected_index {
            Some(index) => {
                let wanted = index as i64;
                let capped = if wanted < row_count - 1 { wanted } else { (row_count - 1) as i64 };
                SidebarSelection::Row(if capped > 0 { capped } else { 0 })
            },
            None => SidebarSelection::Nothing,
        }
    } else {
        SidebarSelection::Empty
    }
}

pub fn sidebar_selection(row_count: i64, selected_index: Option<usize>) -> (s: SidebarSelection)
    ensures
        s == spec_sidebar_selection(row_count, selected_index),
{
    if row_count > 0 {
        match selected_index {
            Some(index) => {
                let wanted = index as i64;
                let capped = if wanted < row_count - 1 {
                    wanted
                } else {
                    row_count - 1
                };
                SidebarSelection::Row(
                    if capped > 0 {
                        capped
                    } else {
                        0
                    },
                )
            },
            None => SidebarSelection::Nothing,
        }
    } else {
        SidebarSelection::Empty
    }
}

/// A selected row always lies inside the list.
pub proof fn lemma_selection_in_bounds(row_count: i64, selected_index: Option<usize>)
    ensures
        spec_sidebar_selection(row_count, selected_index) matches SidebarSelection::Row(r) ==> 0
            <= r < row_count,
{
}

/// With rows present, a requested index always selects a row: the index
/// itself when it names a row, the last row when it lies past the end (an
/// index too large for an `i64` wraps negative and selects the first row).
/// Without a request nothing is selected, and without rows the list is
/// empty.
pub proof fn lemma_selection_clamps_request(row_count: i64, selected_index: Option<usize>)
    ensures
        forall|i: usize|
            row_count > 0 && selected_index == Some(i) && i <= i64::MAX ==> #[trigger] spec_sidebar_selection(
                row_count,
                Some(i),
            ) == SidebarSelection::Row(if i < row_count { i as i64 } else { (row_count - 1) as i64 }),
        row_count > 0 && selected_index is Some ==> spec_sidebar_selection(
            row_count,
            selected_index,
        ) is Row,
        row_count > 0 && selected_index is None ==> spec_sidebar_selection(row_count, selected_index)
            == SidebarSelection::Nothing,
        row_count <= 0 ==> spec_sidebar_selection(row_count, selected_index) == SidebarSelection::Empty,
{
}

/// The detail label's text: the selected item's title, a prompt when
/// nothing is selected, or a note that the list is empty.
pub fn sidebar_detail_text(items: &[&str], selection: SidebarSelection) -> (text: String)
    requires
        selection matches SidebarSelection::Row(r) ==> 0 <= r < items@.len(),
    ensures
        selection matches SidebarSelection::Row(r) ==> text@ == items@[r as int]@,
        selection == SidebarSelection::Nothing ==> text@ == "Select an item"@,
        selection == SidebarSelection::Empty ==> text@ == "No items"@,
{
    match selection {
        SidebarSelection::Row(r) => owned(items[r as usize]),
        SidebarSelection::Nothing => owned("Select an item"),
        SidebarSelection::Empty => owned("No items"),
    }
}

/// The pane GPUI content is embedded in.
#[derive(Clone, Copy, Debug, PartialEq, Eq, Structural)]
pub enum EmbedPane {
    Sidebar,
    Detail,
}

pub fn embed_pane(embed_in_sidebar: bool) -> (p: EmbedPane)
    ensures
        p == (if embed_in_sidebar { EmbedPane::Sidebar } else { EmbedPane::Detail }),
{
    if embed_in_sidebar {
        EmbedPane::Sidebar
    } else {
        EmbedPane::Detail
    }
}

} // verus!
