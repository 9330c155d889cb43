//! Configuration data shared by the iOS and macOS native control layers:
//! callback sets, menu and outline item trees, button styles, and the
//! rules for a control's action target.
use vstd::prelude::*;

verus! {

/// Callbacks of a text field. `T` is the type of the callbacks that receive
/// the text (change, submit), `U` the type of the ones that do not.
pub struct TextFieldCallbacks<T, U> {
    pub on_change: Option<T>,
    pub on_begin_editing: Option<U>,
    pub on_end_editing: Option<U>,
    pub on_submit: Option<T>,
    pub on_move_up: Option<U>,
    pub on_move_down: Option<U>,
    pub on_cancel: Option<U>,
}

/// Callbacks of a combo box: selection of an item (`S`), and text change
/// and submission (`T`).
pub struct ComboBoxCallbacks<S, T> {
    pub on_select: Option<S>,
    pub on_change: Option<T>,
    pub on_submit: Option<T>,
}

/// Callbacks of a tracking view: pointer enter/exit (`E`) and movement (`M`).
pub struct TrackingViewCallbacks<E, M> {
    pub on_enter: Option<E>,
    pub on_exit: Option<E>,
    pub on_move: Option<M>,
}

/// A text field needs a delegate when any of its callbacks is set.
pub fn has_text_field_callbacks<T, U>(callbacks: &TextFieldCallbacks<T, U>) -> (b: bool)
    ensures
        b == (callbacks.on_change is Some || callbacks.on_begin_editing is Some
            || callbacks.on_end_editing is Some || callbacks.on_submit is Some
            || callbacks.on_move_up is Some || callbacks.on_move_down is Some
            || callbacks.on_cancel is Some),
{
    callbacks.on_change.is_some() || callbacks.on_begin_editing.is_some()
        || callbacks.on_end_editing.is_some() || callbacks.on_submit.is_some()
        || callbacks.on_move_up.is_some() || callbacks.on_move_down.is_some()
        || callbacks.on_cancel.is_some()
}

/// A combo box needs a delegate when any of its callbacks is set.
pub fn has_combo_box_callbacks<S, T>(callbacks: &ComboBoxCallbacks<S, T>) -> (b: bool)
    ensures
        b == (callbacks.on_select is Some || callbacks.on_change is Some
            || callbacks.on_submit is Some),
{
    callbacks.on_select.is_some() || callbacks.on_change.is_some() || callbacks.on_submit.is_some()
}

/// A tracking view needs a target when any of its callbacks is set.
pub fn has_tracking_view_callbacks<E, M>(callbacks: &TrackingViewCallbacks<E, M>) -> (b: bool)
    ensures
        b == (callbacks.on_enter is Some || callbacks.on_exit is Some || callbacks.on_move is Some),
{
    callbacks.on_enter.is_some() || callbacks.on_exit.is_some() || callbacks.on_move.is_some()
}

/// The text-field delegate a combo box uses on iOS: its change and submit
/// callbacks, and none of the editing-lifecycle ones. (UIKit has no combo
/// box, so the selection callback has nowhere to go.)
pub fn combo_box_text_field_callbacks<S, T, U>(callbacks: ComboBoxCallbacks<S, T>) -> (r:
    TextFieldCallbacks<T, U>)
    ensures
        r.on_change == callbacks.on_change,
        r.on_submit == callbacks.on_submit,
        r.on_begin_editing is None,
        r.on_end_editing is None,
        r.on_move_up is None,
        r.on_move_down is None,
        r.on_cancel is None,
{
    TextFieldCallbacks {
        on_change: callbacks.on_change,
        on_begin_editing: None,
        on_end_editing: None,
        on_submit: callbacks.on_submit,
        on_move_up: None,
        on_move_down: None,
        on_cancel: None,
    }
}

/// An entry of a native menu.
#[derive(Debug)]
pub enum NativeMenuItemData {
    Action { title: String, enabled: bool, icon: Option<String> },
    Submenu { title: String, enabled: bool, icon: Option<String>, items: Vec<NativeMenuItemData> },
    Separator,
}

/// The titles of the top-level entries of a menu, in order, skipping
/// separators. Submenu entries contribute their own title only.
pub open spec fn spec_menu_titles(items: Seq<NativeMenuItemData>) -> Seq<Seq<char>>
    decreases items.len(),
{
    if items.len() == 0 {
        seq![]
    } else {
        let before = spec_menu_titles(items.drop_last());
        match items.last() {
            NativeMenuItemData::Action { title, .. } => before.push(title@),
            NativeMenuItemData::Submenu { title, .. } => before.push(title@),
            NativeMenuItemData::Separator => before,
        }
    }
}

/// Flattens a menu into the list of titles a UIKit menu button shows.
pub fn flatten_menu_items(items: &[NativeMenuItemData]) -> (titles: Vec<&str>)
    ensures
        titles@.map_values(|t: &str| t@) == spec_menu_titles(items@),
{
    let mut titles: Vec<&str> = Vec::new();
    let mut i: usize = 0;
    while i < items.len()
        invariant
            i <= items.len(),
            titles@.map_values(|t: &str| t@) == spec_menu_titles(items@.subrange(0, i as int)),
        decreases items.len() - i,
    {
        assert(items@.subrange(0, i + 1).drop_last() == items@.subrange(0, i as int));
        match &items[i] {
            NativeMenuItemData::Action { title, .. } => {
                titles.push(title.as_str());
            },
            NativeMenuItemData::Submenu { title, .. } => {
                titles.push(title.as_str());
            },
            NativeMenuItemData::Separator => {},
        }
        assert(titles@.map_values(|t: &str| t@) == spec_menu_titles(
            items@.subrange(0, i + 1),
        ));
        i = i + 1;
    }
    assert(items@.subrange(0, items@.len() as int) == items@);
    titles
}

/// A node of an outline view's tree.
#[derive(Debug)]
pub struct NativeOutlineNodeData {
    pub title: String,
    pub children: Vec<NativeOutlineNodeData>,
}

/// The titles of a forest of outline nodes in pre-order: each node's title,
/// then the titles of its subtree, then the following siblings.
pub open spec fn spec_outline_titles(nodes: Seq<NativeOutlineNodeData>) -> Seq<Seq<char>>
    decreases nodes,
{
    if nodes.len() == 0 {
        seq![]
    } else {
        seq![nodes[0].title@] + spec_outline_titles(nodes[0].children@) + spec_outline_titles(
            nodes.subrange(1, nodes.len() as int),
        )
    }
}

/// The number of nodes in a forest.
pub open spec fn spec_outline_size(nodes: Seq<NativeOutlineNodeData>) -> nat
    decreases nodes,
{
    if nodes.len() == 0 {
        0
    } else {
        1 + spec_outline_size(nodes[0].children@) + spec_outline_size(
            nodes.subrange(1, nodes.len() as int),
        )
    }
}

/// Flattening lists every node of the forest exactly once.
pub proof fn lemma_outline_titles_len(nodes: Seq<NativeOutlineNodeData>)
    ensures
        spec_outline_titles(nodes).len() == spec_outline_size(nodes),
    decreases nodes,
{
    if nodes.len() != 0 {
        lemma_outline_titles_len(nodes[0].children@);
        lemma_outline_titles_len(nodes.subrange(1, nodes.len() as int));
    }
}

/// Appends the pre-order titles of `nodes` to `titles`: the flat list an
/// outline view is shown as on iOS.
pub fn flatten_outline_nodes(nodes: &[NativeOutlineNodeData], titles: &mut Vec<String>)
    ensures
        final(titles)@.map_values(|t: String| t@) == old(titles)@.map_values(|t: String| t@)
            + spec_outline_titles(nodes@),
    decreases nodes@,
{
    let ghost start = titles@.map_values(|t: String| t@);
    let ghost whole = nodes@;
    let mut i: usize = 0;
    assert(nodes@.subrange(0, nodes@.len() as int) == nodes@);
    while i < nodes.len()
        invariant
            i <= nodes.len(),
            whole == nodes@,
            start + spec_outline_titles(nodes@) == titles@.map_values(|t: String| t@)
                + spec_outline_titles(nodes@.subrange(i as int, nodes@.len() as int)),
        decreases nodes.len() - i,
    {
        let ghost before = titles@.map_values(|t: String| t@);
        let ghost rest = nodes@.subrange(i as int, nodes@.len() as int);
        assert(rest[0] == nodes@[i as int]);
        assert(rest.subrange(1, rest.len() as int) == nodes@.subrange(i + 1, nodes@.len() as int));
        let node = &nodes[i];
        titles.push(node.title.clone());
        assert(titles@.map_values(|t: String| t@) == before.push(node.title@));
        assert(decreases_to!(whole => whole[i as int]));
        flatten_outline_nodes(node.children.as_slice(), titles);
        assert(spec_outline_titles(rest) == seq![node.title@] + spec_outline_titles(node.children@)
            + spec_outline_titles(nodes@.subrange(i + 1, nodes@.len() as int)));
        assert(start + spec_outline_titles(nodes@) == titles@.map_values(|t: String| t@)
            + spec_outline_titles(nodes@.subrange(i + 1, nodes@.len() as int)));
        i = i + 1;
    }
    assert(nodes@.subrange(i as int, nodes@.len() as int) == Seq::<NativeOutlineNodeData>::empty());
}

/// Visual style of a push button.
#[derive(Clone, Copy, Debug, PartialEq, Eq, Structural)]
pub enum ButtonStyle {
    Rounded,
    Filled,
    Inline,
    Borderless,
}

/// The native calls that give a button its style: the bezel style to set
/// (if any), whether it is bordered, whether its bezel takes the accent
/// colour, and whether a borderless button shows its border on hover.
#[derive(Clone, Copy, Debug, PartialEq, Eq, Structural)]
pub struct ButtonStylePlan {
    pub bezel_style: Option<i64>,
    pub bordered: bool,
    pub accent_bezel_color: bool,
    pub shows_border_on_hover: bool,
}

/// One step of tearing a native control down.
#[derive(Clone, Copy, Debug, PartialEq, Eq, Structural)]
pub enum CleanupStep {
    /// Release the control's action target or delegate.
    ReleaseTarget,
    /// Detach the control's view from its superview.
    RemoveViewFromParent,
    /// Release the control's view.
    ReleaseView,
    /// Release a panel or popover together with its delegate and the
    /// callbacks the delegate owns.
    ReleaseWithDelegate,
}

/// The common teardown: release the target when there is one, then detach
/// and release the view when there is one.
pub open spec fn spec_target_then_view_cleanup(releases_target: bool, view_is_null: bool, target_is_null: bool) -> Seq<CleanupStep> {
    (if releases_target && !target_is_null { seq![CleanupStep::ReleaseTarget] } else { seq![] })
        + (if !view_is_null { seq![CleanupStep::RemoveViewFromParent, CleanupStep::ReleaseView] } else { seq![] })
}

pub fn target_then_view_cleanup(releases_target: bool, view_is_null: bool, target_is_null: bool) -> (steps: Vec<CleanupStep>)
    ensures
        steps@ == spec_target_then_view_cleanup(releases_target, view_is_null, target_is_null),
{
    let mut steps: Vec<CleanupStep> = Vec::new();
    if releases_target && !target_is_null {
        steps.push(CleanupStep::ReleaseTarget);
    }
    if !view_is_null {
        steps.push(CleanupStep::RemoveViewFromParent);
        steps.push(CleanupStep::ReleaseView);
    }
    steps
}

/// How an update replaces a control's action target.
#[derive(Clone, Copy, Debug, PartialEq, Eq, Structural)]
pub enum TargetPolicy {
    /// A new callback replaces the old target; without one the old target
    /// stays (buttons, checkboxes, switches, sliders, steppers, segmented
    /// controls, tab views).
    ReplaceOnCallback,
    /// The old target is always dropped and a new one made from the
    /// callback, or none (popup and menu buttons).
    AlwaysReplace,
    /// The target carries the control's data and is rebuilt on every
    /// update (tables, outlines, collections).
    Rebuild,
}

/// What to do with the target on an update.
#[derive(Clone, Copy, Debug, PartialEq, Eq, Structural)]
pub struct TargetPlan {
    /// Release the target the control holds now.
    pub release_old: bool,
    /// Install a new target (made from the callback, or the data).
    pub install_new: bool,
    /// Store a null target (no callback to install).
    pub store_null: bool,
}

/// The target plan for an update of a control under `policy`, given
/// whether the control already exists, whether its current target is null
/// and whether the configuration carries a callback.
pub open spec fn spec_target_plan(policy: TargetPolicy, initialized: bool, target_is_null: bool, has_callback: bool) -> TargetPlan {
    match policy {
        TargetPolicy::ReplaceOnCallback => TargetPlan {
            release_old: initialized && has_callback,
            install_new: has_callback,
            store_null: !initialized && !has_callback,
        },
        TargetPolicy::AlwaysReplace => TargetPlan {
            release_old: initialized && !target_is_null,
            install_new: has_callback,
            store_null: !has_callback,
        },
        TargetPolicy::Rebuild => TargetPlan {
            release_old: initialized,
            install_new: true,
            store_null: false,
        },
    }
}

pub fn target_plan(policy: TargetPolicy, initialized: bool, target_is_null: bool, has_callback: bool) -> (p: TargetPlan)
    ensures
        p == spec_target_plan(policy, initialized, target_is_null, has_callback),
{
    match policy {
        TargetPolicy::ReplaceOnCallback => TargetPlan {
            release_old: initialized && has_callback,
            install_new: has_callback,
            store_null: !initialized && !has_callback,
        },
        TargetPolicy::AlwaysReplace => TargetPlan {
            release_old: initialized && !target_is_null,
            install_new: has_callback,
            store_null: !has_callback,
        },
        TargetPolicy::Rebuild => TargetPlan { release_old: initialized, install_new: true, store_null: false },
    }
}

/// An update never both installs a target and stores a null one, and
/// every update of a new control settles on one of the two.
pub proof fn lemma_target_plan_consistent(policy: TargetPolicy, initialized: bool, target_is_null: bool, has_callback: bool)
    ensures
        !(spec_target_plan(policy, initialized, target_is_null, has_callback).install_new
            && spec_target_plan(policy, initialized, target_is_null, has_callback).store_null),
        !initialized ==> (spec_target_plan(policy, initialized, target_is_null, has_callback).install_new
            || spec_target_plan(policy, initialized, target_is_null, has_callback).store_null),
        !initialized ==> !spec_target_plan(policy, initialized, target_is_null, has_callback).release_old,
{
}

/// How a control's view is placed under the view it belongs to.
#[derive(Clone, Copy, Debug, PartialEq, Eq, Structural)]
pub struct AttachPlan {
    /// Take the view out of the superview it has now.
    pub detach: bool,
    /// Add the view to the requested parent.
    pub attach: bool,
}

/// A view already under the requested parent stays there; otherwise it
/// leaves its current superview, if it has one, and joins the parent. Its
/// frame is set in every case.
pub fn attach_plan(has_superview: bool, superview_is_parent: bool) -> (p: AttachPlan)
    ensures
        p.attach == !superview_is_parent,
        p.detach == (!superview_is_parent && has_superview),
{
    if superview_is_parent {
        AttachPlan { detach: false, attach: false }
    } else {
        AttachPlan { detach: has_superview, attach: true }
    }
}

/// Where an image view's image comes from.
#[derive(Clone, Copy, Debug, PartialEq, Eq, Structural)]
pub enum ImageSource {
    /// An SF Symbol drawn with an explicit point size and weight.
    SymbolWithConfig,
    /// An SF Symbol with default configuration.
    Symbol,
    /// Encoded image data.
    Data,
    /// No image: clear the view.
    Clear,
}

/// A symbol wins over image data; a symbol configuration only matters when
/// there is a symbol.
pub fn image_source(has_symbol: bool, has_symbol_config: bool, has_image_data: bool) -> (s: ImageSource)
    ensures
        has_symbol && has_symbol_config ==> s == ImageSource::SymbolWithConfig,
        has_symbol && !has_symbol_config ==> s == ImageSource::Symbol,
        !has_symbol && has_image_data ==> s == ImageSource::Data,
        !has_symbol && !has_image_data ==> s == ImageSource::Clear,
{
    if has_symbol {
        if has_symbol_config {
            ImageSource::SymbolWithConfig
        } else {
            ImageSource::Symbol
        }
    } else if has_image_data {
        ImageSource::Data
    } else {
        ImageSource::Clear
    }
}

/// The arranged subviews of a stack view: the child view addresses in
/// order, leaving out null ones.
pub open spec fn spec_non_null_children(children: Seq<usize>) -> Seq<usize> {
    children.filter(|c: usize| c != 0)
}

pub fn non_null_children(children: &[usize]) -> (r: Vec<usize>)
    ensures
        r@ == spec_non_null_children(children@),
{
    let mut r: Vec<usize> = Vec::new();
    let mut i: usize = 0;
    while i < children.len()
        invariant
            i <= children.len(),
            r@ == children@.subrange(0, i as int).filter(|c: usize| c != 0),
        decreases children.len() - i,
    {
        proof {
            reveal_with_fuel(Seq::filter, 1);
            assert(children@.subrange(0, i + 1).drop_last() == children@.subrange(0, i as int));
        }
        if children[i] != 0 {
            r.push(children[i]);
        }
        i = i + 1;
    }
    assert(children@.subrange(0, children@.len() as int) == children@);
    r
}

} // verus!
