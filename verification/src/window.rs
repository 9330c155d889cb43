//! Window-level decisions of the iOS platform: the events a file drop turns
//! into, how scene notifications change the window, the options of each
//! display-link frame, and how a background appearance is applied.
use vstd::prelude::*;

verus! {

/// A file-drop event as GPUI receives it; positions stay with the caller.
#[derive(Clone, Debug, PartialEq, Eq)]
pub enum DropEvent {
    Pending,
    Entered { paths: Vec<String> },
    Submit,
    Exited,
}

/// `UIDropOperationCopy`: what a drop proposal offers while a session hovers.
pub const DROP_OPERATION_COPY: usize = 2;

/// The events that performing a drop dispatches once the dropped URLs were
/// read: with at least one path, the paths enter, are submitted and the drag
/// exits; with none, the drag only exits.
pub fn perform_drop_events(paths: Vec<String>) -> (events: Vec<DropEvent>)
    ensures
        paths@.len() == 0 ==> events@.len() == 1 && events@[0] == DropEvent::Exited,
        paths@.len() > 0 ==> events@.len() == 3 && events@[0] == (DropEvent::Entered { paths })
            && events@[1] == DropEvent::Submit && events@[2] == DropEvent::Exited,
{
    let mut events: Vec<DropEvent> = Vec::new();
    if paths.len() > 0 {
        events.push(DropEvent::Entered { paths });
        events.push(DropEvent::Submit);
    }
    events.push(DropEvent::Exited);
    events
}

/// A scene lifecycle notification.
#[derive(Clone, Copy, Debug, PartialEq, Eq, Structural)]
pub enum SceneEvent {
    DidActivate,
    WillDeactivate,
    DidEnterBackground,
    WillEnterForeground,
}

/// What a scene notification asks of the window.
#[derive(Clone, Copy, Debug, PartialEq, Eq, Structural)]
pub enum SceneAction {
    /// Record the new activity and tell the active-status callback.
    NotifyActive { active: bool },
    /// Pause (`true`) or resume (`false`) the display link.
    PauseDisplayLink { paused: bool },
    Nothing,
}

/// The window's activity after a scene notification: activation and
/// deactivation set it, background and foreground leave it.
pub open spec fn spec_scene_active(active: bool, event: SceneEvent) -> bool {
    match event {
        SceneEvent::DidActivate => true,
        SceneEvent::WillDeactivate => false,
        _ => active,
    }
}

/// Applies a scene notification to the window's activity and says what else
/// to do. The display link is only touched when one exists.
pub fn scene_transition(active: &mut bool, event: SceneEvent, has_display_link: bool) -> (a: SceneAction)
    ensures
        *final(active) == spec_scene_active(*old(active), event),
        a == (match event {
            SceneEvent::DidActivate => SceneAction::NotifyActive { active: true },
            SceneEvent::WillDeactivate => SceneAction::NotifyActive { active: false },
            SceneEvent::DidEnterBackground => if has_display_link {
                SceneAction::PauseDisplayLink { paused: true }
            } else {
                SceneAction::Nothing
            },
            SceneEvent::WillEnterForeground => if has_display_link {
                SceneAction::PauseDisplayLink { paused: false }
            } else {
                SceneAction::Nothing
            },
        }),
{
    match event {
        SceneEvent::DidActivate => {
            *active = true;
            SceneAction::NotifyActive { active: true }
        },
        SceneEvent::WillDeactivate => {
            *active = false;
            SceneAction::NotifyActive { active: false }
        },
        SceneEvent::DidEnterBackground => {
            if has_display_link {
                SceneAction::PauseDisplayLink { paused: true }
            } else {
                SceneAction::Nothing
            }
        },
        SceneEvent::WillEnterForeground => {
            if has_display_link {
                SceneAction::PauseDisplayLink { paused: false }
            } else {
                SceneAction::Nothing
            }
        },
    }
}

/// Background and foreground pause and resume the display link and never
/// change whether the window is active.
pub proof fn lemma_background_keeps_activity(active: bool)
    ensures
        spec_scene_active(active, SceneEvent::DidEnterBackground) == active,
        spec_scene_active(active, SceneEvent::WillEnterForeground) == active,
        spec_scene_active(spec_scene_active(active, SceneEvent::DidActivate), SceneEvent::DidEnterBackground),
{
}

/// Options handed to the frame callback on a display-link tick.
#[derive(Clone, Copy, Debug, PartialEq, Eq, Structural)]
pub struct FrameOptions {
    pub require_presentation: bool,
    pub force_render: bool,
}

/// Remembers whether the first frame was rendered.
#[derive(Clone, Copy, Debug, PartialEq, Eq, Structural)]
pub struct FrameScheduler {
    pub first_frame_done: bool,
}

/// The scheduler after a tick and the options of that tick: the very first
/// frame is forced to render, every later one is not.
pub open spec fn spec_next_frame(s: FrameScheduler) -> (FrameScheduler, FrameOptions) {
    (
        FrameScheduler { first_frame_done: true },
        FrameOptions { require_presentation: false, force_render: !s.first_frame_done },
    )
}

impl FrameScheduler {
    pub fn new() -> (s: Self)
        ensures
            !s.first_frame_done,
    {
        FrameScheduler { first_frame_done: false }
    }

    /// The options of the next display-link frame.
    pub fn next_frame(&mut self) -> (o: FrameOptions)
        ensures
            (*final(self), o) == spec_next_frame(*old(self)),
    {
        let force = !self.first_frame_done;
        self.first_frame_done = true;
        FrameOptions { require_presentation: false, force_render: force }
    }
}

/// Only the first frame is forced: a fresh scheduler forces its first tick,
/// and whatever the state, the tick after any tick is not forced.
pub proof fn lemma_only_first_frame_forced(s: FrameScheduler)
    ensures
        spec_next_frame(FrameScheduler { first_frame_done: false }).1.force_render,
        !spec_next_frame(spec_next_frame(s).0).1.force_render,
{
}

/// How a window's background is drawn.
#[derive(Clone, Copy, Debug, PartialEq, Eq, Structural)]
pub enum BackgroundAppearance {
    Opaque,
    Transparent,
    Blurred,
    MicaBackdrop,
    MicaAltBackdrop,
}

/// `UIBlurEffectStyleSystemMaterial`.
pub const BLUR_EFFECT_STYLE_SYSTEM_MATERIAL: isize = 6;

/// Flexible width and height and all flexible margins.
pub const BLUR_AUTORESIZING_MASK: usize = 0x3F;

/// What applying a background appearance does to the view: any existing
/// blur view is removed first, then the Metal layer's opacity is set and,
/// for a blurred background, a system-material blur view is inserted
/// behind the content.
#[derive(Clone, Copy, Debug, PartialEq, Eq, Structural)]
pub struct BackgroundPlan {
    pub remove_existing_blur: bool,
    pub layer_opaque: bool,
    pub insert_blur: bool,
}

/// The plan for a background appearance. The Mica backdrops exist on Windows
/// only and are drawn opaque here.
pub fn background_plan(appearance: BackgroundAppearance, has_blur_view: bool) -> (p: BackgroundPlan)
    ensures
        p.remove_existing_blur == has_blur_view,
        p.layer_opaque == (appearance != BackgroundAppearance::Transparent
            && appearance != BackgroundAppearance::Blurred),
        p.insert_blur == (appearance == BackgroundAppearance::Blurred),
{
    let (layer_opaque, insert_blur) = match appearance {
        BackgroundAppearance::Opaque => (true, false),
        BackgroundAppearance::Transparent => (false, false),
        BackgroundAppearance::Blurred => (false, true),
        _ => (true, false),
    };
    BackgroundPlan { remove_existing_blur: has_blur_view, layer_opaque, insert_blur }
}

} // verus!

verus! {

/// The native objects and callbacks a window may hold when it is dropped.
#[derive(Clone, Copy, Debug, PartialEq, Eq, Structural)]
pub struct WindowResources {
    pub scene_observer: bool,
    /// The observer still holds a reference to the window state.
    pub scene_observer_state: bool,
    pub ui_view: bool,
    /// The view still holds a reference to the window state.
    pub view_state: bool,
    /// The view created a text tokenizer.
    pub tokenizer: bool,
    pub drop_delegate: bool,
    /// The drop delegate still holds a reference to the window state.
    pub drop_delegate_state: bool,
    pub display_link: bool,
    pub display_link_target: bool,
    pub frame_callback: bool,
    pub blur_view: bool,
    pub drop_interaction: bool,
    pub gesture_delegate: bool,
    pub view_controller: bool,
    pub ui_window: bool,
    pub on_close: bool,
}

/// One step of tearing a window down.
#[derive(Clone, Copy, Debug, PartialEq, Eq, Structural)]
pub enum TeardownStep {
    RemoveSceneObserver,
    DropSceneObserverState,
    ReleaseSceneObserver,
    DropViewState,
    DropDropDelegateState,
    InvalidateDisplayLink,
    ReleaseDisplayLinkTarget,
    FreeFrameCallback,
    RemoveBlurView,
    ReleaseDropInteraction,
    ReleaseDropDelegate,
    ReleaseGestureDelegate,
    ReleaseTokenizer,
    ReleaseView,
    ReleaseViewController,
    ReleaseWindow,
    NotifyClosed,
}

/// The position of each step in the teardown order.
pub open spec fn step_rank(step: TeardownStep) -> int {
    match step {
        TeardownStep::RemoveSceneObserver => 0,
        TeardownStep::DropSceneObserverState => 1,
        TeardownStep::ReleaseSceneObserver => 2,
        TeardownStep::DropViewState => 3,
        TeardownStep::DropDropDelegateState => 4,
        TeardownStep::InvalidateDisplayLink => 5,
        TeardownStep::ReleaseDisplayLinkTarget => 6,
        TeardownStep::FreeFrameCallback => 7,
        TeardownStep::RemoveBlurView => 8,
        TeardownStep::ReleaseDropInteraction => 9,
        TeardownStep::ReleaseDropDelegate => 10,
        TeardownStep::ReleaseGestureDelegate => 11,
        TeardownStep::ReleaseTokenizer => 12,
        TeardownStep::ReleaseView => 13,
        TeardownStep::ReleaseViewController => 14,
        TeardownStep::ReleaseWindow => 15,
        TeardownStep::NotifyClosed => 16,
    }
}

/// The number of teardown steps there are.
pub const TEARDOWN_STEP_COUNT: usize = 17;

/// The step at a position of the teardown order.
pub open spec fn step_at(k: int) -> TeardownStep {
    if k == 0 {
        TeardownStep::RemoveSceneObserver
    } else if k == 1 {
        TeardownStep::DropSceneObserverState
    } else if k == 2 {
        TeardownStep::ReleaseSceneObserver
    } else if k == 3 {
        TeardownStep::DropViewState
    } else if k == 4 {
        TeardownStep::DropDropDelegateState
    } else if k == 5 {
        TeardownStep::InvalidateDisplayLink
    } else if k == 6 {
        TeardownStep::ReleaseDisplayLinkTarget
    } else if k == 7 {
        TeardownStep::FreeFrameCallback
    } else if k == 8 {
        TeardownStep::RemoveBlurView
    } else if k == 9 {
        TeardownStep::ReleaseDropInteraction
    } else if k == 10 {
        TeardownStep::ReleaseDropDelegate
    } else if k == 11 {
        TeardownStep::ReleaseGestureDelegate
    } else if k == 12 {
        TeardownStep::ReleaseTokenizer
    } else if k == 13 {
        TeardownStep::ReleaseView
    } else if k == 14 {
        TeardownStep::ReleaseViewController
    } else if k == 15 {
        TeardownStep::ReleaseWindow
    } else {
        TeardownStep::NotifyClosed
    }
}

/// Whether each step of the teardown order is taken, by position: a step
/// is taken only for what is present. State references are dropped only
/// through the object that holds them, and the tokenizer only through the
/// view.
pub open spec fn teardown_flags(r: WindowResources) -> Seq<bool> {
    seq![
        r.scene_observer,
        r.scene_observer && r.scene_observer_state,
        r.scene_observer,
        r.ui_view && r.view_state,
        r.drop_delegate && r.drop_delegate_state,
        r.display_link,
        r.display_link_target,
        r.frame_callback,
        r.blur_view,
        r.drop_interaction,
        r.drop_delegate,
        r.gesture_delegate,
        r.ui_view && r.tokenizer,
        r.ui_view,
        r.view_controller,
        r.ui_window,
        r.on_close,
    ]
}

/// The steps taken among the first `n` positions, in order.
pub open spec fn steps_upto(flags: Seq<bool>, n: int) -> Seq<TeardownStep>
    decreases n,
{
    if n <= 0 {
        seq![]
    } else if flags[n - 1] {
        steps_upto(flags, n - 1).push(step_at(n - 1))
    } else {
        steps_upto(flags, n - 1)
    }
}

/// The teardown order: the scene observer first, then the state references
/// the view and the drop delegate hold, the display link with its target
/// and callback, the blur view, the drop interaction and delegate, the
/// gesture delegate, the tokenizer, the view, its controller and the
/// window, and last the close callback.
pub open spec fn spec_teardown(r: WindowResources) -> Seq<TeardownStep> {
    steps_upto(teardown_flags(r), TEARDOWN_STEP_COUNT as int)
}

fn exec_step_at(k: usize) -> (s: TeardownStep)
    ensures
        s == step_at(k as int),
{
    match k {
        0 => TeardownStep::RemoveSceneObserver,
        1 => TeardownStep::DropSceneObserverState,
        2 => TeardownStep::ReleaseSceneObserver,
        3 => TeardownStep::DropViewState,
        4 => TeardownStep::DropDropDelegateState,
        5 => TeardownStep::InvalidateDisplayLink,
        6 => TeardownStep::ReleaseDisplayLinkTarget,
        7 => TeardownStep::FreeFrameCallback,
        8 => TeardownStep::RemoveBlurView,
        9 => TeardownStep::ReleaseDropInteraction,
        10 => TeardownStep::ReleaseDropDelegate,
        11 => TeardownStep::ReleaseGestureDelegate,
        12 => TeardownStep::ReleaseTokenizer,
        13 => TeardownStep::ReleaseView,
        14 => TeardownStep::ReleaseViewController,
        15 => TeardownStep::ReleaseWindow,
        _ => TeardownStep::NotifyClosed,
    }
}

/// The steps that drop a window holding the given resources.
pub fn teardown_steps(r: WindowResources) -> (steps: Vec<TeardownStep>)
    ensures
        steps@ == spec_teardown(r),
{
    let flags = vec![
        r.scene_observer,
        r.scene_observer && r.scene_observer_state,
        r.scene_observer,
        r.ui_view && r.view_state,
        r.drop_delegate && r.drop_delegate_state,
        r.display_link,
        r.display_link_target,
        r.frame_callback,
        r.blur_view,
        r.drop_interaction,
        r.drop_delegate,
        r.gesture_delegate,
        r.ui_view && r.tokenizer,
        r.ui_view,
        r.view_controller,
        r.ui_window,
        r.on_close,
    ];
    assert(flags@ =~= teardown_flags(r));
    let mut steps: Vec<TeardownStep> = Vec::new();
    let mut k: usize = 0;
    while k < TEARDOWN_STEP_COUNT
        invariant
            k <= TEARDOWN_STEP_COUNT,
            flags@ == teardown_flags(r),
            steps@ == steps_upto(flags@, k as int),
        decreases TEARDOWN_STEP_COUNT - k,
    {
        if flags[k] {
            steps.push(exec_step_at(k));
        }
        k = k + 1;
    }
    steps
}

proof fn lemma_rank_of_step_at(k: int)
    requires
        0 <= k < TEARDOWN_STEP_COUNT,
    ensures
        step_rank(step_at(k)) == k,
{
}

proof fn lemma_step_at_rank(step: TeardownStep)
    ensures
        0 <= step_rank(step) < TEARDOWN_STEP_COUNT,
        step_at(step_rank(step)) == step,
{
}

/// The steps among the first `n` positions come in strictly increasing
/// position, and a step is among them exactly when its position is below
/// `n` and flagged.
proof fn lemma_steps_upto(flags: Seq<bool>, n: int)
    requires
        0 <= n <= TEARDOWN_STEP_COUNT,
        flags.len() == TEARDOWN_STEP_COUNT,
    ensures
        forall|i: int, j: int|
            0 <= i < j < steps_upto(flags, n).len() ==> step_rank(#[trigger] steps_upto(flags, n)[i])
                < step_rank(#[trigger] steps_upto(flags, n)[j]),
        forall|i: int| 0 <= i < steps_upto(flags, n).len() ==> step_rank(#[trigger] steps_upto(flags, n)[i]) < n,
        forall|x: TeardownStep|
            steps_upto(flags, n).contains(x) <==> (step_rank(x) < n && #[trigger] flags[step_rank(x)]),
    decreases n,
{
    if n > 0 {
        lemma_steps_upto(flags, n - 1);
        lemma_rank_of_step_at(n - 1);
        let prev = steps_upto(flags, n - 1);
        assert forall|x: TeardownStep|
            steps_upto(flags, n).contains(x) <==> (step_rank(x) < n && #[trigger] flags[step_rank(x)]) by {
            lemma_step_at_rank(x);
            if steps_upto(flags, n).contains(x) {
                let i = choose|i: int| 0 <= i < steps_upto(flags, n).len() && steps_upto(flags, n)[i] == x;
                if i < prev.len() {
                    assert(prev[i] == x);
                    assert(prev.contains(x));
                }
            }
            if step_rank(x) < n && flags[step_rank(x)] {
                if step_rank(x) == n - 1 {
                    assert(steps_upto(flags, n).last() == x);
                    assert(steps_upto(flags, n)[steps_upto(flags, n).len() - 1] == x);
                } else {
                    assert(prev.contains(x));
                    let i = choose|i: int| 0 <= i < prev.len() && prev[i] == x;
                    assert(steps_upto(flags, n)[i] == x);
                }
            }
        }
    } else {
        assert forall|x: TeardownStep|
            steps_upto(flags, n).contains(x) <==> (step_rank(x) < n && #[trigger] flags[step_rank(x)]) by {
            lemma_step_at_rank(x);
        }
    }
}

/// Tearing a window down releases every object at most once; each step is
/// taken exactly when what it releases is present (the window itself among
/// them); and the close callback, when present, runs last.
pub proof fn lemma_teardown_releases_once(r: WindowResources)
    ensures
        forall|i: int, j: int|
            0 <= i < j < spec_teardown(r).len() ==> spec_teardown(r)[i] != spec_teardown(r)[j],
        forall|x: TeardownStep|
            spec_teardown(r).contains(x) <==> #[trigger] teardown_flags(r)[step_rank(x)],
        r.on_close ==> spec_teardown(r).last() == TeardownStep::NotifyClosed,
        spec_teardown(r).contains(TeardownStep::ReleaseWindow) <==> r.ui_window,
{
    let f = teardown_flags(r);
    lemma_steps_upto(f, TEARDOWN_STEP_COUNT as int);
    assert forall|x: TeardownStep|
        spec_teardown(r).contains(x) <==> #[trigger] teardown_flags(r)[step_rank(x)] by {
        lemma_step_at_rank(x);
    }
    assert(step_rank(TeardownStep::ReleaseWindow) == 15);
    assert(f[15] == r.ui_window);
}

/// A new window is attached to the first connected scene when there is one
/// and is sized to the screen otherwise.
pub fn creates_window_with_scene(connected_scenes: usize) -> (b: bool)
    ensures
        b == (connected_scenes > 0),
{
    connected_scenes > 0
}

/// The gesture recognizers a window's view installs.
#[derive(Clone, Copy, Debug, PartialEq, Eq, Structural)]
pub enum GestureKind {
    ScrollPan,
    SingleFingerPan,
    Pinch,
    Rotation,
    Hover,
    LongPress,
}

/// How one recognizer is configured: the touches it requires, when it
/// limits them, and whether it shares the delegate that lets it recognize
/// alongside the others.
#[derive(Clone, Copy, Debug, PartialEq, Eq, Structural)]
pub struct GestureConfig {
    pub kind: GestureKind,
    pub touches: Option<usize>,
    pub simultaneous: bool,
}

pub open spec fn spec_window_gestures() -> Seq<GestureConfig> {
    seq![
        GestureConfig { kind: GestureKind::ScrollPan, touches: Some(2), simultaneous: true },
        GestureConfig { kind: GestureKind::SingleFingerPan, touches: Some(1), simultaneous: false },
        GestureConfig { kind: GestureKind::Pinch, touches: None, simultaneous: true },
        GestureConfig { kind: GestureKind::Rotation, touches: None, simultaneous: true },
        GestureConfig { kind: GestureKind::Hover, touches: None, simultaneous: false },
        GestureConfig { kind: GestureKind::LongPress, touches: None, simultaneous: true },
    ]
}

/// The recognizers in the order they are added to the view.
pub fn window_gestures() -> (g: Vec<GestureConfig>)
    ensures
        g@ == spec_window_gestures(),
{
    let g = vec![
        GestureConfig { kind: GestureKind::ScrollPan, touches: Some(2), simultaneous: true },
        GestureConfig { kind: GestureKind::SingleFingerPan, touches: Some(1), simultaneous: false },
        GestureConfig { kind: GestureKind::Pinch, touches: None, simultaneous: true },
        GestureConfig { kind: GestureKind::Rotation, touches: None, simultaneous: true },
        GestureConfig { kind: GestureKind::Hover, touches: None, simultaneous: false },
        GestureConfig { kind: GestureKind::LongPress, touches: None, simultaneous: true },
    ];
    assert(g@ =~= spec_window_gestures());
    g
}

} // verus!
