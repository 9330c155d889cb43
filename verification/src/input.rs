//! Touch, gesture, drag-and-drop and scene-lifecycle handling of the iOS
//! window, on plain values: UIKit objects appear as their addresses, and
//! positions (floating point) stay with the caller.
use vstd::prelude::*;

verus! {

/// Phase of a continuous gesture.
#[derive(Clone, Copy, Debug, PartialEq, Eq, Structural)]
pub enum TouchPhase {
    Started,
    Moved,
    Ended,
}

/// The touch phase of a `UIGestureRecognizerState`: began (1) starts,
/// changed (2) moves, ended (3) and cancelled (4) end; other states are
/// ignored.
pub open spec fn spec_gesture_phase(state: isize) -> Option<TouchPhase> {
    if state == 1 {
        Some(TouchPhase::Started)
    } else if state == 2 {
        Some(TouchPhase::Moved)
    } else if state == 3 || state == 4 {
        Some(TouchPhase::Ended)
    } else {
        None
    }
}

pub fn gesture_phase(state: isize) -> (p: Option<TouchPhase>)
    ensures
        p == spec_gesture_phase(state),
{
    match state {
        1 => Some(TouchPhase::Started),
        2 => Some(TouchPhase::Moved),
        3 | 4 => Some(TouchPhase::Ended),
        _ => None,
    }
}

/// A pointer hovering over the view moves the mouse while the hover
/// gesture has begun or changed.
pub fn hover_moves_pointer(state: isize) -> (b: bool)
    ensures
        b == (state == 1 || state == 2),
{
    state == 1 || state == 2
}

/// What a long press does: it stands in for the right mouse button.
#[derive(Clone, Copy, Debug, PartialEq, Eq, Structural)]
pub enum LongPressAction {
    RightButtonDown,
    RightButtonUp,
    Nothing,
}

pub fn long_press_action(state: isize) -> (a: LongPressAction)
    ensures
        a == (if state == 1 {
            LongPressAction::RightButtonDown
        } else if state == 3 || state == 4 {
            LongPressAction::RightButtonUp
        } else {
            LongPressAction::Nothing
        }),
{
    match state {
        1 => LongPressAction::RightButtonDown,
        3 | 4 => LongPressAction::RightButtonUp,
        _ => LongPressAction::Nothing,
    }
}

/// The finger GPUI follows: only one touch drives the mouse at a time.
#[derive(Clone, Copy, Debug, PartialEq, Eq, Structural)]
pub struct TouchTracker {
    pub tracked_touch: Option<usize>,
}

impl TouchTracker {
    pub fn new() -> (t: Self)
        ensures
            t.tracked_touch is None,
    {
        TouchTracker { tracked_touch: None }
    }

    /// The touch of a touch set that drives the mouse. With a touch already
    /// tracked, that touch if it is in the set (nothing otherwise). With
    /// none tracked, the set's first touch, which becomes the tracked one.
    /// An empty set yields nothing and changes nothing.
    pub fn primary_touch(&mut self, touches: &[usize]) -> (r: Option<usize>)
        ensures
            touches@.len() == 0 ==> r is None && *final(self) == *old(self),
            touches@.len() > 0 && old(self).tracked_touch is None ==> r == Some(touches@[0])
                && final(self).tracked_touch == Some(touches@[0]),
            touches@.len() > 0 && old(self).tracked_touch is Some ==> ({
                let t = old(self).tracked_touch->0;
                &&& *final(self) == *old(self)
                &&& if touches@.contains(t) {
                    r == Some(t)
                } else {
                    r is None
                }
            }),
    {
        if touches.len() == 0 {
            return None;
        }
        match self.tracked_touch {
            Some(current) => {
                let mut i: usize = 0;
                while i < touches.len()
                    invariant
                        i <= touches.len(),
                        touches@.len() > 0,
                        *self == *old(self),
                        old(self).tracked_touch == Some(current),
                        forall|j: int| 0 <= j < i ==> touches@[j] != current,
                    decreases touches.len() - i,
                {
                    if touches[i] == current {
                        assert(touches@[i as int] == current);
                        return Some(current);
                    }
                    i = i + 1;
                }
                None
            },
            None => {
                let first = touches[0];
                self.tracked_touch = Some(first);
                Some(first)
            },
        }
    }

    /// The touch ended or was cancelled: stop following it.
    pub fn release(&mut self)
        ensures
            final(self).tracked_touch is None,
    {
        self.tracked_touch = None;
    }
}

/// How the rest of GPUI treated an input event.
#[derive(Clone, Copy, Debug, PartialEq, Eq, Structural)]
pub struct DispatchEventResult {
    pub propagate: bool,
    pub default_prevented: bool,
}

/// The result reported when no input callback is registered: the event
/// propagates and nothing prevented its default.
pub fn unhandled_dispatch_result() -> (r: DispatchEventResult)
    ensures
        r.propagate && !r.default_prevented,
{
    DispatchEventResult { propagate: true, default_prevented: false }
}

/// The software keyboard is requested after a touch only when an input
/// handler is registered, an input element consumed the touch, and the
/// view is not already first responder.
pub fn should_request_keyboard(has_input_handler: bool, result: DispatchEventResult, is_first_responder: bool) -> (b: bool)
    ensures
        b == (has_input_handler && result.default_prevented && !is_first_responder),
{
    has_input_handler && result.default_prevented && !is_first_responder
}

/// Taking the input handler away hides the keyboard (resigns first
/// responder) when there was a handler and the view exists.
pub fn resigns_on_take_input_handler(had_handler: bool, view_is_null: bool) -> (b: bool)
    ensures
        b == (had_handler && !view_is_null),
{
    had_handler && !view_is_null
}

/// A drop session is accepted when it carries file or URL items, or can
/// load URLs.
pub fn drop_can_handle(has_url_types: bool, can_load_urls: bool) -> (b: bool)
    ensures
        b == (has_url_types || can_load_urls),
{
    has_url_types || can_load_urls
}

/// A URL handed over by a drop or a document picker.
pub struct PickedUrl {
    pub is_file_url: bool,
    /// The URL's path, when it has one that reads as UTF-8.
    pub path: Option<String>,
}

/// The file paths among the URLs, in order: file URLs with a non-empty
/// path.
pub open spec fn spec_url_paths(urls: Seq<PickedUrl>) -> Seq<Seq<char>>
    decreases urls.len(),
{
    if urls.len() == 0 {
        seq![]
    } else {
        let before = spec_url_paths(urls.drop_last());
        let u = urls.last();
        if u.is_file_url && u.path is Some && u.path->0@.len() > 0 {
            before.push(u.path->0@)
        } else {
            before
        }
    }
}

pub fn url_paths(urls: &[PickedUrl]) -> (paths: Vec<String>)
    ensures
        paths@.map_values(|p: String| p@) == spec_url_paths(urls@),
{
    let mut paths: Vec<String> = Vec::new();
    let mut i: usize = 0;
    while i < urls.len()
        invariant
            i <= urls.len(),
            paths@.map_values(|p: String| p@) == spec_url_paths(urls@.subrange(0, i as int)),
        decreases urls.len() - i,
    {
        assert(urls@.subrange(0, i + 1).drop_last() == urls@.subrange(0, i as int));
        let u = &urls[i];
        if u.is_file_url {
            if let Some(p) = &u.path {
                if !p.as_str().is_empty() {
                    paths.push(p.clone());
                }
            }
        }
        assert(paths@.map_values(|p: String| p@) =~= spec_url_paths(urls@.subrange(0, i + 1)));
        i = i + 1;
    }
    assert(urls@.subrange(0, urls@.len() as int) == urls@);
    paths
}

/// UIGestureRecognizerState: began (1) starts a gesture, changed (2) moves
/// it, ended (3) and cancelled (4) both end it, and possible (0) and failed
/// (5) give no phase.
pub proof fn lemma_gesture_states()
    ensures
        spec_gesture_phase(1) == Some(TouchPhase::Started),
        spec_gesture_phase(2) == Some(TouchPhase::Moved),
        spec_gesture_phase(3) == Some(TouchPhase::Ended),
        spec_gesture_phase(4) == Some(TouchPhase::Ended),
        spec_gesture_phase(0) is None,
        spec_gesture_phase(5) is None,
{
}

} // verus!
