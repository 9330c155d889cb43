//! The state the demo views keep and how input changes it: text fields
//! edited by key presses, tap counters, the keyboard event log, the stepper
//! and segmented control, and the status lines of the picker, clipboard and
//! file-drop demos. Drawing the views is left to the caller.
use vstd::prelude::*;
use crate::strings::{append, owned, push_decimal, spec_decimal, str_eq};
use crate::platform::WindowAppearance;

verus! {

/// A text field's contents after a key press: backspace removes the last
/// character, enter adds a newline when the field is multi-line and is
/// otherwise left to the submit action, and any other key with a character
/// appends it.
pub open spec fn spec_edit_text(text: Seq<char>, key: Seq<char>, key_char: Option<Seq<char>>, multiline: bool) -> Seq<char> {
    if key == "backspace"@ {
        if text.len() > 0 {
            text.drop_last()
        } else {
            text
        }
    } else if key == "enter"@ {
        if multiline {
            text.push('\n')
        } else {
            text
        }
    } else {
        match key_char {
            Some(c) => text + c,
            None => text,
        }
    }
}

/// Applies a key press to a text field.
pub fn edit_text(text: &mut String, key: &str, key_char: Option<&str>, multiline: bool)
    ensures
        final(text)@ == spec_edit_text(old(text)@, key@, match key_char {
            Some(c) => Some(c@),
            None => None,
        }, multiline),
{
    if str_eq(key, "backspace") {
        text.pop();
    } else if str_eq(key, "enter") {
        if multiline {
            text.push('\n');
        }
    } else if let Some(c) = key_char {
        append(text, c);
    }
}

/// What a single-line text field shows: a placeholder while empty and
/// unfocused, a bare caret while empty and focused, else the text and a
/// caret.
pub open spec fn spec_field_display(text: Seq<char>, focused: bool) -> Seq<char> {
    if text.len() == 0 && !focused {
        "Tap here to type..."@
    } else if text.len() == 0 {
        "|"@
    } else {
        text + "|"@
    }
}

pub fn field_display(text: &str, focused: bool) -> (s: String)
    ensures
        s@ == spec_field_display(text@, focused),
{
    if text.unicode_len() == 0 && !focused {
        owned("Tap here to type...")
    } else if text.unicode_len() == 0 {
        owned("|")
    } else {
        let mut s = owned(text);
        append(&mut s, "|");
        s
    }
}

/// What the keyboard demo shows of its text: `<empty>` stands for none.
pub fn composed_display(text: &str) -> (s: String)
    ensures
        s@ == (if text@.len() == 0 { "<empty>"@ } else { text@ }),
{
    if text.unicode_len() == 0 {
        owned("<empty>")
    } else {
        owned(text)
    }
}

/// The most lines the keyboard demo keeps in its event log.
pub const EVENT_LOG_CAPACITY: usize = 40;

/// The most recent log lines shown.
pub const EVENT_LOG_SHOWN: usize = 10;

/// The log after recording a line: the line is appended and, past the
/// capacity, the oldest line is dropped.
pub open spec fn spec_record(lines: Seq<Seq<char>>, line: Seq<char>) -> Seq<Seq<char>> {
    let s = lines.push(line);
    if s.len() > EVENT_LOG_CAPACITY {
        s.drop_first()
    } else {
        s
    }
}

/// The keyboard demo's log of recent key events, oldest first.
pub struct EventLog {
    pub lines: Vec<String>,
}

impl View for EventLog {
    type V = Seq<Seq<char>>;

    open spec fn view(&self) -> Seq<Seq<char>> {
        self.lines@.map_values(|l: String| l@)
    }
}

impl EventLog {
    pub open spec fn wf(&self) -> bool {
        self.lines@.len() <= EVENT_LOG_CAPACITY
    }

    pub fn new() -> (l: Self)
        ensures
            l@ == Seq::<Seq<char>>::empty(),
            l.wf(),
    {
        EventLog { lines: Vec::new() }
    }

    pub fn record(&mut self, line: String)
        requires
            old(self).wf(),
        ensures
            final(self)@ == spec_record(old(self)@, line@),
            final(self).wf(),
    {
        let ghost before = self@;
        let ghost line_view = line@;
        self.lines.push(line);
        assert(self@ =~= before.push(line_view));
        if self.lines.len() > EVENT_LOG_CAPACITY {
            self.lines.remove(0);
            assert(self@ =~= before.push(line_view).drop_first());
        }
    }

    /// The lines shown, newest first: at most the last ten.
    pub fn recent(&self) -> (r: Vec<String>)
        ensures
            r@.len() == (if self@.len() < EVENT_LOG_SHOWN { self@.len() } else { EVENT_LOG_SHOWN as nat }),
            forall|i: int| 0 <= i < r@.len() ==> #[trigger] r@[i]@ == self@[self@.len() - 1 - i],
    {
        let mut r: Vec<String> = Vec::new();
        let n = self.lines.len();
        let mut k: usize = 0;
        while k < n && k < EVENT_LOG_SHOWN
            invariant
                n == self.lines@.len(),
                k <= n,
                k <= EVENT_LOG_SHOWN,
                r@.len() == k,
                forall|i: int| 0 <= i < k ==> #[trigger] r@[i]@ == self.lines@[n - 1 - i]@,
            decreases n - k,
        {
            let line = self.lines[n - 1 - k].clone();
            r.push(line);
            k = k + 1;
        }
        r
    }
}

/// However many lines are recorded, the log never holds more than its
/// capacity, and the line just recorded is always its newest.
pub proof fn lemma_record_bounded(lines: Seq<Seq<char>>, line: Seq<char>)
    requires
        lines.len() <= EVENT_LOG_CAPACITY,
    ensures
        spec_record(lines, line).len() <= EVENT_LOG_CAPACITY,
        spec_record(lines, line).last() == line,
        lines.len() < EVENT_LOG_CAPACITY ==> spec_record(lines, line) == lines.push(line),
{
}

/// The stepper's bounds.
pub const STEPPER_MIN: i32 = 0;

pub const STEPPER_MAX: i32 = 20;

pub open spec fn spec_clamp(v: int, lo: int, hi: int) -> int {
    if v < lo {
        lo
    } else if v > hi {
        hi
    } else {
        v
    }
}

/// The stepper's value after tapping minus: one less, kept within bounds.
pub fn stepper_decrement(value: i32) -> (v: i32)
    requires
        value > i32::MIN,
    ensures
        v == spec_clamp(value - 1, STEPPER_MIN as int, STEPPER_MAX as int),
{
    let d = value - 1;
    if d < STEPPER_MIN {
        STEPPER_MIN
    } else if d > STEPPER_MAX {
        STEPPER_MAX
    } else {
        d
    }
}

/// The stepper's value after tapping plus: one more, kept within bounds.
pub fn stepper_increment(value: i32) -> (v: i32)
    requires
        value < i32::MAX,
    ensures
        v == spec_clamp(value + 1, STEPPER_MIN as int, STEPPER_MAX as int),
{
    let d = value + 1;
    if d < STEPPER_MIN {
        STEPPER_MIN
    } else if d > STEPPER_MAX {
        STEPPER_MAX
    } else {
        d
    }
}

/// Whatever the value before, a tap leaves the stepper within its bounds,
/// and inside the bounds minus undoes plus except at the top.
pub proof fn lemma_stepper_bounded(value: int)
    ensures
        STEPPER_MIN <= spec_clamp(value - 1, STEPPER_MIN as int, STEPPER_MAX as int) <= STEPPER_MAX,
        STEPPER_MIN <= spec_clamp(value + 1, STEPPER_MIN as int, STEPPER_MAX as int) <= STEPPER_MAX,
        STEPPER_MIN <= value < STEPPER_MAX ==> spec_clamp(
            spec_clamp(value + 1, STEPPER_MIN as int, STEPPER_MAX as int) - 1,
            STEPPER_MIN as int,
            STEPPER_MAX as int,
        ) == value,
{
}

/// The segment a native segmented control reports, limited to the three
/// segments shown.
pub fn clamp_segment(index: usize) -> (s: usize)
    ensures
        s == (if index < 2 { index } else { 2 }),
{
    if index < 2 {
        index
    } else {
        2
    }
}

/// The touch demo: which box was tapped last and how many taps there were.
#[derive(Clone, Copy, Debug, PartialEq, Eq, Structural)]
pub struct TouchDemo {
    pub tapped_box: Option<usize>,
    pub tap_count: usize,
}

impl TouchDemo {
    pub fn new() -> (d: Self)
        ensures
            d.tapped_box is None,
            d.tap_count == 0,
    {
        TouchDemo { tapped_box: None, tap_count: 0 }
    }

    pub fn tap(&mut self, index: usize)
        requires
            old(self).tap_count < usize::MAX,
        ensures
            final(self).tapped_box == Some(index),
            final(self).tap_count == old(self).tap_count + 1,
    {
        self.tapped_box = Some(index);
        self.tap_count = self.tap_count + 1;
    }

    /// A box is drawn in its active color while it is the last one tapped.
    pub fn box_color(&self, index: usize, base: u32, active: u32) -> (c: u32)
        ensures
            c == (if self.tapped_box == Some(index) { active } else { base }),
    {
        match self.tapped_box {
            Some(t) => if t == index {
                active
            } else {
                base
            },
            None => base,
        }
    }

    /// The banner above the boxes.
    pub fn title(&self) -> (s: String)
        ensures
            s@ == "Tap a box! (taps: "@ + spec_decimal(self.tap_count as nat) + ")"@,
    {
        let mut s = owned("Tap a box! (taps: ");
        push_decimal(&mut s, self.tap_count as u128);
        append(&mut s, ")");
        s
    }
}

/// The boxes of the combined demo.
#[derive(Clone, Copy, Debug, PartialEq, Eq, Structural)]
pub enum TapBox {
    Red,
    Green,
    Blue,
}

impl TapBox {
    pub open spec fn spec_name(self) -> Seq<char> {
        match self {
            TapBox::Red => "red"@,
            TapBox::Green => "green"@,
            TapBox::Blue => "blue"@,
        }
    }

    pub fn name(self) -> (n: &'static str)
        ensures
            n@ == self.spec_name(),
    {
        match self {
            TapBox::Red => "red",
            TapBox::Green => "green",
            TapBox::Blue => "blue",
        }
    }
}

/// The combined demo: how many taps there were and which box was tapped
/// last.
#[derive(Clone, Copy, Debug, PartialEq, Eq, Structural)]
pub struct CombinedDemo {
    pub tap_count: usize,
    pub last_tapped: Option<TapBox>,
}

impl CombinedDemo {
    pub fn new() -> (d: Self)
        ensures
            d.tap_count == 0,
            d.last_tapped is None,
    {
        CombinedDemo { tap_count: 0, last_tapped: None }
    }

    pub fn tap(&mut self, target: TapBox)
        requires
            old(self).tap_count < usize::MAX,
        ensures
            final(self).tap_count == old(self).tap_count + 1,
            final(self).last_tapped == Some(target),
    {
        self.tap_count = self.tap_count + 1;
        self.last_tapped = Some(target);
    }

    /// The info line: `Taps: <count>  Last: <box>`, with `none` before the
    /// first tap.
    pub fn status_line(&self) -> (s: String)
        ensures
            s@ == "Taps: "@ + spec_decimal(self.tap_count as nat) + "  Last: "@ + match self.last_tapped {
                Some(b) => b.spec_name(),
                None => "none"@,
            },
    {
        let mut s = owned("Taps: ");
        push_decimal(&mut s, self.tap_count as u128);
        append(&mut s, "  Last: ");
        match self.last_tapped {
            Some(b) => append(&mut s, b.name()),
            None => append(&mut s, "none"),
        }
        s
    }
}

/// The combined demo's colors, by system appearance.
#[derive(Clone, Copy, Debug, PartialEq, Eq, Structural)]
pub struct Palette {
    pub background: u32,
    pub text: u32,
    pub panel: u32,
    pub muted: u32,
}

pub open spec fn spec_is_dark(appearance: WindowAppearance) -> bool {
    appearance == WindowAppearance::Dark || appearance == WindowAppearance::VibrantDark
}

pub fn palette(appearance: WindowAppearance) -> (p: Palette)
    ensures
        spec_is_dark(appearance) ==> p == (Palette { background: 0x1e1e2e, text: 0xcdd6f4, panel: 0x313244, muted: 0x6c7086 }),
        !spec_is_dark(appearance) ==> p == (Palette { background: 0xeff1f5, text: 0x4c4f69, panel: 0xccd0da, muted: 0x9ca0b0 }),
{
    match appearance {
        WindowAppearance::Dark | WindowAppearance::VibrantDark => Palette {
            background: 0x1e1e2e,
            text: 0xcdd6f4,
            panel: 0x313244,
            muted: 0x6c7086,
        },
        _ => Palette { background: 0xeff1f5, text: 0x4c4f69, panel: 0xccd0da, muted: 0x9ca0b0 },
    }
}

/// Which picker the file-picker demo opened.
#[derive(Clone, Copy, Debug, PartialEq, Eq, Structural)]
pub enum PickerKind {
    Files,
    Directories,
    Save,
}

/// How a picker prompt ended, as the demo sees it. Error texts are the
/// errors' display strings.
pub enum PickerOutcome {
    Picked { count: usize },
    Cancelled,
    Failed { error: String },
    ChannelFailed { error: String },
}

/// The status line of the file-picker demo after a prompt ends.
pub open spec fn spec_picker_status(kind: PickerKind, outcome: PickerOutcome) -> Seq<char> {
    match (kind, outcome) {
        (PickerKind::Files, PickerOutcome::Picked { count }) => "Selected "@ + spec_decimal(count as nat) + " file(s)"@,
        (PickerKind::Directories, PickerOutcome::Picked { count }) => "Selected "@ + spec_decimal(count as nat) + " folder(s)"@,
        (PickerKind::Save, PickerOutcome::Picked { .. }) => "Save destination selected"@,
        (PickerKind::Files, PickerOutcome::Cancelled) => "File picker cancelled"@,
        (PickerKind::Directories, PickerOutcome::Cancelled) => "Directory picker cancelled"@,
        (PickerKind::Save, PickerOutcome::Cancelled) => "Save picker cancelled"@,
        (PickerKind::Files, PickerOutcome::Failed { error }) => "File picker failed: "@ + error@,
        (PickerKind::Directories, PickerOutcome::Failed { error }) => "Directory picker failed: "@ + error@,
        (PickerKind::Save, PickerOutcome::Failed { error }) => "Save picker failed: "@ + error@,
        (PickerKind::Files, PickerOutcome::ChannelFailed { error }) => "File picker channel failed: "@ + error@,
        (PickerKind::Directories, PickerOutcome::ChannelFailed { error }) => "Directory picker channel failed: "@ + error@,
        (PickerKind::Save, PickerOutcome::ChannelFailed { error }) => "Save picker channel failed: "@ + error@,
    }
}

/// The status line while a picker is being opened.
pub fn picker_opening_status(kind: PickerKind) -> (s: String)
    ensures
        s@ == (match kind {
            PickerKind::Files => "Opening file picker (files)..."@,
            PickerKind::Directories => "Opening file picker (directories)..."@,
            PickerKind::Save => "Opening save picker..."@,
        }),
{
    match kind {
        PickerKind::Files => owned("Opening file picker (files)..."),
        PickerKind::Directories => owned("Opening file picker (directories)..."),
        PickerKind::Save => owned("Opening save picker..."),
    }
}

fn picker_label(kind: PickerKind) -> (s: &'static str)
    ensures
        s@ == (match kind {
            PickerKind::Files => "File picker"@,
            PickerKind::Directories => "Directory picker"@,
            PickerKind::Save => "Save picker"@,
        }),
{
    match kind {
        PickerKind::Files => "File picker",
        PickerKind::Directories => "Directory picker",
        PickerKind::Save => "Save picker",
    }
}

pub fn picker_status(kind: PickerKind, outcome: &PickerOutcome) -> (s: String)
    ensures
        s@ == spec_picker_status(kind, *outcome),
{
    proof {
        reveal_strlit("File picker");
        reveal_strlit("Directory picker");
        reveal_strlit("Save picker");
        reveal_strlit(" cancelled");
        reveal_strlit(" failed: ");
        reveal_strlit(" channel failed: ");
        reveal_strlit("File picker cancelled");
        reveal_strlit("Directory picker cancelled");
        reveal_strlit("Save picker cancelled");
        reveal_strlit("File picker failed: ");
        reveal_strlit("Directory picker failed: ");
        reveal_strlit("Save picker failed: ");
        reveal_strlit("File picker channel failed: ");
        reveal_strlit("Directory picker channel failed: ");
        reveal_strlit("Save picker channel failed: ");
    }
    match outcome {
        PickerOutcome::Picked { count } => match kind {
            PickerKind::Files => {
                let mut s = owned("Selected ");
                push_decimal(&mut s, *count as u128);
                append(&mut s, " file(s)");
                s
            },
            PickerKind::Directories => {
                let mut s = owned("Selected ");
                push_decimal(&mut s, *count as u128);
                append(&mut s, " folder(s)");
                s
            },
            PickerKind::Save => owned("Save destination selected"),
        },
        PickerOutcome::Cancelled => {
            let mut s = owned(picker_label(kind));
            append(&mut s, " cancelled");
            s
        },
        PickerOutcome::Failed { error } => {
            let mut s = owned(picker_label(kind));
            append(&mut s, " failed: ");
            append(&mut s, error.as_str());
            s
        },
        PickerOutcome::ChannelFailed { error } => {
            let mut s = owned(picker_label(kind));
            append(&mut s, " channel failed: ");
            append(&mut s, error.as_str());
            s
        },
    }
}

/// The status line after reading the clipboard: its entry count, with
/// "entry" for exactly one.
pub fn clipboard_read_status(count: usize) -> (s: String)
    ensures
        s@ == "Read "@ + spec_decimal(count as nat) + (if count == 1 {
            " clipboard entry"@
        } else {
            " clipboard entries"@
        }),
{
    let mut s = owned("Read ");
    push_decimal(&mut s, count as u128);
    if count == 1 {
        append(&mut s, " clipboard entry");
    } else {
        append(&mut s, " clipboard entries");
    }
    s
}

/// A clipboard field as the demo shows it: `<none>` when absent.
pub fn or_none(value: Option<String>) -> (s: String)
    ensures
        s@ == (match value {
            Some(v) => v@,
            None => "<none>"@,
        }),
{
    match value {
        Some(v) => v,
        None => owned("<none>"),
    }
}

/// The file-drop demo's state.
pub struct FileDropDemo {
    pub status: String,
    pub hover_count: usize,
    pub dropped_paths: Vec<String>,
}

/// The most dropped paths the demo lists.
pub const DROPPED_PATHS_SHOWN: usize = 8;

impl FileDropDemo {
    /// Files are dragged over the drop zone.
    pub fn drag_moved(&mut self, path_count: usize)
        ensures
            final(self).hover_count == path_count,
            final(self).status@ == "Dragging "@ + spec_decimal(path_count as nat) + " file(s)..."@,
            final(self).dropped_paths == old(self).dropped_paths,
    {
        self.hover_count = path_count;
        let mut s = owned("Dragging ");
        push_decimal(&mut s, path_count as u128);
        append(&mut s, " file(s)...");
        self.status = s;
    }

    /// Files are dropped: the hover ends and the paths are kept.
    pub fn dropped(&mut self, paths: Vec<String>)
        ensures
            final(self).hover_count == 0,
            final(self).dropped_paths@ == paths@,
            final(self).status@ == "Dropped "@ + spec_decimal(paths@.len()) + " file(s)"@,
    {
        self.hover_count = 0;
        let n = paths.len();
        self.dropped_paths = paths;
        let mut s = owned("Dropped ");
        push_decimal(&mut s, n as u128);
        append(&mut s, " file(s)");
        self.status = s;
    }

    /// The drop zone is highlighted while files hover over it.
    pub fn highlighted(&self) -> (b: bool)
        ensures
            b == (self.hover_count > 0),
    {
        self.hover_count > 0
    }

    /// How many dropped paths are listed.
    pub fn shown_count(&self) -> (n: usize)
        ensures
            n == (if self.dropped_paths@.len() < DROPPED_PATHS_SHOWN {
                self.dropped_paths@.len()
            } else {
                DROPPED_PATHS_SHOWN as nat
            }),
    {
        if self.dropped_paths.len() < DROPPED_PATHS_SHOWN {
            self.dropped_paths.len()
        } else {
            DROPPED_PATHS_SHOWN
        }
    }
}

} // verus!
