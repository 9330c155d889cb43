//! UITextInput position and range arithmetic.
//!
//! UIKit talks to the text system in UTF-16 code-unit indices wrapped in
//! `UITextPosition` / `UITextRange` objects. Everything those objects carry
//! is an index, so the arithmetic lives here on plain `usize` values; a
//! `None` stands for a nil position or range object.
use vstd::prelude::*;
use std::ops::Range;

verus! {

/// Foundation's `NSRange`: a location and a length. A location of
/// `usize::MAX` (`NSNotFound`) marks "no range".
#[derive(Clone, Copy, Debug)]
pub struct NSRange {
    pub location: usize,
    pub length: usize,
}

/// The `Range` that a valid `NSRange` denotes, `None` for `NSNotFound`.
pub open spec fn spec_ns_range_to_range(r: NSRange) -> Option<Range<usize>> {
    if r.location != usize::MAX {
        Some(Range { start: r.location, end: (r.location + r.length) as usize })
    } else {
        None
    }
}

/// The `NSRange` covering `range`.
pub open spec fn spec_ns_range_from(range: Range<usize>) -> NSRange {
    NSRange { location: range.start, length: (range.end - range.start) as usize }
}

impl NSRange {
    /// A range is valid unless its location is `NSNotFound`.
    pub fn is_valid(&self) -> (b: bool)
        ensures
            b == (self.location != usize::MAX),
    {
        self.location != usize::MAX
    }

    /// The half-open index range this `NSRange` covers, if it is valid.
    pub fn to_range(self) -> (r: Option<Range<usize>>)
        requires
            self.location != usize::MAX ==> self.location + self.length <= usize::MAX,
        ensures
            r == spec_ns_range_to_range(self),
    {
        if self.is_valid() {
            Some(Range { start: self.location, end: self.location + self.length })
        } else {
            None
        }
    }

    /// The `NSRange` starting at `range.start` and spanning its length.
    pub fn from(range: Range<usize>) -> (r: NSRange)
        requires
            range.start <= range.end,
        ensures
            r == spec_ns_range_from(range),
    {
        NSRange { location: range.start, length: range.end - range.start }
    }
}

/// Converting a range to an `NSRange` and back gives the range again,
/// for every range that does not start at `NSNotFound`.
pub proof fn lemma_ns_range_round_trip(range: Range<usize>)
    requires
        range.start <= range.end,
        range.start != usize::MAX,
    ensures
        spec_ns_range_to_range(spec_ns_range_from(range)) == Some(range),
{
}

/// The UTF-16 index a text position object stores; a nil position reads as 0.
pub fn text_position_index(position: Option<usize>) -> (index: usize)
    ensures
        index == match position {
            Some(i) => i,
            None => 0,
        },
{
    match position {
        Some(i) => i,
        None => 0,
    }
}

/// A text range is empty when its start and end coincide.
pub fn text_range_is_empty(range: &Range<usize>) -> (b: bool)
    ensures
        b == (range.start == range.end),
{
    range.start == range.end
}

/// The range between two positions; `None` when either position is nil.
pub fn text_range_from_positions(from: Option<usize>, to: Option<usize>) -> (r: Option<
    Range<usize>,
>)
    ensures
        r == match (from, to) {
            (Some(a), Some(b)) => Some(Range { start: a, end: b }),
            _ => None,
        },
{
    match (from, to) {
        (Some(a), Some(b)) => Some(Range { start: a, end: b }),
        _ => None,
    }
}

/// The position `offset` code units away from `index` when it stays within
/// `0..=document_length`.
pub open spec fn spec_offset_position(index: int, offset: int, document_length: int) -> Option<
    usize,
> {
    let n = index + offset;
    if n < 0 || n > document_length {
        None
    } else {
        Some(n as usize)
    }
}

/// `positionFromPosition:offset:` — moves a position by `offset` code units,
/// the position's index read as an `isize`. Returns `None` (a nil position)
/// for a nil input or when the new index falls before the start or after
/// the end of the document.
pub fn position_from_position_offset(
    position: Option<usize>,
    offset: isize,
    document_length: usize,
) -> (r: Option<usize>)
    requires
        position matches Some(i) ==> isize::MIN <= (i as isize) + offset <= isize::MAX,
    ensures
        r == match position {
            Some(i) => spec_offset_position(i as isize as int, offset as int, document_length as int),
            None => None,
        },
{
    match position {
        None => None,
        Some(index) => {
            let new_index = index as isize + offset;
            if new_index < 0 {
                return None;
            }
            let new_index = new_index as usize;
            if new_index > document_length {
                return None;
            }
            Some(new_index)
        },
    }
}

/// `UITextLayoutDirection` values: right and down move forward, left and up
/// move backward; anything else is treated as forward.
pub open spec fn spec_direction_offset(direction: isize, offset: isize) -> int {
    if direction == 2 || direction == 3 {
        -offset
    } else {
        offset as int
    }
}

/// The signed offset a move of `offset` in `direction` amounts to.
pub fn direction_offset(direction: isize, offset: isize) -> (r: isize)
    requires
        direction == 2 || direction == 3 ==> offset != isize::MIN,
    ensures
        r == spec_direction_offset(direction, offset),
{
    match direction {
        1 | 4 => offset,
        2 | 3 => -offset,
        _ => offset,
    }
}

/// `positionFromPosition:inDirection:offset:` — the offset move, with the
/// offset's sign chosen by the layout direction.
pub fn position_from_position_direction(
    position: Option<usize>,
    direction: isize,
    offset: isize,
    document_length: usize,
) -> (r: Option<usize>)
    requires
        direction == 2 || direction == 3 ==> offset != isize::MIN,
        position matches Some(i) ==> isize::MIN <= (i as isize) + spec_direction_offset(
            direction,
            offset,
        ) <= isize::MAX,
    ensures
        r == match position {
            Some(i) => spec_offset_position(
                i as isize as int,
                spec_direction_offset(direction, offset),
                document_length as int,
            ),
            None => None,
        },
{
    let effective = direction_offset(direction, offset);
    position_from_position_offset(position, effective, document_length)
}

/// `comparePosition:toPosition:` as an `NSComparisonResult`:
/// -1 ascending, 0 same, 1 descending.
pub open spec fn spec_compare_positions(a: usize, b: usize) -> int {
    if a < b {
        -1
    } else if a == b {
        0
    } else {
        1
    }
}

pub fn compare_positions(a: usize, b: usize) -> (r: isize)
    ensures
        r == spec_compare_positions(a, b),
{
    if a < b {
        -1
    } else if a == b {
        0
    } else {
        1
    }
}

/// `offsetFromPosition:toPosition:` — the signed distance from `from` to
/// `to`, both read as `isize`.
pub fn offset_from_position(from: usize, to: usize) -> (r: isize)
    requires
        isize::MIN <= (to as isize) - (from as isize) <= isize::MAX,
    ensures
        r == (to as isize) - (from as isize),
{
    to as isize - from as isize
}

/// Moving a position by an offset that keeps it inside the document and
/// measuring the distance back gives that offset again, whatever the
/// position's index.
pub proof fn lemma_offset_round_trip(index: usize, offset: isize, document_length: usize)
    requires
        isize::MIN <= (index as isize) + offset <= isize::MAX,
        spec_offset_position(index as isize as int, offset as int, document_length as int) is Some,
    ensures
        ({
            let moved = spec_offset_position(
                index as isize as int,
                offset as int,
                document_length as int,
            )->0;
            &&& moved <= document_length
            &&& (moved as isize) - (index as isize) == offset
        }),
{
}

/// The distance from `a` to `b` is minus the distance from `b` to `a`.
pub proof fn lemma_offset_antisymmetric(a: usize, b: usize)
    ensures
        (b as isize) - (a as isize) == -((a as isize) - (b as isize)),
{
}

/// Comparing two positions gives the opposite sign of the distance between
/// them, and swapping the positions flips the comparison.
pub proof fn lemma_compare_matches_offset(a: usize, b: usize)
    requires
        a <= isize::MAX,
        b <= isize::MAX,
    ensures
        spec_compare_positions(a, b) == -spec_compare_positions(b, a),
        (spec_compare_positions(a, b) == -1) <==> (b as isize) - (a as isize) > 0,
        (spec_compare_positions(a, b) == 0) <==> (b as isize) - (a as isize) == 0,
        (spec_compare_positions(a, b) == 1) <==> (b as isize) - (a as isize) < 0,
{
}

/// `positionWithinRange:farthestInDirection:` — the range's end for right
/// and down (and unknown directions), its start for left and up.
pub fn position_within_range(range: Option<Range<usize>>, direction: isize) -> (r: Option<usize>)
    ensures
        r == match range {
            Some(rg) => Some(if direction == 2 || direction == 3 { rg.start } else { rg.end }),
            None => None,
        },
{
    match range {
        None => None,
        Some(rg) => Some(
            match direction {
                1 | 4 => rg.end,
                2 | 3 => rg.start,
                _ => rg.end,
            },
        ),
    }
}

/// `characterRangeByExtendingPosition:inDirection:` — the one-character
/// range after the position (clipped to the document end) for right, down
/// and unknown directions, or before it (clipped at 0) for left and up.
pub open spec fn spec_extend_position(index: usize, direction: isize, document_length: usize) -> Range<
    usize,
> {
    if direction == 2 || direction == 3 {
        Range { start: if index == 0 { 0 } else { (index - 1) as usize }, end: index }
    } else {
        Range {
            start: index,
            end: if index + 1 <= document_length { (index + 1) as usize } else { document_length },
        }
    }
}

pub fn character_range_by_extending(
    position: Option<usize>,
    direction: isize,
    document_length: usize,
) -> (r: Option<Range<usize>>)
    requires
        position matches Some(i) ==> i < usize::MAX,
    ensures
        r == match position {
            Some(i) => Some(spec_extend_position(i, direction, document_length)),
            None => None,
        },
{
    match position {
        None => None,
        Some(index) => {
            let forward_end = if index + 1 <= document_length {
                index + 1
            } else {
                document_length
            };
            let backward_start = if index == 0 {
                0
            } else {
                index - 1
            };
            Some(
                match direction {
                    1 | 4 => Range { start: index, end: forward_end },
                    2 | 3 => Range { start: backward_start, end: index },
                    _ => Range { start: index, end: forward_end },
                },
            )
        },
    }
}

/// `closestPositionToPoint:` and `closestPositionToPoint:withinRange:`.
/// `hit` is the character index the input handler reports for the point.
/// Without a range the hit is used as is (0 when there is none); with a
/// range it is clamped into the range, which falls back to the range's
/// start when there is no hit.
pub open spec fn spec_closest_position(hit: Option<usize>, range: Option<Range<usize>>) -> usize {
    match range {
        None => match hit {
            Some(i) => i,
            None => 0,
        },
        Some(rg) => match hit {
            Some(i) => if i < rg.start {
                rg.start
            } else if i > rg.end {
                rg.end
            } else {
                i
            },
            None => rg.start,
        },
    }
}

pub fn closest_position(hit: Option<usize>, range: Option<Range<usize>>) -> (r: usize)
    requires
        range matches Some(rg) ==> (hit is Some ==> rg.start <= rg.end),
    ensures
        r == spec_closest_position(hit, range),
{
    match range {
        None => match hit {
            Some(i) => i,
            None => 0,
        },
        Some(rg) => match hit {
            Some(i) => {
                if i < rg.start {
                    rg.start
                } else if i > rg.end {
                    rg.end
                } else {
                    i
                }
            },
            None => rg.start,
        },
    }
}

/// A position clamped into a non-empty range lies inside it.
pub proof fn lemma_closest_position_in_range(hit: Option<usize>, rg: Range<usize>)
    requires
        rg.start <= rg.end,
    ensures
        rg.start <= spec_closest_position(hit, Some(rg)) <= rg.end,
{
}

/// `characterRangeAtPoint:` — the single character at the hit index, or
/// nil when the point hits no character.
pub fn character_range_at_point(hit: Option<usize>) -> (r: Option<Range<usize>>)
    requires
        hit matches Some(i) ==> i < usize::MAX,
    ensures
        r == match hit {
            Some(i) => Some(Range { start: i, end: (i + 1) as usize }),
            None => None,
        },
{
    match hit {
        Some(i) => Some(Range { start: i, end: i + 1 }),
        None => None,
    }
}

/// The document length in UTF-16 units: the end of the range the input
/// handler clamped a document-wide query to; 0 when the handler gives no
/// text (and, on the caller's side, when there is no input handler).
pub fn document_length_from(adjusted_range: Option<Range<usize>>) -> (len: usize)
    ensures
        len == match adjusted_range {
            Some(r) => r.end,
            None => 0,
        },
{
    match adjusted_range {
        Some(r) => r.end,
        None => 0,
    }
}

/// What `setMarkedText:selectedRange:` does to the composition.
#[derive(Debug)]
pub enum MarkedTextAction {
    /// Empty marked text ends the composition.
    Unmark,
    /// Replace the current marked text (or selection) with `text` and mark
    /// it, selecting `selected` inside it.
    ReplaceAndMark { text: String, selected: Option<Range<usize>> },
}

pub fn marked_text_action(text: String, selected_range: NSRange) -> (a: MarkedTextAction)
    requires
        selected_range.location != usize::MAX ==> selected_range.location + selected_range.length
            <= usize::MAX,
    ensures
        text@.len() == 0 ==> a is Unmark,
        text@.len() != 0 ==> (a matches MarkedTextAction::ReplaceAndMark { text: t, selected } && t@
            == text@ && selected == spec_ns_range_to_range(selected_range)),
{
    let selected = selected_range.to_range();
    if text.as_str().is_empty() {
        MarkedTextAction::Unmark
    } else {
        MarkedTextAction::ReplaceAndMark { text, selected }
    }
}

/// `setSelectedTextRange:` places a collapsed cursor at the range's start.
pub fn selection_cursor(range: &Range<usize>) -> (r: Range<usize>)
    ensures
        r.start == range.start,
        r.end == range.start,
{
    Range { start: range.start, end: range.start }
}

/// Extending a position by one character: for left and up (directions 2
/// and 3) the range ends at the position and starts one character before
/// it, or at it at the document start; for right, down and any other
/// direction it starts at the position and ends one character after it, or
/// at it at the document end. The range never holds more than one
/// character and always has the position at one of its ends.
pub proof fn lemma_extend_one_character(index: usize, direction: isize, document_length: usize)
    requires
        index < usize::MAX,
        index <= document_length,
    ensures
        ({
            let r = spec_extend_position(index, direction, document_length);
            &&& r.start <= r.end
            &&& r.end - r.start <= 1
            &&& (direction == 2 || direction == 3) ==> (r.end == index && (index > 0 ==> r.start
                + 1 == index) && (index == 0 ==> r.start == 0))
            &&& !(direction == 2 || direction == 3) ==> (r.start == index && (index
                < document_length ==> r.end == index + 1) && (index == document_length ==> r.end
                == index))
        }),
{
}

/// Directional moves: left and up (2 and 3) move backward by the offset,
/// right and down (1 and 4) and unknown directions move forward; the
/// farthest position of a range is its start for left and up and its end
/// otherwise.
pub proof fn lemma_direction_moves(index: usize, direction: isize, offset: isize, document_length: usize)
    requires
        direction == 2 || direction == 3 ==> offset != isize::MIN,
    ensures
        (direction == 2 || direction == 3) ==> spec_offset_position(
            index as isize as int,
            spec_direction_offset(direction, offset),
            document_length as int,
        ) == spec_offset_position(index as isize as int, -offset, document_length as int),
        !(direction == 2 || direction == 3) ==> spec_offset_position(
            index as isize as int,
            spec_direction_offset(direction, offset),
            document_length as int,
        ) == spec_offset_position(index as isize as int, offset as int, document_length as int),
{
}

} // verus!
