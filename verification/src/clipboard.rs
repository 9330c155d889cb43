//! What the iOS platform reads from and writes to the general pasteboard.
use vstd::prelude::*;

verus! {

/// The pasteboard type under which clipboard metadata is kept, as UTF-8.
pub const CLIPBOARD_METADATA_TYPE: &'static str = "dev.gpui.clipboard-metadata";

/// What a read of the pasteboard yields.
#[derive(Clone, Debug, PartialEq, Eq)]
pub enum PasteboardContent {
    Text { text: String, metadata: Option<String> },
    Image { png: Vec<u8> },
}

/// The general pasteboard as plain values: its string, the metadata stored
/// under the metadata type, and its image as PNG data.
pub struct PasteboardModel {
    pub string: Option<Seq<char>>,
    pub metadata: Option<Seq<char>>,
    pub image: Option<Seq<u8>>,
}

/// A clipboard item as plain values.
pub enum ClipboardItemModel {
    Text { text: Seq<char>, metadata: Option<Seq<char>> },
    Image { png: Seq<u8> },
}

/// What reading the pasteboard yields: its string with the stored metadata,
/// else its image when the PNG data is not empty, else nothing.
pub open spec fn spec_pasteboard_read(pb: PasteboardModel) -> Option<ClipboardItemModel> {
    match pb.string {
        Some(t) => Some(ClipboardItemModel::Text { text: t, metadata: pb.metadata }),
        None => match pb.image {
            Some(p) => if p.len() > 0 {
                Some(ClipboardItemModel::Image { png: p })
            } else {
                None
            },
            None => None,
        },
    }
}

pub open spec fn opt_string_view(s: Option<String>) -> Option<Seq<char>> {
    match s {
        Some(t) => Some(t@),
        None => None,
    }
}

pub open spec fn opt_bytes_view(b: Option<Vec<u8>>) -> Option<Seq<u8>> {
    match b {
        Some(v) => Some(v@),
        None => None,
    }
}

/// The plain-value form of a read result.
pub open spec fn content_model(c: Option<PasteboardContent>) -> Option<ClipboardItemModel> {
    match c {
        Some(PasteboardContent::Text { text, metadata }) => Some(
            ClipboardItemModel::Text { text: text@, metadata: opt_string_view(metadata) },
        ),
        Some(PasteboardContent::Image { png }) => Some(ClipboardItemModel::Image { png: png@ }),
        None => None,
    }
}

/// The item read from the pasteboard. Text wins: a string, with the metadata
/// stored beside it when there is any. Without a string, an image whose PNG
/// data is not empty. Otherwise nothing.
pub fn pasteboard_read(text: Option<String>, metadata: Option<String>, png: Option<Vec<u8>>) -> (r: Option<PasteboardContent>)
    ensures
        text is Some ==> r == Some(PasteboardContent::Text { text: text->0, metadata }),
        text is None && png is Some && png->0@.len() > 0 ==> r == Some(PasteboardContent::Image { png: png->0 }),
        text is None && (png is None || png->0@.len() == 0) ==> r is None,
        content_model(r) == spec_pasteboard_read(
            PasteboardModel {
                string: opt_string_view(text),
                metadata: opt_string_view(metadata),
                image: opt_bytes_view(png),
            },
        ),
{
    match text {
        Some(t) => Some(PasteboardContent::Text { text: t, metadata }),
        None => match png {
            Some(bytes) => if bytes.len() > 0 {
                Some(PasteboardContent::Image { png: bytes })
            } else {
                None
            },
            None => None,
        },
    }
}

/// One change made to the pasteboard when writing an item.
#[derive(Clone, Copy, Debug, PartialEq, Eq, Structural)]
pub enum PasteboardWriteStep {
    SetImage,
    SetString,
    SetMetadata,
}

/// The changes made when writing an item: an item that is a single image
/// sets the image, when UIKit could decode it; otherwise the item's text is
/// set, followed by its metadata when it has some. An item with neither
/// changes nothing.
pub open spec fn spec_write_steps(image_decoded: bool, has_text: bool, has_metadata: bool) -> Seq<PasteboardWriteStep> {
    if image_decoded {
        seq![PasteboardWriteStep::SetImage]
    } else if has_text && has_metadata {
        seq![PasteboardWriteStep::SetString, PasteboardWriteStep::SetMetadata]
    } else if has_text {
        seq![PasteboardWriteStep::SetString]
    } else {
        seq![]
    }
}

pub fn pasteboard_write_steps(image_decoded: bool, has_text: bool, has_metadata: bool) -> (steps: Vec<PasteboardWriteStep>)
    ensures
        steps@ == spec_write_steps(image_decoded, has_text, has_metadata),
        image_decoded ==> steps@ == seq![PasteboardWriteStep::SetImage],
        !image_decoded && has_text && has_metadata ==> steps@ == seq![PasteboardWriteStep::SetString, PasteboardWriteStep::SetMetadata],
        !image_decoded && has_text && !has_metadata ==> steps@ == seq![PasteboardWriteStep::SetString],
        !image_decoded && !has_text ==> steps@.len() == 0,
{
    let mut steps: Vec<PasteboardWriteStep> = Vec::new();
    if image_decoded {
        steps.push(PasteboardWriteStep::SetImage);
    } else if has_text {
        steps.push(PasteboardWriteStep::SetString);
        if has_metadata {
            steps.push(PasteboardWriteStep::SetMetadata);
        }
    }
    steps
}

/// The pasteboard after one write step for `item`: setting the image or
/// the string replaces the pasteboard's contents; setting the metadata
/// stores the item's metadata beside the string.
pub open spec fn spec_apply_step(pb: PasteboardModel, step: PasteboardWriteStep, item: ClipboardItemModel) -> PasteboardModel {
    match (step, item) {
        (PasteboardWriteStep::SetImage, ClipboardItemModel::Image { png }) => PasteboardModel {
            string: None,
            metadata: None,
            image: Some(png),
        },
        (PasteboardWriteStep::SetString, ClipboardItemModel::Text { text, .. }) => PasteboardModel {
            string: Some(text),
            metadata: None,
            image: None,
        },
        (PasteboardWriteStep::SetMetadata, ClipboardItemModel::Text { metadata, .. }) => PasteboardModel {
            metadata,
            ..pb
        },
        _ => pb,
    }
}

/// The pasteboard after the write steps, in order.
pub open spec fn spec_apply_steps(pb: PasteboardModel, steps: Seq<PasteboardWriteStep>, item: ClipboardItemModel) -> PasteboardModel
    decreases steps.len(),
{
    if steps.len() == 0 {
        pb
    } else {
        spec_apply_steps(spec_apply_step(pb, steps[0], item), steps.drop_first(), item)
    }
}

/// Text written to the pasteboard reads back as written, with its metadata
/// when it had some, whatever the pasteboard held before (an image
/// included): text takes precedence over images.
pub proof fn lemma_text_write_then_read(pb: PasteboardModel, text: Seq<char>, metadata: Option<Seq<char>>)
    ensures
        ({
            let item = ClipboardItemModel::Text { text, metadata };
            let steps = spec_write_steps(false, true, metadata is Some);
            spec_pasteboard_read(spec_apply_steps(pb, steps, item)) == Some(item)
        }),
{
    let item = ClipboardItemModel::Text { text, metadata };
    let steps = spec_write_steps(false, true, metadata is Some);
    let after_string = spec_apply_step(pb, PasteboardWriteStep::SetString, item);
    if metadata is Some {
        assert(steps.drop_first() =~= seq![PasteboardWriteStep::SetMetadata]);
        assert(steps.drop_first().drop_first() =~= Seq::<PasteboardWriteStep>::empty());
        assert(spec_apply_steps(pb, steps, item) == spec_apply_steps(after_string, steps.drop_first(), item));
        let after_meta = spec_apply_step(after_string, PasteboardWriteStep::SetMetadata, item);
        assert(spec_apply_steps(after_string, steps.drop_first(), item) == spec_apply_steps(after_meta, steps.drop_first().drop_first(), item));
    } else {
        assert(steps.drop_first() =~= Seq::<PasteboardWriteStep>::empty());
        assert(spec_apply_steps(pb, steps, item) == spec_apply_steps(after_string, steps.drop_first(), item));
    }
}

/// A pasteboard holding a string reads as that string, whatever image it
/// also holds.
pub proof fn lemma_text_precedes_image(pb: PasteboardModel)
    requires
        pb.string is Some,
    ensures
        spec_pasteboard_read(pb) == Some(
            ClipboardItemModel::Text { text: pb.string->0, metadata: pb.metadata },
        ),
{
}

} // verus!
