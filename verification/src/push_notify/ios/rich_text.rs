//! iOS rich-media attachments.

use vstd::prelude::*;

verus! {

/// The rich-media attachment of an iOS notification. Any attachment marks
/// the content as mutable; the variants carry the attachment's address.
pub enum IosRichTextType {
    /// Mutable content without an attachment.
    NoAttachment,
    /// A picture attachment.
    Picture(String),
    /// A video attachment.
    Video(String),
    /// A voice attachment.
    Voice(String),
}

/// Rich-media settings a push entity may supply.
pub trait IosRichText {
    /// The rich-media attachment this push carries, if any.
    fn rich_text(&self) -> Option<IosRichTextType> {
        None
    }
}

} // verus!
