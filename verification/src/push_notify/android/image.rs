//! Android notification image settings.

use crate::json::jstr_bytes;
use crate::json::ObjWriter;
use crate::push_notify::NotifySerialize;
use vstd::prelude::*;

verus! {

/// The picture attached to the notification: either a small icon or a full
/// image, each given by its address.
pub enum Image {
    Icon(String),
    Picture(String),
}

impl Image {
    /// A small icon with the given address.
    pub fn new_icon(url: String) -> (r: Self)
        ensures
            r == Image::Icon(url),
    {
        Image::Icon(url)
    }

    /// A full image with the given address.
    pub fn new_image(url: String) -> (r: Self)
        ensures
            r == Image::Picture(url),
    {
        Image::Picture(url)
    }
}

impl NotifySerialize for Image {
    open spec fn spec_fields(&self) -> Seq<(Seq<char>, Seq<u8>)> {
        match self {
            Image::Icon(url) => seq![("icon"@, jstr_bytes(url@))],
            Image::Picture(url) => seq![("image"@, jstr_bytes(url@))],
        }
    }

    fn serialize_field(&self) -> (n: usize) {
        1
    }

    fn serialize(&self, w: &mut ObjWriter) {
        match self {
            Image::Icon(url) => {
                w.field_str("icon", url.as_str());
            },
            Image::Picture(url) => {
                w.field_str("image", url.as_str());
            },
        }
        proof {
            assert(w.fields() =~= old(w).fields() + self.spec_fields());
        }
    }
}

} // verus!
