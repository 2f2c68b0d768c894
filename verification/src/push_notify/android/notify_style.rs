//! Android notification styles: long text, big picture, banner lines, or a
//! fully custom style block.

use crate::json::{dec_bytes, jstr_bytes, obj_bytes, str_arr_bytes, ObjWriter};
use crate::push_notify::NotifySerialize;
use vstd::prelude::*;

verus! {

/// The identifier of a predefined custom-style layout.
#[derive(Clone, Copy, PartialEq, Eq, Structural, Debug)]
pub enum StyleId {
    One,
    Two,
    Three,
}

impl StyleId {
    /// The numeric code the gateway expects for this layout.
    pub open spec fn spec_code(&self) -> u64 {
        match self {
            StyleId::One => 1,
            StyleId::Two => 2,
            StyleId::Three => 3,
        }
    }

    /// Returns the numeric code the gateway expects for this layout.
    pub fn code(&self) -> (c: u64)
        ensures
            c == self.spec_code(),
    {
        match self {
            StyleId::One => 1,
            StyleId::Two => 2,
            StyleId::Three => 3,
        }
    }
}

/// A custom style block: a layout id plus optional button and background
/// settings, emitted as a nested object under the same count-then-write
/// protocol.
pub struct CustomStyle {
    pub style: StyleId,
    pub button_copy: Option<String>,
    pub background_url: Option<String>,
    pub button_jump_url: Option<String>,
}

impl CustomStyle {
    /// A custom style with the given layout and no optional settings.
    pub fn new(style: StyleId) -> (r: Self)
        ensures
            r.style == style,
            r.button_copy is None,
            r.background_url is None,
            r.button_jump_url is None,
    {
        CustomStyle { style, button_copy: None, background_url: None, button_jump_url: None }
    }

    /// Sets the caption of the notification's action button.
    pub fn set_button_copy(&mut self, copy: String)
        ensures
            final(self).button_copy == Some(copy),
            final(self).style == old(self).style,
            final(self).background_url == old(self).background_url,
            final(self).button_jump_url == old(self).button_jump_url,
    {
        self.button_copy = Some(copy);
    }

    /// Sets the background image of the notification.
    pub fn set_background_url(&mut self, url: String)
        ensures
            final(self).background_url == Some(url),
            final(self).style == old(self).style,
            final(self).button_copy == old(self).button_copy,
            final(self).button_jump_url == old(self).button_jump_url,
    {
        self.background_url = Some(url);
    }

    /// Sets where the action button navigates.
    pub fn set_button_jump_url(&mut self, url: String)
        ensures
            final(self).button_jump_url == Some(url),
            final(self).style == old(self).style,
            final(self).button_copy == old(self).button_copy,
            final(self).background_url == old(self).background_url,
    {
        self.button_jump_url = Some(url);
    }

    /// Renders this block as one JSON object.
    pub fn to_bytes(&self) -> (r: Vec<u8>)
        ensures
            r@ == obj_bytes(self.spec_fields()),
    {
        let n = self.serialize_field();
        let mut w = ObjWriter::open(n);
        self.serialize(&mut w);
        w.close()
    }
}

impl NotifySerialize for CustomStyle {
    open spec fn spec_fields(&self) -> Seq<(Seq<char>, Seq<u8>)> {
        seq![("style"@, dec_bytes(self.style.spec_code() as nat))] + (match self.button_copy {
            Some(s) => seq![("buttonCopy"@, jstr_bytes(s@))],
            None => Seq::empty(),
        }) + (match self.background_url {
            Some(s) => seq![("backgroundUrl"@, jstr_bytes(s@))],
            None => Seq::empty(),
        }) + (match self.button_jump_url {
            Some(s) => seq![("buttonJumpUrl"@, jstr_bytes(s@))],
            None => Seq::empty(),
        })
    }

    fn serialize_field(&self) -> (n: usize) {
        let mut n: usize = 1;
        if self.button_copy.is_some() {
            n = n + 1;
        }
        if self.background_url.is_some() {
            n = n + 1;
        }
        if self.button_jump_url.is_some() {
            n = n + 1;
        }
        n
    }

    fn serialize(&self, w: &mut ObjWriter) {
        w.field_u64("style", self.style.code());
        if let Some(copy) = &self.button_copy {
            w.field_str("buttonCopy", copy.as_str());
        }
        if let Some(url) = &self.background_url {
            w.field_str("backgroundUrl", url.as_str());
        }
        if let Some(url) = &self.button_jump_url {
            w.field_str("buttonJumpUrl", url.as_str());
        }
        proof {
            assert(w.fields() =~= old(w).fields() + self.spec_fields());
        }
    }
}

/// How the notification body is presented on Android.
pub enum NotifyStyle {
    /// Multi-line long text replacing the plain content.
    LongContent(String),
    /// One big picture kept beside the content.
    BigVision(String),
    /// Several independent banner lines hiding the plain content.
    Banner(Vec<String>),
    /// A fully custom style block.
    Custom(CustomStyle),
}

impl NotifyStyle {
    /// A long-text style with the given text.
    pub fn new_long_content(content: String) -> (r: Self)
        ensures
            r == NotifyStyle::LongContent(content),
    {
        NotifyStyle::LongContent(content)
    }

    /// A big-picture style with the given image address.
    pub fn new_big_vision(url: String) -> (r: Self)
        ensures
            r == NotifyStyle::BigVision(url),
    {
        NotifyStyle::BigVision(url)
    }

    /// A banner style with the given lines.
    pub fn new_banner(lines: Vec<String>) -> (r: Self)
        ensures
            r == NotifyStyle::Banner(lines),
    {
        NotifyStyle::Banner(lines)
    }

    /// A custom style with the given block.
    pub fn new_custom(style: CustomStyle) -> (r: Self)
        ensures
            r == NotifyStyle::Custom(style),
    {
        NotifyStyle::Custom(style)
    }
}

impl NotifySerialize for NotifyStyle {
    open spec fn spec_fields(&self) -> Seq<(Seq<char>, Seq<u8>)> {
        match self {
            NotifyStyle::LongContent(s) => seq![
                ("style"@, dec_bytes(1)),
                ("content"@, jstr_bytes(s@)),
            ],
            NotifyStyle::BigVision(url) => seq![
                ("style"@, dec_bytes(2)),
                ("image"@, jstr_bytes(url@)),
            ],
            NotifyStyle::Banner(lines) => seq![
                ("style"@, dec_bytes(3)),
                ("content"@, str_arr_bytes(lines.deep_view())),
            ],
            NotifyStyle::Custom(style) => seq![
                ("style"@, dec_bytes(4)),
                ("customStyle"@, obj_bytes(style.spec_fields())),
            ],
        }
    }

    fn serialize_field(&self) -> (n: usize) {
        2
    }

    fn serialize(&self, w: &mut ObjWriter) {
        match self {
            NotifyStyle::LongContent(s) => {
                w.field_u64("style", 1);
                w.field_str("content", s.as_str());
            },
            NotifyStyle::BigVision(url) => {
                w.field_u64("style", 2);
                w.field_str("image", url.as_str());
            },
            NotifyStyle::Banner(lines) => {
                w.field_u64("style", 3);
                w.field_str_array("content", lines);
            },
            NotifyStyle::Custom(style) => {
                w.field_u64("style", 4);
                let rendered = style.to_bytes();
                w.field_raw("customStyle", &rendered);
            },
        }
        proof {
            assert(w.fields() =~= old(w).fields() + self.spec_fields());
        }
    }
}

} // verus!
