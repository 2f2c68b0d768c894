//! The Android notification extension: an optional style, badge, image,
//! sound and alert-channel setting, composed under the count-then-write
//! protocol.

pub mod badge;
pub mod image;
pub mod notify_style;
pub mod sound;

pub use self::badge::Badge;
pub use self::image::Image;
pub use self::notify_style::{CustomStyle, NotifyStyle, StyleId};
pub use self::sound::{Sound, Warn};

use crate::json::{obj_bytes, ObjWriter};
use crate::push_notify::NotifySerialize;
use vstd::prelude::*;

verus! {

/// The Android-specific part of a push notification. Every setting is
/// optional; an absent setting contributes no fields to the emitted
/// document.
pub struct AndroidNotify {
    pub notify_style: Option<NotifyStyle>,
    pub badge: Option<Badge>,
    pub image: Option<Image>,
    pub sound: Option<Sound>,
    pub warn: Option<Warn>,
}

impl Default for AndroidNotify {
    /// An Android extension with nothing to say: zero fields.
    fn default() -> (r: Self)
        ensures
            r.notify_style is None,
            r.badge is None,
            r.image is None,
            r.sound is None,
            r.warn is None,
            r.spec_fields() == Seq::<(Seq<char>, Seq<u8>)>::empty(),
    {
        let r = AndroidNotify {
            notify_style: None,
            badge: None,
            image: None,
            sound: None,
            warn: None,
        };
        proof {
            assert(r.spec_fields() =~= Seq::<(Seq<char>, Seq<u8>)>::empty());
        }
        r
    }
}

impl AndroidNotify {
    /// Sets the presentation style.
    pub fn set_notify_style(&mut self, style: NotifyStyle)
        ensures
            *final(self) == (AndroidNotify { notify_style: Some(style), ..*old(self) }),
    {
        self.notify_style = Some(style);
    }

    /// Sets the launcher badge behaviour.
    pub fn set_badge(&mut self, badge: Badge)
        ensures
            *final(self) == (AndroidNotify { badge: Some(badge), ..*old(self) }),
    {
        self.badge = Some(badge);
    }

    /// Sets the attached image.
    pub fn set_image(&mut self, image: Image)
        ensures
            *final(self) == (AndroidNotify { image: Some(image), ..*old(self) }),
    {
        self.image = Some(image);
    }

    /// Sets the notification sound.
    pub fn set_sound(&mut self, sound: Sound)
        ensures
            *final(self) == (AndroidNotify { sound: Some(sound), ..*old(self) }),
    {
        self.sound = Some(sound);
    }

    /// Sets the alert channels.
    pub fn set_warn(&mut self, warn: Warn)
        ensures
            *final(self) == (AndroidNotify { warn: Some(warn), ..*old(self) }),
    {
        self.warn = Some(warn);
    }

    /// Whether this extension contributes any fields at all.
    pub fn need_serialize(&self) -> (r: bool)
        ensures
            r == (self.spec_fields().len() > 0),
    {
        self.notify_style.is_some() || self.badge.is_some() || self.image.is_some()
            || self.sound.is_some() || self.warn.is_some()
    }

    /// Renders this extension as one JSON object whose declared field count
    /// is exactly the number of fields written.
    pub fn to_bytes(&self) -> (r: Vec<u8>)
        ensures
            r@ == obj_bytes(self.spec_fields()),
    {
        let n = self.serialize_field();
        let mut w = ObjWriter::open(n);
        self.serialize(&mut w);
        w.close()
    }
}

impl NotifySerialize for AndroidNotify {
    /// Fields in the fixed emission order: style, badge, image, sound, warn.
    open spec fn spec_fields(&self) -> Seq<(Seq<char>, Seq<u8>)> {
        self.notify_style.spec_fields() + self.badge.spec_fields() + self.image.spec_fields()
            + self.sound.spec_fields() + self.warn.spec_fields()
    }

    fn serialize_field(&self) -> (n: usize) {
        proof {
            assert(self.notify_style.spec_fields().len() <= 2);
            assert(self.badge.spec_fields().len() <= 2);
            assert(self.image.spec_fields().len() <= 1);
            assert(self.sound.spec_fields().len() <= 1);
            assert(self.warn.spec_fields().len() <= 1);
        }
        let n = self.notify_style.serialize_field() + self.badge.serialize_field()
            + self.image.serialize_field() + self.sound.serialize_field()
            + self.warn.serialize_field();
        n
    }

    fn serialize(&self, w: &mut ObjWriter) {
        self.notify_style.serialize(w);
        self.badge.serialize(w);
        self.image.serialize(w);
        self.sound.serialize(w);
        self.warn.serialize(w);
        proof {
            assert(w.fields() =~= old(w).fields() + self.spec_fields());
        }
    }
}

} // verus!
