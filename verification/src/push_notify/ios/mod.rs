//! The iOS notification extension.
//!
//! A push entity describes its iOS settings through the [`IosNotify`] trait;
//! [`IosNotifyData`] gathers those settings into one value, whose emission
//! follows the count-then-write protocol exactly.

mod apn;
mod badge;
mod rich_text;

pub use self::apn::{sound_value_bytes, ApnPush, IosPushSound};
pub use self::badge::{IosBadge, IosBadgeType};
pub use self::rich_text::{IosRichText, IosRichTextType};

use crate::json::{dec_bytes, jstr_bytes, obj_bytes, sdec_bytes, ObjWriter};
use crate::push_notify::NotifySerialize;
use vstd::prelude::*;

verus! {

/// The iOS settings a push entity may supply, beyond the APN, badge and
/// rich-media parts.
pub trait IosNotify: IosRichText + ApnPush + IosBadge {
    /// The notification's subtitle, if any.
    fn subtitle(&self) -> Option<String> {
        None
    }

    /// Whether the push is delivered silently to the application.
    fn content_available(&self) -> Option<()> {
        None
    }
}

/// The gathered iOS settings of one push, ready for emission.
pub struct IosNotifyData {
    pub badge: Option<IosBadgeType>,
    pub category: Option<String>,
    pub sound: Option<IosPushSound>,
    pub subtitle: Option<String>,
    pub content_available: bool,
    pub rich_text: Option<IosRichTextType>,
}

impl Default for IosNotifyData {
    /// An iOS extension with nothing to say: zero fields.
    fn default() -> (r: Self)
        ensures
            r.badge is None,
            r.category is None,
            r.sound is None,
            r.subtitle is None,
            r.content_available == false,
            r.rich_text is None,
            r.spec_fields() == Seq::<(Seq<char>, Seq<u8>)>::empty(),
    {
        let r = IosNotifyData {
            badge: None,
            category: None,
            sound: None,
            subtitle: None,
            content_available: false,
            rich_text: None,
        };
        proof {
            assert(r.spec_fields() =~= Seq::<(Seq<char>, Seq<u8>)>::empty());
        }
        r
    }
}

impl IosNotifyData {
    /// Gathers the settings a push entity reports through [`IosNotify`].
    pub fn from_notify<N: IosNotify>(notify: &N) -> Self {
        IosNotifyData {
            badge: notify.get_badge(),
            category: notify.category(),
            sound: notify.sound(),
            subtitle: notify.subtitle(),
            content_available: notify.content_available().is_some(),
            rich_text: notify.rich_text(),
        }
    }

    /// The fields of the badge part: the value, then how to apply it.
    pub open spec fn badge_fields(&self) -> Seq<(Seq<char>, Seq<u8>)> {
        match self.badge {
            Some(IosBadgeType::Abs(n)) => seq![
                ("badge"@, dec_bytes(n as nat)),
                ("badgeType"@, dec_bytes(1)),
            ],
            Some(IosBadgeType::Adding(v)) => seq![
                ("badge"@, sdec_bytes(v as int)),
                ("badgeType"@, dec_bytes(2)),
            ],
            None => Seq::empty(),
        }
    }

    /// The fields of the rich-media part: the mutable-content mark, then the
    /// attachment kind and address when one is present.
    pub open spec fn rich_text_fields(&self) -> Seq<(Seq<char>, Seq<u8>)> {
        match self.rich_text {
            Some(IosRichTextType::NoAttachment) => seq![("mutableContent"@, dec_bytes(1))],
            Some(IosRichTextType::Picture(t)) => seq![
                ("mutableContent"@, dec_bytes(1)),
                ("attachmentType"@, dec_bytes(1)),
                ("attachment"@, jstr_bytes(t@)),
            ],
            Some(IosRichTextType::Video(t)) => seq![
                ("mutableContent"@, dec_bytes(1)),
                ("attachmentType"@, dec_bytes(2)),
                ("attachment"@, jstr_bytes(t@)),
            ],
            Some(IosRichTextType::Voice(t)) => seq![
                ("mutableContent"@, dec_bytes(1)),
                ("attachmentType"@, dec_bytes(3)),
                ("attachment"@, jstr_bytes(t@)),
            ],
            None => Seq::empty(),
        }
    }

    /// Reports how many fields this extension will write: its declared field
    /// count, always equal to the number of fields `serialize` emits.
    pub fn need_felid(&self) -> (n: usize)
        ensures
            n as nat == self.spec_fields().len(),
    {
        let mut n: usize = 0;
        if self.badge.is_some() {
            n = n + 2;
        }
        if self.category.is_some() {
            n = n + 1;
        }
        if self.sound.is_some() {
            n = n + 1;
        }
        if self.subtitle.is_some() {
            n = n + 1;
        }
        if self.content_available {
            n = n + 1;
        }
        match &self.rich_text {
            Some(IosRichTextType::NoAttachment) => {
                n = n + 1;
            },
            Some(_) => {
                n = n + 3;
            },
            None => {},
        }
        n
    }

    /// Whether this extension contributes any fields at all.
    pub fn need_serialize(&self) -> (r: bool)
        ensures
            r == (self.spec_fields().len() > 0),
    {
        self.need_felid() > 0
    }

    /// Renders this extension as one JSON object whose declared field count
    /// is exactly the number of fields written.
    pub fn to_bytes(&self) -> (r: Vec<u8>)
        ensures
            r@ == obj_bytes(self.spec_fields()),
    {
        let n = self.serialize_field();
        let mut w = ObjWriter::open(n);
        self.serialize(&mut w);
        w.close()
    }
}

impl IosNotifyData {
    /// The field of the interaction category, when present.
    pub open spec fn category_fields(&self) -> Seq<(Seq<char>, Seq<u8>)> {
        match self.category {
            Some(c) => seq![("category"@, jstr_bytes(c@))],
            None => Seq::empty(),
        }
    }

    /// The field of the sound setting, when present.
    pub open spec fn sound_fields(&self) -> Seq<(Seq<char>, Seq<u8>)> {
        match self.sound {
            Some(s) => seq![("sound"@, sound_value_bytes(s))],
            None => Seq::empty(),
        }
    }

    /// The field of the subtitle, when present.
    pub open spec fn subtitle_fields(&self) -> Seq<(Seq<char>, Seq<u8>)> {
        match self.subtitle {
            Some(s) => seq![("subtitle"@, jstr_bytes(s@))],
            None => Seq::empty(),
        }
    }

    /// The field of the silent-delivery mark, when present.
    pub open spec fn available_fields(&self) -> Seq<(Seq<char>, Seq<u8>)> {
        if self.content_available {
            seq![("contentAvailable"@, dec_bytes(1))]
        } else {
            Seq::empty()
        }
    }

    fn emit_badge(&self, w: &mut ObjWriter)
        requires
            old(w).wf(),
            old(w).spec_written() + self.badge_fields().len() <= old(w).spec_declared(),
        ensures
            final(w).wf(),
            final(w).fields() == old(w).fields() + self.badge_fields(),
            final(w).spec_declared() == old(w).spec_declared(),
    {
        match &self.badge {
            Some(IosBadgeType::Abs(n)) => {
                w.field_u64("badge", *n as u64);
                w.field_u64("badgeType", 1);
            },
            Some(IosBadgeType::Adding(v)) => {
                w.field_i64("badge", *v as i64);
                w.field_u64("badgeType", 2);
            },
            None => {},
        }
        proof {
            assert(w.fields() =~= old(w).fields() + self.badge_fields());
        }
    }

    fn emit_category(&self, w: &mut ObjWriter)
        requires
            old(w).wf(),
            old(w).spec_written() + self.category_fields().len() <= old(w).spec_declared(),
        ensures
            final(w).wf(),
            final(w).fields() == old(w).fields() + self.category_fields(),
            final(w).spec_declared() == old(w).spec_declared(),
    {
        if let Some(category) = &self.category {
            w.field_str("category", category.as_str());
        }
        proof {
            assert(w.fields() =~= old(w).fields() + self.category_fields());
        }
    }

    fn emit_sound(&self, w: &mut ObjWriter)
        requires
            old(w).wf(),
            old(w).spec_written() + self.sound_fields().len() <= old(w).spec_declared(),
        ensures
            final(w).wf(),
            final(w).fields() == old(w).fields() + self.sound_fields(),
            final(w).spec_declared() == old(w).spec_declared(),
    {
        match &self.sound {
            Some(IosPushSound::Default) => {
                w.field_str("sound", "default");
            },
            Some(IosPushSound::Silent) => {
                w.field_null("sound");
            },
            Some(IosPushSound::Custom(name)) => {
                w.field_str("sound", name.as_str());
            },
            None => {},
        }
        proof {
            assert(w.fields() =~= old(w).fields() + self.sound_fields());
        }
    }

    fn emit_subtitle(&self, w: &mut ObjWriter)
        requires
            old(w).wf(),
            old(w).spec_written() + self.subtitle_fields().len() <= old(w).spec_declared(),
        ensures
            final(w).wf(),
            final(w).fields() == old(w).fields() + self.subtitle_fields(),
            final(w).spec_declared() == old(w).spec_declared(),
    {
        if let Some(subtitle) = &self.subtitle {
            w.field_str("subtitle", subtitle.as_str());
        }
        proof {
            assert(w.fields() =~= old(w).fields() + self.subtitle_fields());
        }
    }

    fn emit_available(&self, w: &mut ObjWriter)
        requires
            old(w).wf(),
            old(w).spec_written() + self.available_fields().len() <= old(w).spec_declared(),
        ensures
            final(w).wf(),
            final(w).fields() == old(w).fields() + self.available_fields(),
            final(w).spec_declared() == old(w).spec_declared(),
    {
        if self.content_available {
            w.field_u64("contentAvailable", 1);
        }
        proof {
            assert(w.fields() =~= old(w).fields() + self.available_fields());
        }
    }

    fn emit_rich_text(&self, w: &mut ObjWriter)
        requires
            old(w).wf(),
            old(w).spec_written() + self.rich_text_fields().len() <= old(w).spec_declared(),
        ensures
            final(w).wf(),
            final(w).fields() == old(w).fields() + self.rich_text_fields(),
            final(w).spec_declared() == old(w).spec_declared(),
    {
        match &self.rich_text {
            Some(IosRichTextType::NoAttachment) => {
                w.field_u64("mutableContent", 1);
            },
            Some(IosRichTextType::Picture(t)) => {
                w.field_u64("mutableContent", 1);
                w.field_u64("attachmentType", 1);
                w.field_str("attachment", t.as_str());
            },
            Some(IosRichTextType::Video(t)) => {
                w.field_u64("mutableContent", 1);
                w.field_u64("attachmentType", 2);
                w.field_str("attachment", t.as_str());
            },
            Some(IosRichTextType::Voice(t)) => {
                w.field_u64("mutableContent", 1);
                w.field_u64("attachmentType", 3);
                w.field_str("attachment", t.as_str());
            },
            None => {},
        }
        proof {
            assert(w.fields() =~= old(w).fields() + self.rich_text_fields());
        }
    }
}

impl NotifySerialize for IosNotifyData {
    /// Fields in the fixed emission order: badge, category, sound, subtitle,
    /// the silent-delivery mark, then the rich-media part.
    open spec fn spec_fields(&self) -> Seq<(Seq<char>, Seq<u8>)> {
        self.badge_fields() + self.category_fields() + self.sound_fields()
            + self.subtitle_fields() + self.available_fields() + self.rich_text_fields()
    }

    fn serialize_field(&self) -> (n: usize) {
        self.need_felid()
    }

    fn serialize(&self, w: &mut ObjWriter) {
        self.emit_badge(w);
        self.emit_category(w);
        self.emit_sound(w);
        self.emit_subtitle(w);
        self.emit_available(w);
        self.emit_rich_text(w);
        proof {
            assert(w.fields() =~= old(w).fields() + self.spec_fields());
        }
    }
}

} // verus!
