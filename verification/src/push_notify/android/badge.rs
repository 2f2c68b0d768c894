//! Android launcher badge settings.

use crate::json::dec_bytes;
use crate::json::ObjWriter;
use crate::push_notify::NotifySerialize;
use vstd::prelude::*;

verus! {

/// How the launcher badge changes when the notification arrives.
#[derive(Clone, Copy, PartialEq, Eq, Structural, Debug)]
pub enum Badge {
    /// The badge is set to the given absolute value.
    Abs(u32),
    /// The badge is increased by the given amount.
    Add(u32),
}

impl Badge {
    /// A badge set to an absolute value.
    pub fn new_abs(value: u32) -> (r: Self)
        ensures
            r == Badge::Abs(value),
    {
        Badge::Abs(value)
    }

    /// A badge increased by the given amount.
    pub fn new_add(value: u32) -> (r: Self)
        ensures
            r == Badge::Add(value),
    {
        Badge::Add(value)
    }
}

impl NotifySerialize for Badge {
    open spec fn spec_fields(&self) -> Seq<(Seq<char>, Seq<u8>)> {
        match self {
            Badge::Abs(value) => seq![
                ("badge"@, dec_bytes(*value as nat)),
                ("badgeType"@, dec_bytes(1)),
            ],
            Badge::Add(value) => seq![
                ("badge"@, dec_bytes(*value as nat)),
                ("badgeType"@, dec_bytes(2)),
            ],
        }
    }

    fn serialize_field(&self) -> (n: usize) {
        2
    }

    fn serialize(&self, w: &mut ObjWriter) {
        match self {
            Badge::Abs(value) => {
                w.field_u64("badge", *value as u64);
                w.field_u64("badgeType", 1);
            },
            Badge::Add(value) => {
                w.field_u64("badge", *value as u64);
                w.field_u64("badgeType", 2);
            },
        }
        proof {
            assert(w.fields() =~= old(w).fields() + self.spec_fields());
        }
    }
}

} // verus!
