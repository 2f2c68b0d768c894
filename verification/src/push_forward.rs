//! Where a tapped notification navigates.

use crate::json::{dec_bytes, jstr_bytes, ObjWriter};
use crate::push_notify::NotifySerialize;
use vstd::prelude::*;

verus! {

/// An in-app link opened through a custom scheme.
pub struct Scheme(pub String);

impl Scheme {
    /// A scheme link with the given address.
    pub fn new(link: String) -> (r: Self)
        ensures
            r == Scheme(link),
    {
        Scheme(link)
    }
}

/// The navigation target of a tap: the home page (the default, nothing to
/// emit), a web address, or an in-app scheme link.
pub enum PushForward {
    HomePage,
    LinkUrl(String),
    SchemeJump(Scheme),
}

impl NotifySerialize for PushForward {
    open spec fn spec_fields(&self) -> Seq<(Seq<char>, Seq<u8>)> {
        match self {
            PushForward::HomePage => Seq::empty(),
            PushForward::LinkUrl(url) => seq![
                ("nextType"@, dec_bytes(1)),
                ("url"@, jstr_bytes(url@)),
            ],
            PushForward::SchemeJump(scheme) => seq![
                ("nextType"@, dec_bytes(2)),
                ("scheme"@, jstr_bytes(scheme.0@)),
            ],
        }
    }

    fn serialize_field(&self) -> (n: usize) {
        match self {
            PushForward::HomePage => 0,
            PushForward::LinkUrl(_) => 2,
            PushForward::SchemeJump(_) => 2,
        }
    }

    fn serialize(&self, w: &mut ObjWriter) {
        match self {
            PushForward::HomePage => {},
            PushForward::LinkUrl(url) => {
                w.field_u64("nextType", 1);
                w.field_str("url", url.as_str());
            },
            PushForward::SchemeJump(scheme) => {
                w.field_u64("nextType", 2);
                w.field_str("scheme", scheme.0.as_str());
            },
        }
        proof {
            assert(w.fields() =~= old(w).fields() + self.spec_fields());
        }
    }
}

} // verus!
