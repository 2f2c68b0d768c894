//! Optional notification extensions and their emission contract.
//!
//! Every optional sub-document of a push payload follows one protocol: it is
//! first asked how many fields it will contribute (a pure query), and must
//! then write exactly that many fields into the in-progress object. The
//! contract of [`NotifySerialize`] states this exactly: `serialize` appends
//! precisely the fields promised by `spec_fields`, whose length
//! `serialize_field` reports.

pub mod android;
pub mod ios;

use crate::json::ObjWriter;
use vstd::prelude::*;

pub use ios::{ApnPush, IosBadge, IosBadgeType, IosNotify, IosPushSound, IosRichText, IosRichTextType};

verus! {

/// A component that contributes zero or more fields to a JSON object and
/// declares their number before writing them.
pub trait NotifySerialize {
    /// The fields this component contributes: name characters and rendered
    /// value bytes, in emission order.
    spec fn spec_fields(&self) -> Seq<(Seq<char>, Seq<u8>)>;

    /// Reports how many fields `serialize` will write.
    fn serialize_field(&self) -> (n: usize)
        ensures
            n as nat == self.spec_fields().len(),
    ;

    /// Writes exactly the fields promised by `spec_fields`, in order.
    fn serialize(&self, w: &mut ObjWriter)
        requires
            old(w).wf(),
            old(w).spec_written() + self.spec_fields().len() <= old(w).spec_declared(),
        ensures
            final(w).wf(),
            final(w).fields() == old(w).fields() + self.spec_fields(),
            final(w).spec_declared() == old(w).spec_declared(),
    ;
}

/// An absent component contributes no fields and writes nothing.
impl<T: NotifySerialize> NotifySerialize for Option<T> {
    open spec fn spec_fields(&self) -> Seq<(Seq<char>, Seq<u8>)> {
        match self {
            Some(inner) => inner.spec_fields(),
            None => Seq::empty(),
        }
    }

    fn serialize_field(&self) -> (n: usize) {
        match self {
            Some(inner) => inner.serialize_field(),
            None => 0,
        }
    }

    fn serialize(&self, w: &mut ObjWriter) {
        match self {
            Some(inner) => inner.serialize(w),
            None => {
                proof {
                    assert(w.fields() + self.spec_fields() =~= w.fields());
                }
            },
        }
    }
}

} // verus!
