//! Android notification sound and alert-channel settings.

use crate::json::jstr_bytes;
use crate::json::ObjWriter;
use crate::push_notify::NotifySerialize;
use vstd::prelude::*;
use vstd::string::StringExecFns;

verus! {

/// A named notification sound.
pub struct Sound(pub String);

impl Sound {
    /// A sound with the given name.
    pub fn new(name: String) -> (r: Self)
        ensures
            r == Sound(name),
    {
        Sound(name)
    }
}

impl NotifySerialize for Sound {
    open spec fn spec_fields(&self) -> Seq<(Seq<char>, Seq<u8>)> {
        seq![("sound"@, jstr_bytes(self.0@))]
    }

    fn serialize_field(&self) -> (n: usize) {
        1
    }

    fn serialize(&self, w: &mut ObjWriter) {
        w.field_str("sound", self.0.as_str());
        proof {
            assert(w.fields() =~= old(w).fields() + self.spec_fields());
        }
    }
}

/// Which alert channels the notification uses: a digit per enabled channel,
/// in the fixed order prompt, vibration, indicator light.
#[derive(Clone, Copy, PartialEq, Eq, Structural, Debug)]
pub struct Warn {
    pub prompt: bool,
    pub vibration: bool,
    pub indicator_light: bool,
}

impl Warn {
    /// The gateway's encoding of the enabled channels.
    pub open spec fn spec_code(&self) -> Seq<char> {
        (if self.prompt {
            "1"@
        } else {
            Seq::empty()
        }) + (if self.vibration {
            "2"@
        } else {
            Seq::empty()
        }) + (if self.indicator_light {
            "3"@
        } else {
            Seq::empty()
        })
    }

    /// Alert settings with the given channels enabled.
    pub fn new(prompt: bool, vibration: bool, indicator_light: bool) -> (r: Self)
        ensures
            r == (Warn { prompt, vibration, indicator_light }),
    {
        Warn { prompt, vibration, indicator_light }
    }

    /// Returns the gateway's encoding of the enabled channels.
    pub fn code(&self) -> (r: String)
        ensures
            r@ == self.spec_code(),
    {
        let mut code = String::new();
        if self.prompt {
            code.append("1");
        }
        if self.vibration {
            code.append("2");
        }
        if self.indicator_light {
            code.append("3");
        }
        proof {
            assert(code@ =~= self.spec_code());
        }
        code
    }
}

impl NotifySerialize for Warn {
    open spec fn spec_fields(&self) -> Seq<(Seq<char>, Seq<u8>)> {
        seq![("warn"@, jstr_bytes(self.spec_code()))]
    }

    fn serialize_field(&self) -> (n: usize) {
        1
    }

    fn serialize(&self, w: &mut ObjWriter) {
        let code = self.code();
        w.field_str("warn", code.as_str());
        proof {
            assert(w.fields() =~= old(w).fields() + self.spec_fields());
        }
    }
}

} // verus!
