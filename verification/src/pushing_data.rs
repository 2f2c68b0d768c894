//! The contract a pushable entity fulfils.

use crate::push_forward::PushForward;
use crate::push_notify::android::AndroidNotify;
use crate::push_notify::ios::IosNotifyData;
use vstd::prelude::*;
use vstd::string::StringExecFns;

verus! {

/// One logical push request, supplied by the caller: its audience group,
/// its content, and its optional per-platform customisations.
pub trait PushEntity: Sized {
    /// The group this entity belongs to: the key resolving its audience.
    type Resource: PartialEq + Eq + core::hash::Hash + Clone;

    /// The audience group of this entity.
    fn get_resource(&self) -> &Self::Resource;

    /// The body text of the notification.
    fn get_send_content(&self) -> String;

    /// The title of the notification.
    fn get_title(&self) -> String {
        String::from_str("新饼来袭")
    }

    /// Applies this entity's Android customisations.
    fn android_notify(&self, _notify: &mut AndroidNotify) {
    }

    /// Applies this entity's iOS customisations.
    fn ios_notify(&self, _notify: &mut IosNotifyData) {
    }

    /// Applies this entity's tap-navigation target.
    fn push_forward(&self, _push_forward: &mut PushForward) {
    }
}

} // verus!
