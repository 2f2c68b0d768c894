//! The failures one push item can run into.

use vstd::prelude::*;

verus! {

/// The error type of the JSON library through which the gateway's replies
/// are read; opaque to this crate.
#[verifier::external_type_specification]
#[verifier::external_body]
pub struct ExJsonError(serde_json::Error);

/// What can go wrong while delivering one push item. `ME` is the caller's
/// subscription-store error, `CE` the caller's transport error; both travel
/// through unread. One value reaches the error channel per failed item.
pub enum MobPushError<ME, CE> {
    /// The subscription store failed to resolve the audience.
    Manage(ME),
    /// The transport failed to build or exchange a request.
    Request(CE),
    /// The gateway's reply was not a well-formed response document.
    Json(serde_json::Error),
    /// The gateway rejected a batch: its status code and message.
    Mob { state: u16, msg: String },
}

impl<ME, CE> From<(u16, String)> for MobPushError<ME, CE> {
    /// Wraps a gateway rejection.
    fn from(v: (u16, String)) -> (r: Self)
        ensures
            r == (MobPushError::<ME, CE>::Mob { state: v.0, msg: v.1 }),
    {
        MobPushError::Mob { state: v.0, msg: v.1 }
    }
}

impl<ME, CE> vstd::std_specs::convert::FromSpecImpl<(u16, String)> for MobPushError<ME, CE> {
    open spec fn obeys_from_spec() -> bool {
        true
    }

    open spec fn from_spec(v: (u16, String)) -> Self {
        MobPushError::Mob { state: v.0, msg: v.1 }
    }
}

impl<ME, CE> From<serde_json::Error> for MobPushError<ME, CE> {
    /// Wraps a reply-parsing failure.
    fn from(err: serde_json::Error) -> (r: Self)
        ensures
            r == MobPushError::<ME, CE>::Json(err),
    {
        MobPushError::Json(err)
    }
}

impl<ME, CE> vstd::std_specs::convert::FromSpecImpl<serde_json::Error> for MobPushError<ME, CE> {
    open spec fn obeys_from_spec() -> bool {
        true
    }

    open spec fn from_spec(err: serde_json::Error) -> Self {
        MobPushError::Json(err)
    }
}

} // verus!
