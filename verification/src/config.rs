//! Gateway credentials.

use vstd::prelude::*;

verus! {

/// The credentials of one gateway application: the key sent with every
/// request and the secret that signs every payload.
pub struct MobPushConfig {
    pub key: String,
    pub secret: String,
}

impl MobPushConfig {
    /// Credentials from the given key and secret.
    pub fn new(key: String, secret: String) -> (r: Self)
        ensures
            r.key == key,
            r.secret == secret,
    {
        MobPushConfig { key, secret }
    }
}

/// Read access to gateway credentials, for callers holding them in a
/// configuration store of their own.
pub trait MobPushConfigTrait {
    /// The application key.
    fn get_key(&self) -> &str;

    /// The signing secret.
    fn get_secret(&self) -> &str;
}

impl MobPushConfigTrait for MobPushConfig {
    fn get_key(&self) -> &str {
        self.key.as_str()
    }

    fn get_secret(&self) -> &str {
        self.secret.as_str()
    }
}

} // verus!
