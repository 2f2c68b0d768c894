//! The subscription store contract: who is subscribed to which resource.
//! The store itself belongs to the caller; the worker only consumes these
//! interfaces.

use crate::pushing_data::PushEntity;
use vstd::prelude::*;

verus! {

/// The persistent subscription store the worker resolves audiences through.
pub trait UserSubscribeManage {
    type UserIdentify: UserMobId;

    type PushData: PushEntity;

    type Filter: SubscribeFilter;

    type Err;

    /// The subscription filter of one user.
    fn fetch_subscribe_filter(&self, user_id: &Self::UserIdentify) -> Result<
        Self::Filter,
        Self::Err,
    >;

    /// Whether one user subscribes to the given resource.
    fn check_subscribed(
        &self,
        user_id: &Self::UserIdentify,
        data_resource: &<Self::PushData as PushEntity>::Resource,
    ) -> Result<bool, Self::Err>;

    /// Every user subscribed to the given resource.
    fn fetch_all_subscriber(
        &self,
        data_resource: &<Self::PushData as PushEntity>::Resource,
    ) -> Result<Vec<Self::UserIdentify>, Self::Err>;
}

/// A filter over pushable entities: which of them one user receives.
pub trait SubscribeFilter: Sized {
    type Data: PushEntity;

    type Err;

    /// Keeps the entities this filter admits, in order.
    fn filter(&self, input: Vec<Self::Data>) -> Result<Vec<Self::Data>, Self::Err>;

    /// Whether this filter admits the given resource.
    fn contains(&self, target: &<Self::Data as PushEntity>::Resource) -> Result<bool, Self::Err>;
}

/// A user as the gateway knows it.
pub trait UserMobId: Sized {
    type MobId;

    /// The user's device identifier at the gateway.
    fn get_mob_id(&self) -> Self::MobId;
}

} // verus!
