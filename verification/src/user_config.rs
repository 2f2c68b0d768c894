//! A per-user push-preference store, for callers that filter pushes by the
//! resources each user chose.

use crate::pushing_data::PushEntity;
use vstd::prelude::*;

verus! {

/// Per-user preferences: which resources each user wants pushes about.
pub trait UserPushManage {
    type UserIdentify;

    type PushData: PushEntity;

    type Err;

    /// The resources one user wants pushes about.
    fn fetch_user_filter(&self, user_id: &Self::UserIdentify) -> Result<
        Vec<<Self::PushData as PushEntity>::Resource>,
        Self::Err,
    >;

    /// Whether one user wants pushes about the given resource: by default,
    /// whether the user's filter holds it.
    fn check_push_need(
        &self,
        user_id: &Self::UserIdentify,
        data_group: <Self::PushData as PushEntity>::Resource,
    ) -> Result<bool, Self::Err> {
        let filter = match self.fetch_user_filter(user_id) {
            Ok(filter) => filter,
            Err(err) => {
                return Err(err);
            },
        };
        let mut i: usize = 0;
        let mut found = false;
        while i < filter.len()
            decreases filter@.len() - i,
        {
            if filter[i] == data_group {
                found = true;
            }
            i = i + 1;
        }
        Ok(found)
    }

    /// Every user that wants pushes about the given resource.
    fn fetch_all_need_push_user(
        &self,
        data_group: &<Self::PushData as PushEntity>::Resource,
    ) -> Result<Vec<Self::UserIdentify>, Self::Err>;
}

} // verus!
