//! The documents of one outbound push request: the batch of recipients, the
//! notification body, the forward action, and the enclosing create-push
//! document.

use crate::json::{arr_bytes, dec_bytes, jstr_bytes, obj_bytes, str_arr_bytes, ObjWriter};
use crate::push_forward::PushForward;
use crate::push_notify::android::AndroidNotify;
use crate::push_notify::ios::IosNotifyData;
use crate::push_notify::NotifySerialize;
use crate::pushing_data::PushEntity;
use vstd::prelude::*;

verus! {

/// The gateway accepts at most this many recipients in one request.
pub const MAX_BATCH_SIZE: usize = 1000;

/// One batch of recipients: the unit of one HTTP call. Never empty.
pub struct PushTarget {
    pub target_user: Vec<String>,
}

impl PushTarget {
    /// The slice of the audience that batch `i` carries.
    pub open spec fn batch_of(audience: Seq<Seq<char>>, i: int) -> Seq<Seq<char>> {
        audience.subrange(
            i * MAX_BATCH_SIZE as int,
            if (i + 1) * MAX_BATCH_SIZE as int <= audience.len() {
                (i + 1) * MAX_BATCH_SIZE as int
            } else {
                audience.len() as int
            },
        )
    }

    /// How many batches an audience of `n` members yields: zero for an empty
    /// audience, otherwise the rounded-up quotient by the batch size.
    pub open spec fn batch_count(n: nat) -> int {
        (n + MAX_BATCH_SIZE - 1) / MAX_BATCH_SIZE as int
    }

    /// Pulls the next batch: up to the batch size of members starting at
    /// `start`, in audience order. `None` exactly when no member is left.
    pub fn new(users: &Vec<String>, start: usize) -> (r: Option<PushTarget>)
        ensures
            r is None <==> start >= users@.len(),
            r matches Some(t) ==> {
                &&& t.target_user.deep_view() == users.deep_view().subrange(
                    start as int,
                    if start + MAX_BATCH_SIZE <= users@.len() {
                        start + MAX_BATCH_SIZE
                    } else {
                        users@.len() as int
                    },
                )
                &&& t.target_user@.len() > 0
            },
    {
        if start >= users.len() {
            return None;
        }
        let stop: usize = if users.len() - start >= MAX_BATCH_SIZE {
            start + MAX_BATCH_SIZE
        } else {
            users.len()
        };
        let mut vec: Vec<String> = Vec::new();
        let mut i: usize = start;
        while i < stop
            invariant
                start <= i <= stop <= users@.len(),
                vec.deep_view() == users.deep_view().subrange(start as int, i as int),
            decreases stop - i,
        {
            let ghost prev = vec.deep_view();
            let user = users[i].clone();
            vec.push(user);
            proof {
                assert(user.deep_view() == users.deep_view()[i as int]);
                assert(vec.deep_view() =~= prev.push(users.deep_view()[i as int]));
                assert(users.deep_view().subrange(start as int, i + 1) =~= users.deep_view()
                    .subrange(start as int, i as int).push(users.deep_view()[i as int]));
            }
            i = i + 1;
        }
        proof {
            assert(vec.deep_view().len() == stop - start);
        }
        Some(PushTarget { target_user: vec })
    }

    /// The fields of the batch's target document: the audience-type tag and
    /// the recipient identifiers.
    pub open spec fn spec_fields(&self) -> Seq<(Seq<char>, Seq<u8>)> {
        seq![
            ("target"@, dec_bytes(4)),
            ("rids"@, str_arr_bytes(self.target_user.deep_view())),
        ]
    }

    /// Renders the batch as its target document.
    pub fn to_bytes(&self) -> (r: Vec<u8>)
        ensures
            r@ == obj_bytes(self.spec_fields()),
    {
        let mut w = ObjWriter::open(2);
        w.field_u64("target", 4);
        w.field_str_array("rids", &self.target_user);
        proof {
            assert(w.fields() =~= self.spec_fields());
        }
        w.close()
    }
}

/// The forward action of one push, assembled from the entity.
pub struct Forward(pub PushForward);

impl Forward {
    /// Asks the entity where a tap should navigate; the home page when the
    /// entity says nothing.
    pub fn new<T: PushEntity>(data: &T) -> Self {
        let mut push_forward = PushForward::HomePage;
        data.push_forward(&mut push_forward);
        Forward(push_forward)
    }

    /// Renders the forward action as one document: its fields, zero or more,
    /// in a container that is present even when empty.
    pub fn to_bytes(&self) -> (r: Vec<u8>)
        ensures
            r@ == obj_bytes(self.0.spec_fields()),
    {
        let n = self.0.serialize_field();
        let mut w = ObjWriter::open(n);
        self.0.serialize(&mut w);
        w.close()
    }
}

/// The notification document of one push: content, title, and the optional
/// per-platform extensions.
pub struct PushNotify {
    pub body: String,
    pub title: String,
    pub android_notify: AndroidNotify,
    pub ios_notify: IosNotifyData,
}

impl PushNotify {
    /// Assembles the notification document from the entity: its content and
    /// title, with the platform extensions it chooses to customise.
    pub fn new_with_builder<T: PushEntity>(data: &T) -> Self {
        let mut android_notify = AndroidNotify::default();
        data.android_notify(&mut android_notify);
        let mut ios_notify = IosNotifyData::default();
        data.ios_notify(&mut ios_notify);
        PushNotify {
            body: data.get_send_content(),
            title: data.get_title(),
            android_notify,
            ios_notify,
        }
    }

    /// The notification document's fields: the constant platform list, the
    /// content, the constant type, the title, and one field per platform
    /// extension that has at least one field of its own.
    pub open spec fn spec_fields(&self) -> Seq<(Seq<char>, Seq<u8>)> {
        seq![
            ("plats"@, arr_bytes(seq![dec_bytes(1), dec_bytes(2)])),
            ("content"@, jstr_bytes(self.body@)),
            ("type"@, dec_bytes(1)),
            ("title"@, jstr_bytes(self.title@)),
        ] + (if self.android_notify.spec_fields().len() > 0 {
            seq![("androidNotify"@, obj_bytes(self.android_notify.spec_fields()))]
        } else {
            Seq::empty()
        }) + (if self.ios_notify.spec_fields().len() > 0 {
            seq![("iosNotify"@, obj_bytes(self.ios_notify.spec_fields()))]
        } else {
            Seq::empty()
        })
    }

    /// Renders the notification document, declaring exactly as many fields
    /// as are written.
    pub fn to_bytes(&self) -> (r: Vec<u8>)
        ensures
            r@ == obj_bytes(self.spec_fields()),
    {
        let mut len: usize = 4;
        if self.android_notify.need_serialize() {
            len = len + 1;
        }
        if self.ios_notify.need_serialize() {
            len = len + 1;
        }
        let mut w = ObjWriter::open(len);
        let plats: Vec<u64> = vec![1, 2];
        proof {
            assert(plats@.map_values(|v: u64| dec_bytes(v as nat)) =~= seq![
                dec_bytes(1),
                dec_bytes(2),
            ]);
        }
        w.field_u64_array("plats", &plats);
        w.field_str("content", self.body.as_str());
        w.field_u64("type", 1);
        w.field_str("title", self.title.as_str());
        if self.android_notify.need_serialize() {
            let rendered = self.android_notify.to_bytes();
            w.field_raw("androidNotify", &rendered);
        }
        if self.ios_notify.need_serialize() {
            let rendered = self.ios_notify.to_bytes();
            w.field_raw("iosNotify", &rendered);
        }
        proof {
            assert(w.fields() =~= self.spec_fields());
        }
        w.close()
    }
}

/// The whole outbound document of one batch.
pub struct CreatePush {
    pub push_target: PushTarget,
    pub push_notify: PushNotify,
    pub push_forward: Forward,
}

/// The rendered create-push document: the constant source, the application
/// key, then the target, notification and forward documents, in that order.
pub open spec fn create_push_bytes(appkey: Seq<char>, cp: &CreatePush) -> Seq<u8> {
    obj_bytes(
        seq![
            ("source"@, jstr_bytes("webapi"@)),
            ("appkey"@, jstr_bytes(appkey)),
            ("pushTarget"@, obj_bytes(cp.push_target.spec_fields())),
            ("pushNotify"@, obj_bytes(cp.push_notify.spec_fields())),
            ("pushForward"@, obj_bytes(cp.push_forward.0.spec_fields())),
        ],
    )
}

impl CreatePush {
    /// Renders the document sent for one batch.
    pub fn serialize(&self, appkey: &str) -> (r: Vec<u8>)
        ensures
            r@ == create_push_bytes(appkey@, self),
    {
        let mut w = ObjWriter::open(5);
        w.field_str("source", "webapi");
        w.field_str("appkey", appkey);
        let target = self.push_target.to_bytes();
        w.field_raw("pushTarget", &target);
        let notify = self.push_notify.to_bytes();
        w.field_raw("pushNotify", &notify);
        let forward = self.push_forward.to_bytes();
        w.field_raw("pushForward", &forward);
        proof {
            assert(w.fields() =~= seq![
                ("source"@, jstr_bytes("webapi"@)),
                ("appkey"@, jstr_bytes(appkey@)),
                ("pushTarget"@, obj_bytes(self.push_target.spec_fields())),
                ("pushNotify"@, obj_bytes(self.push_notify.spec_fields())),
                ("pushForward"@, obj_bytes(self.push_forward.0.spec_fields())),
            ]);
        }
        w.close()
    }
}

/// The gateway's reply to one batch: its status code, the identifier the
/// gateway gave the accepted batch when it sent one, and, on rejection, its
/// message.
pub struct Respond {
    pub status: u16,
    pub res: Option<String>,
    pub error: Option<String>,
}

/// An audience of `n` members yields no batch exactly when it is empty;
/// otherwise it yields the rounded-up quotient of batches, enough to hold
/// every member and no batch to spare.
pub proof fn lemma_batch_count(n: nat)
    ensures
        n == 0 ==> PushTarget::batch_count(n) == 0,
        n > 0 ==> PushTarget::batch_count(n) >= 1,
        n > 0 ==> (PushTarget::batch_count(n) - 1) * (MAX_BATCH_SIZE as int) < n,
        n <= PushTarget::batch_count(n) * (MAX_BATCH_SIZE as int),
{
    let m = MAX_BATCH_SIZE as int;
    let k = PushTarget::batch_count(n);
    vstd::arithmetic::div_mod::lemma_fundamental_div_mod(n + m - 1, m);
    vstd::arithmetic::div_mod::lemma_mod_bound(n + m - 1, m);
    assert(n + m - 1 == m * k + (n + m - 1) % m);
}

/// Every batch of an audience is non-empty and keeps audience order: batch
/// `i` holds exactly the members at positions `i` batch-sizes onward. Each
/// batch before the last is full; the last carries the remainder.
pub proof fn lemma_batch_shape(aud: Seq<Seq<char>>, i: int)
    requires
        0 <= i < PushTarget::batch_count(aud.len()),
    ensures
        PushTarget::batch_of(aud, i).len() > 0,
        i < PushTarget::batch_count(aud.len()) - 1 ==> PushTarget::batch_of(aud, i).len()
            == MAX_BATCH_SIZE,
        i == PushTarget::batch_count(aud.len()) - 1 ==> PushTarget::batch_of(aud, i).len()
            == aud.len() - i * (MAX_BATCH_SIZE as int),
        forall|j: int|
            0 <= j < PushTarget::batch_of(aud, i).len() ==> PushTarget::batch_of(aud, i)[j]
                == aud[i * (MAX_BATCH_SIZE as int) + j],
{
    let m = MAX_BATCH_SIZE as int;
    let k = PushTarget::batch_count(aud.len());
    lemma_batch_count(aud.len());
    vstd::arithmetic::mul::lemma_mul_inequality(i + 1, k, m);
    assert((i + 1) * m <= k * m);
    vstd::arithmetic::mul::lemma_mul_inequality(i, k - 1, m);
    assert(i * m <= (k - 1) * m);
    assert(i * m < aud.len());
    if i < k - 1 {
        vstd::arithmetic::mul::lemma_mul_inequality(i + 1, k - 1, m);
        assert((i + 1) * m <= (k - 1) * m);
        assert((i + 1) * m < aud.len());
        assert((i + 1) * m - i * m == m) by (nonlinear_arith);
    } else {
        assert(i == k - 1);
    }
}

} // verus!
