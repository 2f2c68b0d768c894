//! One item's delivery: payload rendering, signing, the session that holds
//! the item's signed batch requests, and the interpretation of the gateway's
//! replies.

use crate::config::MobPushConfig;
use crate::error::MobPushError;
use crate::json::{hex_digit, jstr_bytes, obj_bytes, ObjWriter};
use crate::push_forward::PushForward;
use crate::push_notify::NotifySerialize;
use crate::pusher::push_model::{Forward, PushNotify, PushTarget, Respond, MAX_BATCH_SIZE};
use vstd::prelude::*;
use vstd::string::StrSliceExecFns;

verus! {

/// The gateway's fixed create-push endpoint.
pub fn push_url() -> (r: &'static str)
    ensures
        r@ == "http://api.push.mob.com/v3/push/createPush"@,
{
    "http://api.push.mob.com/v3/push/createPush"
}

/// The digest the outside MD5 routine computes for the given bytes: a
/// function of the input alone.
pub uninterp spec fn md5_of(bytes: Seq<u8>) -> Seq<u8>;

/// Relies on md5::compute of the md5 crate: returns the 16-byte MD5 digest
/// of the input, which depends on the input bytes alone.
#[verifier::external_body]
fn md5_compute(data: &Vec<u8>) -> (r: Vec<u8>)
    ensures
        r@ == md5_of(data@),
        r@.len() == 16,
{
    md5::compute(data.as_slice()).0.to_vec()
}

/// The lowercase hex rendering of a byte string: two digits per byte.
pub open spec fn hex_bytes(bytes: Seq<u8>) -> Seq<u8>
    decreases bytes.len(),
{
    if bytes.len() == 0 {
        Seq::empty()
    } else {
        seq![
            hex_digit((bytes[0] / 16) as nat),
            hex_digit((bytes[0] % 16) as nat),
        ] + hex_bytes(bytes.drop_first())
    }
}

proof fn lemma_hex_bytes_push(s: Seq<u8>, b: u8)
    ensures
        hex_bytes(s.push(b)) == hex_bytes(s) + seq![
            hex_digit((b / 16) as nat),
            hex_digit((b % 16) as nat),
        ],
    decreases s.len(),
{
    let t = s.push(b);
    if s.len() == 0 {
        assert(t[0] == b);
        assert(t.drop_first() =~= Seq::<u8>::empty());
        assert(hex_bytes(Seq::<u8>::empty()) == Seq::<u8>::empty());
        assert(hex_bytes(t) == seq![
            hex_digit((b / 16) as nat),
            hex_digit((b % 16) as nat),
        ] + hex_bytes(t.drop_first()));
        assert(hex_bytes(t) =~= hex_bytes(s) + seq![
            hex_digit((b / 16) as nat),
            hex_digit((b % 16) as nat),
        ]);
    } else {
        assert(t[0] == s[0]);
        assert(t.drop_first() =~= s.drop_first().push(b));
        lemma_hex_bytes_push(s.drop_first(), b);
        assert(hex_bytes(t) =~= hex_bytes(s) + seq![
            hex_digit((b / 16) as nat),
            hex_digit((b % 16) as nat),
        ]);
    }
}

/// Renders a byte string as lowercase hex.
pub fn to_hex(bytes: &Vec<u8>) -> (r: Vec<u8>)
    ensures
        r@ == hex_bytes(bytes@),
{
    let mut out: Vec<u8> = Vec::new();
    let mut i: usize = 0;
    while i < bytes.len()
        invariant
            i <= bytes@.len(),
            out@ == hex_bytes(bytes@.take(i as int)),
        decreases bytes@.len() - i,
    {
        let b = bytes[i];
        let hi = b / 16;
        let lo = b % 16;
        out.push(if hi < 10 { 48 + hi } else { 87 + hi });
        out.push(if lo < 10 { 48 + lo } else { 87 + lo });
        proof {
            lemma_hex_bytes_push(bytes@.take(i as int), bytes@[i as int]);
            assert(bytes@.take(i + 1) =~= bytes@.take(i as int).push(bytes@[i as int]));
            assert(out@ =~= hex_bytes(bytes@.take(i + 1)));
        }
        i = i + 1;
    }
    proof {
        assert(bytes@.take(i as int) =~= bytes@);
    }
    out
}

/// The integrity signature of one payload: the lowercase hex MD5 digest of
/// the payload bytes followed by the secret's UTF-8 bytes. Deterministic: a
/// function of payload and secret alone.
pub open spec fn sign_of(payload: Seq<u8>, secret: Seq<char>) -> Seq<u8> {
    hex_bytes(md5_of(payload + vstd::utf8::encode_utf8(secret)))
}

/// Signs one serialized payload with the shared secret.
pub fn sign(payload: &Vec<u8>, secret: &str) -> (r: Vec<u8>)
    ensures
        r@ == sign_of(payload@, secret@),
{
    let mut data: Vec<u8> = vstd::slice::slice_to_vec(payload.as_slice());
    let mut secret_bytes: Vec<u8> = secret.as_bytes_vec();
    data.append(&mut secret_bytes);
    let digest = md5_compute(&data);
    to_hex(&digest)
}

/// The fields of a batch's target document, over the batch's identifiers.
pub open spec fn target_fields(rids: Seq<Seq<char>>) -> Seq<(Seq<char>, Seq<u8>)> {
    seq![
        ("target"@, crate::json::dec_bytes(4)),
        ("rids"@, crate::json::str_arr_bytes(rids)),
    ]
}

/// The rendered create-push document of one batch, over the batch's
/// identifiers and the item's notification and forward documents.
pub open spec fn payload_bytes(
    appkey: Seq<char>,
    rids: Seq<Seq<char>>,
    notify: PushNotify,
    forward: PushForward,
) -> Seq<u8> {
    obj_bytes(
        seq![
            ("source"@, jstr_bytes("webapi"@)),
            ("appkey"@, jstr_bytes(appkey)),
            ("pushTarget"@, obj_bytes(target_fields(rids))),
            ("pushNotify"@, obj_bytes(notify.spec_fields())),
            ("pushForward"@, obj_bytes(forward.spec_fields())),
        ],
    )
}

/// Renders the payload of one batch.
pub fn render_payload(appkey: &str, target: &PushTarget, notify: &PushNotify, forward: &Forward) -> (r:
    Vec<u8>)
    ensures
        r@ == payload_bytes(appkey@, target.target_user.deep_view(), *notify, forward.0),
{
    let mut w = ObjWriter::open(5);
    w.field_str("source", "webapi");
    proof {
        assert(w.fields() =~= seq![("source"@, jstr_bytes("webapi"@))]);
    }
    w.field_str("appkey", appkey);
    proof {
        assert(w.fields() =~= seq![
            ("source"@, jstr_bytes("webapi"@)),
            ("appkey"@, jstr_bytes(appkey@)),
        ]);
    }
    let rendered_target = target.to_bytes();
    w.field_raw("pushTarget", &rendered_target);
    proof {
        assert(target.spec_fields() =~= target_fields(target.target_user.deep_view()));
        assert(w.fields() =~= seq![
            ("source"@, jstr_bytes("webapi"@)),
            ("appkey"@, jstr_bytes(appkey@)),
            ("pushTarget"@, obj_bytes(target_fields(target.target_user.deep_view()))),
        ]);
    }
    let rendered_notify = notify.to_bytes();
    w.field_raw("pushNotify", &rendered_notify);
    let rendered_forward = forward.to_bytes();
    w.field_raw("pushForward", &rendered_forward);
    proof {
        assert(w.fields() =~= seq![
            ("source"@, jstr_bytes("webapi"@)),
            ("appkey"@, jstr_bytes(appkey@)),
            ("pushTarget"@, obj_bytes(target_fields(target.target_user.deep_view()))),
            ("pushNotify"@, obj_bytes(notify.spec_fields())),
            ("pushForward"@, obj_bytes(forward.0.spec_fields())),
        ]);
    }
    w.close()
}

/// One ready-to-send batch request: the key header, the signature header,
/// the payload, and how many recipients the batch carries.
pub struct SignedRequest {
    pub key: String,
    pub sign: Vec<u8>,
    pub body: Vec<u8>,
    pub batch_size: usize,
}

/// What the request of one batch must be: its body is the rendered payload
/// of exactly that batch, its signature signs that body with the secret, and
/// it carries the application key.
pub open spec fn req_matches(
    r: SignedRequest,
    key: Seq<char>,
    secret: Seq<char>,
    notify: PushNotify,
    forward: PushForward,
    rids: Seq<Seq<char>>,
) -> bool {
    &&& r.key@ == key
    &&& r.body@ == payload_bytes(key, rids, notify, forward)
    &&& r.sign@ == sign_of(r.body@, secret)
    &&& r.batch_size == rids.len()
}

/// What the JSON library finds in the gateway's reply bytes: the status
/// code, the accepted batch's identifier when one came back, and the
/// optional error message; or nothing when the bytes are not a well-formed
/// response document. A function of the bytes alone.
pub uninterp spec fn gateway_reply_of(bytes: Seq<u8>) -> Option<
    (u16, Option<Seq<char>>, Option<Seq<char>>),
>;

/// The abstract value of a parsed reply.
pub open spec fn reply_view(status: u16, res: Option<String>, error: Option<String>) -> (
    u16,
    Option<Seq<char>>,
    Option<Seq<char>>,
) {
    (
        status,
        match res {
            Some(b) => Some(b@),
            None => None,
        },
        match error {
            Some(m) => Some(m@),
            None => None,
        },
    )
}

/// Relies on serde_json::from_slice, serde_json::from_value and
/// serde_json::Value::get: reads the gateway's reply
/// `{status, res: {batchId}?, error?}`, failing exactly when the bytes do
/// not parse to such a document. The outcome depends on the bytes alone.
#[verifier::external_body]
fn parse_reply(bytes: &Vec<u8>) -> (r: Result<
    (u16, Option<String>, Option<String>),
    serde_json::Error,
>)
    ensures
        r matches Ok(p) ==> gateway_reply_of(bytes@) == Some(reply_view(p.0, p.1, p.2)),
        r is Err ==> gateway_reply_of(bytes@) is None,
{
    let v: serde_json::Value = serde_json::from_slice(bytes.as_slice())?;
    let status: u16 =
        serde_json::from_value(v.get("status").cloned().unwrap_or(serde_json::Value::Null))?;
    let res: Option<String> = match v.get("res") {
        Some(r) if !r.is_null() => Some(serde_json::from_value(
            r.get("batchId").cloned().unwrap_or(serde_json::Value::Null),
        )?),
        _ => None,
    };
    let error: Option<String> =
        serde_json::from_value(v.get("error").cloned().unwrap_or(serde_json::Value::Null))?;
    Ok((status, res, error))
}

/// Parses the gateway's reply bytes into a response, or the JSON library's
/// error when the bytes are not a well-formed response document.
pub fn parse_respond(bytes: &Vec<u8>) -> (r: Result<Respond, serde_json::Error>)
    ensures
        r matches Ok(resp) ==> gateway_reply_of(bytes@) == Some(
            reply_view(resp.status, resp.res, resp.error),
        ),
        r is Err <==> gateway_reply_of(bytes@) is None,
{
    match parse_reply(bytes) {
        Ok(p) => Ok(Respond { status: p.0, res: p.1, error: p.2 }),
        Err(e) => Err(e),
    }
}

/// The delivery state of one push item: its signed batch requests, how many
/// were accepted so far, and whether a failure abandoned the rest.
pub struct PushSession {
    requests: Vec<SignedRequest>,
    next: usize,
    aborted: bool,
    key: Ghost<Seq<char>>,
    secret: Ghost<Seq<char>>,
    notify: Ghost<PushNotify>,
    forward: Ghost<PushForward>,
    audience: Ghost<Seq<Seq<char>>>,
}

impl PushSession {
    /// The audience this session fans out to.
    pub closed spec fn audience(&self) -> Seq<Seq<char>> {
        self.audience@
    }

    /// The application key of this session's requests.
    pub closed spec fn key(&self) -> Seq<char> {
        self.key@
    }

    /// The secret that signed this session's requests.
    pub closed spec fn secret(&self) -> Seq<char> {
        self.secret@
    }

    /// The notification document of this session's requests.
    pub closed spec fn notify(&self) -> PushNotify {
        self.notify@
    }

    /// The forward action of this session's requests.
    pub closed spec fn forward(&self) -> PushForward {
        self.forward@
    }

    /// The session's requests, one per batch.
    pub closed spec fn spec_requests(&self) -> Seq<SignedRequest> {
        self.requests@
    }

    /// How many batches the gateway accepted so far.
    pub closed spec fn sent(&self) -> nat {
        self.next as nat
    }

    /// Whether a failure abandoned this item's remaining batches.
    pub closed spec fn aborted(&self) -> bool {
        self.aborted
    }

    /// The session's consistency: one request per batch of the audience, in
    /// audience order, each carrying the payload and signature of exactly
    /// its batch.
    pub closed spec fn wf(&self) -> bool {
        &&& self.requests@.len() == PushTarget::batch_count(self.audience@.len())
        &&& forall|i: int|
            0 <= i < self.requests@.len() ==> req_matches(
                #[trigger] self.requests@[i],
                self.key@,
                self.secret@,
                self.notify@,
                self.forward@,
                PushTarget::batch_of(self.audience@, i),
            )
        &&& self.next <= self.requests@.len()
    }

    /// Builds the session of one item: one signed request per batch of the
    /// audience, in audience order, the first batches full and the last
    /// carrying the remainder.
    pub fn new(
        cfg: &MobPushConfig,
        notify: PushNotify,
        forward: Forward,
        audience: Vec<String>,
    ) -> (s: PushSession)
        ensures
            s.wf(),
            s.key() == cfg.key@,
            s.secret() == cfg.secret@,
            s.notify() == notify,
            s.forward() == forward.0,
            s.audience() == audience.deep_view(),
            s.sent() == 0,
            !s.aborted(),
    {
        let ghost aud = audience.deep_view();
        let mut requests: Vec<SignedRequest> = Vec::new();
        let mut start: usize = 0;
        let ghost k: int = 0;
        while start < audience.len()
            invariant
                requests@.len() == k,
                0 <= k,
                start as int == (if k * (MAX_BATCH_SIZE as int) <= aud.len() {
                    k * (MAX_BATCH_SIZE as int)
                } else {
                    aud.len() as int
                }),
                k == 0 || (k - 1) * (MAX_BATCH_SIZE as int) < aud.len(),
                aud == audience.deep_view(),
                aud.len() == audience@.len(),
                forall|i: int|
                    0 <= i < k ==> req_matches(
                        #[trigger] requests@[i],
                        cfg.key@,
                        cfg.secret@,
                        notify,
                        forward.0,
                        PushTarget::batch_of(aud, i),
                    ),
            decreases aud.len() - start,
        {
            proof {
                assert(k * (MAX_BATCH_SIZE as int) == start as int);
            }
            let target = match PushTarget::new(&audience, start) {
                Some(t) => t,
                None => {
                    proof {
                        assert(false);
                    }
                    unreached()
                },
            };
            let batch_size = target.target_user.len();
            let body = render_payload(cfg.key.as_str(), &target, &notify, &forward);
            let signature = sign(&body, cfg.secret.as_str());
            let req = SignedRequest { key: cfg.key.clone(), sign: signature, body, batch_size };
            proof {
                assert(target.target_user.deep_view() =~= PushTarget::batch_of(aud, k));
                assert(req_matches(
                    req,
                    cfg.key@,
                    cfg.secret@,
                    notify,
                    forward.0,
                    PushTarget::batch_of(aud, k),
                ));
            }
            requests.push(req);
            let remaining = audience.len() - start;
            if remaining >= MAX_BATCH_SIZE {
                start = start + MAX_BATCH_SIZE;
            } else {
                start = audience.len();
            }
            proof {
                k = k + 1;
            }
        }
        proof {
            if aud.len() == 0 {
                assert(k == 0);
                assert(PushTarget::batch_count(aud.len()) == 0);
            } else {
                assert(k >= 1);
                assert((k - 1) * (MAX_BATCH_SIZE as int) < aud.len());
                assert(aud.len() <= k * (MAX_BATCH_SIZE as int));
                assert(PushTarget::batch_count(aud.len()) == k) by (nonlinear_arith)
                    requires
                        k >= 1,
                        (k - 1) * (MAX_BATCH_SIZE as int) < aud.len(),
                        aud.len() <= k * (MAX_BATCH_SIZE as int),
                ;
            }
        }
        PushSession {
            requests,
            next: 0,
            aborted: false,
            key: Ghost(cfg.key@),
            secret: Ghost(cfg.secret@),
            notify: Ghost(notify),
            forward: Ghost(forward.0),
            audience: Ghost(aud),
        }
    }

    /// The next request to send: the first batch the gateway has not yet
    /// accepted. `None` once every batch was accepted or a failure abandoned
    /// the item.
    pub fn next_request(&self) -> (r: Option<&SignedRequest>)
        requires
            self.wf(),
        ensures
            r is Some <==> (!self.aborted() && self.sent() < self.spec_requests().len()),
            r matches Some(req) ==> *req == self.spec_requests()[self.sent() as int],
    {
        if !self.aborted && self.next < self.requests.len() {
            Some(&self.requests[self.next])
        } else {
            None
        }
    }

    /// Takes the gateway's reply to the current batch. An accepted batch
    /// (status 200) yields no error and moves to the next batch; any other
    /// status abandons the item's remaining batches and yields the
    /// gateway-rejected error with the reply's message, empty when the reply
    /// carried none.
    pub fn on_reply<ME, CE>(&mut self, resp: Respond) -> (r: Option<MobPushError<ME, CE>>)
        requires
            old(self).wf(),
            !old(self).aborted(),
            old(self).sent() < old(self).spec_requests().len(),
        ensures
            final(self).wf(),
            final(self).spec_requests() == old(self).spec_requests(),
            final(self).audience() == old(self).audience(),
            final(self).key() == old(self).key(),
            final(self).secret() == old(self).secret(),
            final(self).notify() == old(self).notify(),
            final(self).forward() == old(self).forward(),
            resp.status == 200 ==> {
                &&& r is None
                &&& !final(self).aborted()
                &&& final(self).sent() == old(self).sent() + 1
            },
            resp.status != 200 ==> {
                &&& final(self).aborted()
                &&& final(self).sent() == old(self).sent()
                &&& (r matches Some(e) && e matches MobPushError::Mob { state, msg } && {
                    &&& state == resp.status
                    &&& msg@ == (match resp.error {
                        Some(m) => m@,
                        None => Seq::<char>::empty(),
                    })
                })
            },
    {
        if resp.status == 200 {
            let count = self.requests.len();
            proof {
                assert(self.next < count);
            }
            self.next = self.next + 1;
            None
        } else {
            self.aborted = true;
            let msg = match resp.error {
                Some(m) => m,
                None => String::new(),
            };
            Some(MobPushError::Mob { state: resp.status, msg })
        }
    }

    /// Takes the gateway's raw reply bytes to the current batch: parses
    /// them, then decides as `on_reply` does. Bytes that are no well-formed
    /// response document abandon the item and yield the wrapped parse error.
    pub fn on_reply_bytes<ME, CE>(&mut self, bytes: &Vec<u8>) -> (r: Option<MobPushError<ME, CE>>)
        requires
            old(self).wf(),
            !old(self).aborted(),
            old(self).sent() < old(self).spec_requests().len(),
        ensures
            final(self).wf(),
            final(self).spec_requests() == old(self).spec_requests(),
            final(self).audience() == old(self).audience(),
            final(self).key() == old(self).key(),
            final(self).secret() == old(self).secret(),
            final(self).notify() == old(self).notify(),
            final(self).forward() == old(self).forward(),
            gateway_reply_of(bytes@) is None ==> {
                &&& final(self).aborted()
                &&& (r matches Some(e) && e is Json)
            },
            gateway_reply_of(bytes@) matches Some(p) ==> {
                &&& (p.0 == 200 ==> {
                    &&& r is None
                    &&& !final(self).aborted()
                    &&& final(self).sent() == old(self).sent() + 1
                })
                &&& (p.0 != 200 ==> {
                    &&& final(self).aborted()
                    &&& (r matches Some(e) && e matches MobPushError::Mob { state, msg } && {
                        &&& state == p.0
                        &&& msg@ == (match p.2 {
                            Some(m) => m,
                            None => Seq::<char>::empty(),
                        })
                    })
                })
            },
    {
        match parse_respond(bytes) {
            Ok(resp) => self.on_reply(resp),
            Err(err) => {
                self.aborted = true;
                Some(MobPushError::Json(err))
            },
        }
    }
}

/// Of every consistent session: there is one request per batch of the
/// audience; each request before the last carries a full batch, the last
/// carries the remainder; and each request's recipients are the audience
/// members at its batch's positions, so audience order is kept.
pub proof fn lemma_session_request_shape(s: &PushSession, i: int)
    requires
        s.wf(),
        0 <= i < s.spec_requests().len(),
    ensures
        s.spec_requests().len() == PushTarget::batch_count(s.audience().len()),
        s.spec_requests()[i].batch_size == PushTarget::batch_of(s.audience(), i).len(),
        s.spec_requests()[i].batch_size > 0,
        i < s.spec_requests().len() - 1 ==> s.spec_requests()[i].batch_size == MAX_BATCH_SIZE,
        i == s.spec_requests().len() - 1 ==> s.spec_requests()[i].batch_size == s.audience().len()
            - i * (MAX_BATCH_SIZE as int),
        s.spec_requests()[i].body@ == payload_bytes(
            s.key(),
            PushTarget::batch_of(s.audience(), i),
            s.notify(),
            s.forward(),
        ),
        s.spec_requests()[i].sign@ == sign_of(s.spec_requests()[i].body@, s.secret()),
{
    crate::pusher::push_model::lemma_batch_count(s.audience().len());
    crate::pusher::push_model::lemma_batch_shape(s.audience(), i);
    assert(req_matches(
        s.spec_requests()[i],
        s.key(),
        s.secret(),
        s.notify(),
        s.forward(),
        PushTarget::batch_of(s.audience(), i),
    ));
}

/// Turns the subscription store's answer for one item into either a ready
/// session or the wrapped store error. A failed resolution yields no
/// session, so nothing of the failed item is ever sent; the worker reports
/// the error and goes on to the next item.
pub fn resolve_outcome<ME, CE>(
    cfg: &MobPushConfig,
    notify: PushNotify,
    forward: Forward,
    resolved: Result<Vec<String>, ME>,
) -> (r: Result<PushSession, MobPushError<ME, CE>>)
    ensures
        resolved matches Ok(aud) ==> (r matches Ok(s) && {
            &&& s.wf()
            &&& s.key() == cfg.key@
            &&& s.secret() == cfg.secret@
            &&& s.notify() == notify
            &&& s.forward() == forward.0
            &&& s.audience() == aud.deep_view()
            &&& s.sent() == 0
            &&& !s.aborted()
        }),
        resolved matches Err(e) ==> r == Result::<PushSession, MobPushError<ME, CE>>::Err(
            MobPushError::Manage(e),
        ),
{
    match resolved {
        Ok(audience) => Ok(PushSession::new(cfg, notify, forward, audience)),
        Err(e) => Err(MobPushError::Manage(e)),
    }
}

} // verus!
