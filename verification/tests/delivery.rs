use mob_push::push_forward::PushForward;
use mob_push::push_notify::android::AndroidNotify;
use mob_push::push_notify::ios::IosNotifyData;
use mob_push::pusher::create_push::{parse_respond, resolve_outcome, PushSession};
use mob_push::pusher::{push_url, sign, to_hex, Forward, PushNotify, MAX_BATCH_SIZE};
use mob_push::{MobPushConfig, MobPushError};

fn config() -> MobPushConfig {
    MobPushConfig::new("test_app_key".to_string(), "secret".to_string())
}

fn plain_notify() -> PushNotify {
    PushNotify {
        body: "hello".to_string(),
        title: "title".to_string(),
        android_notify: AndroidNotify::default(),
        ios_notify: IosNotifyData::default(),
    }
}

fn audience(n: usize) -> Vec<String> {
    (0..n).map(|i| format!("u{i}")).collect()
}

#[test]
fn signature_is_hex_md5_of_payload_then_secret() {
    let payload: Vec<u8> = b"{\"a\":1}".to_vec();
    let signature = sign(&payload, "secret");
    assert_eq!(
        String::from_utf8(signature).unwrap(),
        "9d77ac2a5f5ab17ecce362df118a25b8"
    );
}

#[test]
fn signature_is_deterministic() {
    let payload: Vec<u8> = b"same bytes".to_vec();
    assert_eq!(sign(&payload, "s"), sign(&payload, "s"));
    assert_ne!(sign(&payload, "s"), sign(&payload, "t"));
}

#[test]
fn hex_rendering() {
    assert_eq!(String::from_utf8(to_hex(&vec![0x00, 0xff, 0x1a])).unwrap(), "00ff1a");
    assert_eq!(String::from_utf8(to_hex(&Vec::new())).unwrap(), "");
}

#[test]
fn endpoint_is_fixed() {
    assert_eq!(push_url(), "http://api.push.mob.com/v3/push/createPush");
}

#[test]
fn session_of_2500_yields_three_batches_in_order() {
    let session = PushSession::new(&config(), plain_notify(), Forward(PushForward::HomePage),
        audience(2500));

    let mut sizes: Vec<usize> = Vec::new();
    let mut firsts: Vec<String> = Vec::new();
    let mut session = session;
    while let Some(req) = session.next_request() {
        assert_eq!(req.key, "test_app_key");
        let value: serde_json::Value = serde_json::from_slice(&req.body).unwrap();
        let rids = value.get("pushTarget").unwrap().get("rids").unwrap().as_array().unwrap();
        assert_eq!(rids.len(), req.batch_size);
        sizes.push(req.batch_size);
        firsts.push(rids[0].as_str().unwrap().to_string());

        let expected_sign = sign(&req.body, "secret");
        assert_eq!(req.sign, expected_sign);

        let err: Option<MobPushError<String, String>> =
            session.on_reply_bytes(&b"{\"status\":200}".to_vec());
        assert!(err.is_none());
    }
    assert_eq!(sizes, vec![MAX_BATCH_SIZE, MAX_BATCH_SIZE, 500]);
    assert_eq!(firsts, vec!["u0", "u1000", "u2000"]);
}

#[test]
fn session_of_empty_audience_sends_nothing() {
    let session = PushSession::new(&config(), plain_notify(), Forward(PushForward::HomePage),
        Vec::new());
    assert!(session.next_request().is_none());
}

#[test]
fn rejected_batch_stops_the_item() {
    let mut session = PushSession::new(&config(), plain_notify(), Forward(PushForward::HomePage),
        audience(1500));
    assert!(session.next_request().is_some());

    let ok: Option<MobPushError<String, String>> =
        session.on_reply_bytes(&b"{\"status\":200}".to_vec());
    assert!(ok.is_none());
    assert!(session.next_request().is_some());

    let err: Option<MobPushError<String, String>> =
        session.on_reply_bytes(&b"{\"status\":400,\"error\":\"bad key\"}".to_vec());
    match err {
        Some(MobPushError::Mob { state, msg }) => {
            assert_eq!(state, 400);
            assert_eq!(msg, "bad key");
        },
        other => panic!("expected a gateway rejection, got {:?}", other.is_some()),
    }
    assert!(session.next_request().is_none());
}

#[test]
fn malformed_reply_stops_the_item_with_json_error() {
    let mut session = PushSession::new(&config(), plain_notify(), Forward(PushForward::HomePage),
        audience(1));
    let err: Option<MobPushError<String, String>> =
        session.on_reply_bytes(&b"not json at all".to_vec());
    assert!(matches!(err, Some(MobPushError::Json(_))));
    assert!(session.next_request().is_none());
}

#[test]
fn reply_parsing() {
    let ok = parse_respond(&b"{\"status\":200}".to_vec()).unwrap();
    assert_eq!(ok.status, 200);
    assert!(ok.error.is_none());

    let rejected = parse_respond(&b"{\"status\":400,\"error\":\"bad key\"}".to_vec()).unwrap();
    assert_eq!(rejected.status, 400);
    assert_eq!(rejected.error.as_deref(), Some("bad key"));

    let with_res =
        parse_respond(&b"{\"status\":200,\"res\":{\"batchId\":\"b-1\"}}".to_vec()).unwrap();
    assert_eq!(with_res.status, 200);
    assert_eq!(with_res.res.as_deref(), Some("b-1"));
    assert!(ok.res.is_none());

    assert!(parse_respond(&b"{".to_vec()).is_err());
    assert!(parse_respond(&b"[]".to_vec()).is_err());
    assert!(parse_respond(&b"{\"status\":\"x\"}".to_vec()).is_err());
}

#[test]
fn store_failure_yields_wrapped_error_and_no_session() {
    let outcome: Result<PushSession, MobPushError<String, String>> = resolve_outcome(
        &config(),
        plain_notify(),
        Forward(PushForward::HomePage),
        Err("store is down".to_string()),
    );
    match outcome {
        Err(MobPushError::Manage(e)) => assert_eq!(e, "store is down"),
        _ => panic!("expected the wrapped store error"),
    }
}

#[test]
fn resolved_audience_yields_ready_session() {
    let outcome: Result<PushSession, MobPushError<String, String>> = resolve_outcome(
        &config(),
        plain_notify(),
        Forward(PushForward::HomePage),
        Ok(audience(2)),
    );
    let session = match outcome {
        Ok(s) => s,
        Err(_) => panic!("expected a session"),
    };
    let req = session.next_request().expect("one batch");
    assert_eq!(req.batch_size, 2);
}

#[test]
fn gateway_rejection_from_tuple() {
    let err: MobPushError<String, String> = MobPushError::from((503, "busy".to_string()));
    assert!(matches!(err, MobPushError::Mob { state: 503, ref msg } if msg == "busy"));
}
