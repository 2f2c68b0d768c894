use mob_push::push_forward::{PushForward, Scheme};
use mob_push::push_notify::android::AndroidNotify;
use mob_push::push_notify::ios::IosNotifyData;
use mob_push::push_notify::android::{CustomStyle, StyleId};
use mob_push::pusher::{CreatePush, Forward, PushNotify, PushTarget, MAX_BATCH_SIZE};

fn plain_notify(content: &str, title: &str) -> PushNotify {
    PushNotify {
        body: content.to_string(),
        title: title.to_string(),
        android_notify: AndroidNotify::default(),
        ios_notify: IosNotifyData::default(),
    }
}

#[test]
fn test_serde() {
    let c = CreatePush {
        push_target: PushTarget { target_user: vec!["abc".to_string(), "cdde".to_string()] },
        push_notify: plain_notify("{\"aab\":11}", "12345"),
        push_forward: Forward(PushForward::HomePage),
    };

    let string = String::from_utf8(c.serialize("test_app_key")).unwrap();
    assert_eq!(
        string,
        "{\"source\":\"webapi\",\"appkey\":\"test_app_key\",\"pushTarget\":{\"target\":4,\"rids\":[\"abc\",\"cdde\"]},\"pushNotify\":{\"plats\":[1,2],\"content\":\"{\\\"aab\\\":11}\",\"type\":1,\"title\":\"12345\"},\"pushForward\":{}}"
    );
}

#[test]
fn batcher_pulls_up_to_batch_size_in_order() {
    let users: Vec<String> = (0..2500).map(|i| format!("u{i}")).collect();

    let first = PushTarget::new(&users, 0).expect("a first batch");
    assert_eq!(first.target_user.len(), MAX_BATCH_SIZE);
    assert_eq!(first.target_user[0], "u0");
    assert_eq!(first.target_user[999], "u999");

    let second = PushTarget::new(&users, MAX_BATCH_SIZE).expect("a second batch");
    assert_eq!(second.target_user.len(), MAX_BATCH_SIZE);
    assert_eq!(second.target_user[0], "u1000");

    let third = PushTarget::new(&users, 2 * MAX_BATCH_SIZE).expect("a third batch");
    assert_eq!(third.target_user.len(), 500);
    assert_eq!(third.target_user[0], "u2000");
    assert_eq!(third.target_user[499], "u2499");

    assert!(PushTarget::new(&users, 2500).is_none());
}

#[test]
fn batcher_yields_nothing_for_empty_audience() {
    let users: Vec<String> = Vec::new();
    assert!(PushTarget::new(&users, 0).is_none());
}

#[test]
fn batcher_final_partial_batch() {
    let users: Vec<String> = (0..3).map(|i| format!("m{i}")).collect();
    let only = PushTarget::new(&users, 0).expect("one batch");
    assert_eq!(only.target_user, vec!["m0", "m1", "m2"]);
    assert!(PushTarget::new(&users, 3).is_none());
}

#[test]
fn notify_document_embeds_present_extensions() {
    let mut notify = plain_notify("hello", "title");
    notify.android_notify.set_badge(mob_push::push_notify::android::Badge::new_add(2));
    let value: serde_json::Value = serde_json::from_slice(&notify.to_bytes()).unwrap();
    let obj = value.as_object().unwrap();
    assert_eq!(obj.len(), 5);
    assert_eq!(value.get("content").and_then(|v| v.as_str()), Some("hello"));
    assert_eq!(value.get("type").and_then(|v| v.as_u64()), Some(1));
    let android = value.get("androidNotify").unwrap().as_object().unwrap();
    assert_eq!(android.len(), 2);
    assert!(value.get("iosNotify").is_none());
}

#[test]
fn forward_variants_render_their_fields() {
    let home = Forward(PushForward::HomePage);
    assert_eq!(String::from_utf8(home.to_bytes()).unwrap(), "{}");

    let link = Forward(PushForward::LinkUrl("https://example.com/a".to_string()));
    assert_eq!(
        String::from_utf8(link.to_bytes()).unwrap(),
        "{\"nextType\":1,\"url\":\"https://example.com/a\"}"
    );

    let scheme = Forward(PushForward::SchemeJump(Scheme::new("app://detail/11".to_string())));
    assert_eq!(
        String::from_utf8(scheme.to_bytes()).unwrap(),
        "{\"nextType\":2,\"scheme\":\"app://detail/11\"}"
    );
}

#[test]
fn string_escaping_round_trips() {
    let tricky = "quote \" backslash \\ newline \n tab \t unicode 小刻";
    let c = CreatePush {
        push_target: PushTarget { target_user: vec![tricky.to_string()] },
        push_notify: plain_notify(tricky, "t\"t"),
        push_forward: Forward(PushForward::HomePage),
    };
    let bytes = c.serialize("k");
    let value: serde_json::Value = serde_json::from_slice(&bytes).unwrap();
    assert_eq!(
        value.get("pushNotify").unwrap().get("content").unwrap().as_str(),
        Some(tricky)
    );
    assert_eq!(
        value.get("pushTarget").unwrap().get("rids").unwrap().get(0).unwrap().as_str(),
        Some(tricky)
    );
}

struct Cookie;

impl mob_push::PushEntity for Cookie {
    type Resource = i32;

    fn get_resource(&self) -> &Self::Resource {
        &11
    }

    fn get_send_content(&self) -> String {
        "fresh cookie".to_string()
    }
}

#[test]
fn entity_defaults_flow_into_the_document() {
    let notify = PushNotify::new_with_builder(&Cookie);
    assert_eq!(notify.body, "fresh cookie");
    assert_eq!(notify.title, "新饼来袭");

    let forward = Forward::new(&Cookie);
    assert_eq!(String::from_utf8(forward.to_bytes()).unwrap(), "{}");

    let value: serde_json::Value = serde_json::from_slice(&notify.to_bytes()).unwrap();
    assert_eq!(value.as_object().unwrap().len(), 4);
    assert_eq!(value.get("title").and_then(|v| v.as_str()), Some("新饼来袭"));
}

struct Customized;

impl mob_push::PushEntity for Customized {
    type Resource = i32;

    fn get_resource(&self) -> &Self::Resource {
        &15
    }

    fn get_send_content(&self) -> String {
        "body".to_string()
    }

    fn get_title(&self) -> String {
        "custom title".to_string()
    }

    fn android_notify(&self, notify: &mut mob_push::push_notify::android::AndroidNotify) {
        notify.set_image(mob_push::push_notify::android::Image::new_icon(
            "https://www.mob.com/favicon.ico".to_string(),
        ));
    }

    fn push_forward(&self, push_forward: &mut PushForward) {
        *push_forward = PushForward::LinkUrl("https://example.com".to_string());
    }
}

#[test]
fn entity_customisations_flow_into_the_document() {
    let notify = PushNotify::new_with_builder(&Customized);
    let value: serde_json::Value = serde_json::from_slice(&notify.to_bytes()).unwrap();
    assert_eq!(value.as_object().unwrap().len(), 5);
    assert_eq!(
        value.get("androidNotify").unwrap().get("icon").and_then(|v| v.as_str()),
        Some("https://www.mob.com/favicon.ico")
    );

    let forward = Forward::new(&Customized);
    assert_eq!(
        String::from_utf8(forward.to_bytes()).unwrap(),
        "{\"nextType\":1,\"url\":\"https://example.com\"}"
    );
}

#[test]
fn custom_style_optional_fields() {
    let mut style = CustomStyle::new(StyleId::Two);
    style.set_button_copy("copy".to_string());
    style.set_background_url("https://example.com/bg.jpg".to_string());
    style.set_button_jump_url("https://example.com/go".to_string());
    assert_eq!(
        String::from_utf8(style.to_bytes()).unwrap(),
        "{\"style\":2,\"buttonCopy\":\"copy\",\"backgroundUrl\":\"https://example.com/bg.jpg\",\"buttonJumpUrl\":\"https://example.com/go\"}"
    );
}
