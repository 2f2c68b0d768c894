use mob_push::push_notify::android::{
    AndroidNotify, Badge, CustomStyle, Image, NotifyStyle, Sound, StyleId, Warn,
};
use mob_push::push_notify::ios::{
    ApnPush, IosBadge, IosBadgeType, IosNotify, IosNotifyData, IosPushSound, IosRichText,
    IosRichTextType,
};

fn to_json(bytes: Vec<u8>) -> serde_json::Value {
    serde_json::from_slice(&bytes).expect("rendered document must be valid JSON")
}

#[test]
fn test_builder() {
    let mut notify = AndroidNotify::default();
    notify.set_notify_style(NotifyStyle::new_big_vision(
        "https://i0.hdslb.com/bfs/archive/94bdaa89d9e1775f04bdfb705512a61e5de70628.jpg@672w_378h_1c"
            .to_string(),
    ));
    notify.set_badge(Badge::new_add(1));
    notify.set_sound(Sound::new("114514".to_string()));
    notify.set_warn(Warn::new(true, true, true));

    let string = String::from_utf8(notify.to_bytes()).unwrap();
    assert_eq!(
        string,
        "{\"style\":2,\"image\":\"https://i0.hdslb.com/bfs/archive/94bdaa89d9e1775f04bdfb705512a61e5de70628.jpg@672w_378h_1c\",\"badge\":1,\"badgeType\":2,\"sound\":\"114514\",\"warn\":\"123\"}"
    );
}

#[test]
fn test_modify() {
    let mut notify = AndroidNotify::default();
    notify.set_notify_style(NotifyStyle::new_custom(CustomStyle::new(StyleId::One)));
    notify.set_badge(Badge::Add(1));
    notify.set_warn(Warn::new(true, false, true));

    let string = String::from_utf8(notify.to_bytes()).unwrap();
    assert_eq!(
        string,
        "{\"style\":4,\"customStyle\":{\"style\":1},\"badge\":1,\"badgeType\":2,\"warn\":\"13\"}"
    );
}

struct Test;

impl IosNotify for Test {
    fn subtitle(&self) -> Option<String> {
        Some("Test Sub Title".to_string())
    }

    fn content_available(&self) -> Option<()> {
        Some(())
    }
}

impl IosBadge for Test {
    fn get_badge(&self) -> Option<IosBadgeType> {
        Some(IosBadgeType::Adding(12))
    }
}

impl ApnPush for Test {
    fn sound(&self) -> Option<IosPushSound> {
        Some(IosPushSound::Custom("123456".to_string()))
    }
}

impl IosRichText for Test {}

#[test]
fn test() {
    let wrap = IosNotifyData::from_notify(&Test);
    assert_eq!(wrap.need_felid(), 5);

    let out = String::from_utf8(wrap.to_bytes()).unwrap();
    assert_eq!(
        out,
        "{\"badge\":12,\"badgeType\":2,\"sound\":\"123456\",\"subtitle\":\"Test Sub Title\",\"contentAvailable\":1}"
    );
}

#[test]
fn empty_extensions_have_no_fields() {
    let android = AndroidNotify::default();
    assert!(!android.need_serialize());
    assert_eq!(String::from_utf8(android.to_bytes()).unwrap(), "{}");

    let ios = IosNotifyData::default();
    assert!(!ios.need_serialize());
    assert_eq!(ios.need_felid(), 0);
    assert_eq!(String::from_utf8(ios.to_bytes()).unwrap(), "{}");
}

#[test]
fn declared_count_matches_written_fields() {
    // Every combination of present/absent extensions: the object parses and
    // holds exactly as many fields as were declared.
    for style in [None, Some(NotifyStyle::new_long_content("line\nline".to_string()))] {
        for badge in [None, Some(Badge::new_abs(7))] {
            for image in [None, Some(Image::new_image("https://example.com/i.png".to_string()))] {
                for sound in [None, Some(Sound::new("ding".to_string()))] {
                    for warn in [None, Some(Warn::new(false, true, false))] {
                        let notify = AndroidNotify {
                            notify_style: style.as_ref().map(clone_style),
                            badge,
                            image: image.as_ref().map(clone_image),
                            sound: sound.as_ref().map(|s| Sound::new(s.0.clone())),
                            warn,
                        };
                        let declared = count_android_fields(&notify);
                        let value = to_json(notify.to_bytes());
                        let obj = value.as_object().expect("an object");
                        assert_eq!(obj.len(), declared);
                    }
                }
            }
        }
    }
}

fn clone_style(s: &NotifyStyle) -> NotifyStyle {
    match s {
        NotifyStyle::LongContent(c) => NotifyStyle::LongContent(c.clone()),
        NotifyStyle::BigVision(u) => NotifyStyle::BigVision(u.clone()),
        NotifyStyle::Banner(v) => NotifyStyle::Banner(v.clone()),
        NotifyStyle::Custom(c) => NotifyStyle::Custom(CustomStyle {
            style: c.style,
            button_copy: c.button_copy.clone(),
            background_url: c.background_url.clone(),
            button_jump_url: c.button_jump_url.clone(),
        }),
    }
}

fn clone_image(i: &Image) -> Image {
    match i {
        Image::Icon(u) => Image::Icon(u.clone()),
        Image::Picture(u) => Image::Picture(u.clone()),
    }
}

fn count_android_fields(n: &AndroidNotify) -> usize {
    let mut count = 0;
    if n.notify_style.is_some() {
        count += 2;
    }
    if n.badge.is_some() {
        count += 2;
    }
    if n.image.is_some() {
        count += 1;
    }
    if n.sound.is_some() {
        count += 1;
    }
    if n.warn.is_some() {
        count += 1;
    }
    count
}

#[test]
fn ios_negative_badge_and_silent_sound() {
    let data = IosNotifyData {
        badge: Some(IosBadgeType::Adding(-3)),
        category: None,
        sound: Some(IosPushSound::Silent),
        subtitle: None,
        content_available: false,
        rich_text: None,
    };
    assert_eq!(
        String::from_utf8(data.to_bytes()).unwrap(),
        "{\"badge\":-3,\"badgeType\":2,\"sound\":null}"
    );
}

#[test]
fn ios_rich_text_field_counts() {
    let mut data = IosNotifyData::default();
    data.rich_text = Some(IosRichTextType::NoAttachment);
    assert_eq!(data.need_felid(), 1);
    assert_eq!(String::from_utf8(data.to_bytes()).unwrap(), "{\"mutableContent\":1}");

    data.rich_text = Some(IosRichTextType::Picture("https://example.com/p.jpg".to_string()));
    assert_eq!(data.need_felid(), 3);
    assert_eq!(
        String::from_utf8(data.to_bytes()).unwrap(),
        "{\"mutableContent\":1,\"attachmentType\":1,\"attachment\":\"https://example.com/p.jpg\"}"
    );

    data.rich_text = Some(IosRichTextType::Voice("v".to_string()));
    let value = to_json(data.to_bytes());
    assert_eq!(value.get("attachmentType").and_then(|v| v.as_u64()), Some(3));
}

#[test]
fn warn_codes() {
    assert_eq!(Warn::new(true, true, true).code(), "123");
    assert_eq!(Warn::new(false, false, false).code(), "");
    assert_eq!(Warn::new(false, true, false).code(), "2");
    assert_eq!(Warn::new(true, false, true).code(), "13");
}

#[test]
fn banner_style_renders_line_array() {
    let mut notify = AndroidNotify::default();
    notify.set_notify_style(NotifyStyle::new_banner(vec![
        "first".to_string(),
        "second".to_string(),
    ]));
    assert_eq!(
        String::from_utf8(notify.to_bytes()).unwrap(),
        "{\"style\":3,\"content\":[\"first\",\"second\"]}"
    );
}
