use dingtalk::{
    DingTalkMessage, DingTalkMessageActionCardBtn, DingTalkMessageActionCardBtnOrientation,
    DingTalkMessageActionCardHideAvatar, DingTalkMessageFeedCardLink, DingTalkMessageType,
};
use serde_json::Value;

fn btn(title: &str, url: &str) -> DingTalkMessageActionCardBtn {
    DingTalkMessageActionCardBtn { title: title.to_string(), action_url: url.to_string() }
}

fn parse(m: &DingTalkMessage) -> Value {
    let body = m.to_json();
    serde_json::from_str(&body).unwrap()
}

fn keys(v: &Value) -> Vec<String> {
    let mut k: Vec<String> = v.as_object().unwrap().keys().cloned().collect();
    k.sort();
    k
}

#[test]
fn text_body_exact() {
    let m = DingTalkMessage::new_text("hello");
    assert_eq!(m.to_json(), r#"{"msgtype":"text","text":{"content":"hello"}}"#);
}

#[test]
fn text_body_escapes_strings() {
    let m = DingTalkMessage::new_text("a\"b\\c\nd");
    assert_eq!(m.to_json(), r#"{"msgtype":"text","text":{"content":"a\"b\\c\nd"}}"#);
    let v = parse(&m);
    assert_eq!(v["text"]["content"], "a\"b\\c\nd");
}

#[test]
fn markdown_shape() {
    let v = parse(&DingTalkMessage::new_markdown("T", "# body"));
    assert_eq!(v["msgtype"], "markdown");
    assert_eq!(keys(&v), vec!["markdown", "msgtype"]);
    assert_eq!(keys(&v["markdown"]), vec!["text", "title"]);
    assert_eq!(v["markdown"]["title"], "T");
    assert_eq!(v["markdown"]["text"], "# body");
}

#[test]
fn link_shape_uses_camel_case() {
    let v = parse(&DingTalkMessage::new_link("lt", "lx", "https://p/", "https://m/"));
    assert_eq!(v["msgtype"], "link");
    assert_eq!(keys(&v["link"]), vec!["messageUrl", "picUrl", "text", "title"]);
    assert_eq!(v["link"]["picUrl"], "https://p/");
    assert_eq!(v["link"]["messageUrl"], "https://m/");
}

#[test]
fn action_card_defaults() {
    let m = DingTalkMessage::new_action_card("t", "x");
    assert_eq!(
        m.to_json(),
        r#"{"msgtype":"actionCard","actionCard":{"title":"t","text":"x","hideAvatar":"0","btnOrientation":"0"}}"#
    );
}

#[test]
fn action_card_single_button_exact() {
    let m = DingTalkMessage::new_action_card("t", "x").set_action_card_signle_btn(btn("s", "u"));
    assert_eq!(
        m.to_json(),
        r#"{"msgtype":"actionCard","actionCard":{"title":"t","text":"x","hideAvatar":"0","btnOrientation":"0","singleTitle":"s","singleURL":"u"}}"#
    );
}

#[test]
fn action_card_single_button_suppresses_list() {
    let before = DingTalkMessage::new_action_card("t", "x")
        .add_action_card_btn(btn("a", "https://a/"))
        .set_action_card_signle_btn(btn("s", "https://s/"))
        .add_action_card_btn(btn("b", "https://b/"));
    let v = parse(&before);
    assert!(v["actionCard"].get("btns").is_none());
    assert_eq!(v["actionCard"]["singleTitle"], "s");
    assert_eq!(v["actionCard"]["singleURL"], "https://s/");
    let plain = DingTalkMessage::new_action_card("t", "x").set_action_card_signle_btn(btn("s", "https://s/"));
    assert_eq!(before.to_json(), plain.to_json());
}

#[test]
fn action_card_button_list_in_order() {
    let m = DingTalkMessage::new_action_card("t", "x")
        .action_card_hide_avatar()
        .action_card_btn_landscape()
        .add_action_card_btn(btn("one", "https://1/"))
        .add_action_card_btn(btn("two", "https://2/"));
    let v = parse(&m);
    assert_eq!(v["actionCard"]["hideAvatar"], "1");
    assert_eq!(v["actionCard"]["btnOrientation"], "1");
    let btns = v["actionCard"]["btns"].as_array().unwrap();
    assert_eq!(btns.len(), 2);
    assert_eq!(keys(&btns[0]), vec!["actionURL", "title"]);
    assert_eq!(btns[0]["title"], "one");
    assert_eq!(btns[1]["actionURL"], "https://2/");
    assert!(v["actionCard"].get("singleTitle").is_none());
}

#[test]
fn action_card_flags_can_be_reset() {
    let m = DingTalkMessage::new_action_card("t", "x")
        .action_card_hide_avatar()
        .action_card_show_avatar()
        .action_card_btn_landscape()
        .action_card_btn_vertical();
    assert_eq!(m.action_card_hide_avatar, DingTalkMessageActionCardHideAvatar::Show);
    assert_eq!(m.action_card_btn_orientation, DingTalkMessageActionCardBtnOrientation::Vertical);
    let v = parse(&m);
    assert_eq!(v["actionCard"]["hideAvatar"], "0");
    assert_eq!(v["actionCard"]["btnOrientation"], "0");
}

#[test]
fn feed_card_shape() {
    let m = DingTalkMessage::new_feed_card()
        .add_feed_card_link(DingTalkMessageFeedCardLink {
            title: "f1".to_string(),
            message_url: "https://m1/".to_string(),
            pic_url: "https://p1/".to_string(),
        })
        .add_feed_card_link_detail("f2", "https://m2/", "https://p2/");
    let v = parse(&m);
    assert_eq!(v["msgtype"], "feedCard");
    let links = v["feedCard"]["links"].as_array().unwrap();
    assert_eq!(links.len(), 2);
    assert_eq!(keys(&links[0]), vec!["messageURL", "picURL", "title"]);
    assert_eq!(links[1]["title"], "f2");
    assert_eq!(links[1]["messageURL"], "https://m2/");
    assert_eq!(links[1]["picURL"], "https://p2/");
}

#[test]
fn empty_feed_card() {
    let m = DingTalkMessage::new_feed_card();
    assert_eq!(m.to_json(), r#"{"msgtype":"feedCard","feedCard":{"links":[]}}"#);
}

#[test]
fn mention_block_absent_by_default() {
    let v = parse(&DingTalkMessage::new_text("x"));
    assert!(v.get("at").is_none());
}

#[test]
fn mention_block_for_at_all() {
    let m = DingTalkMessage::new_text("x").at_all();
    assert_eq!(
        m.to_json(),
        r#"{"msgtype":"text","text":{"content":"x"},"at":{"atMobiles":[],"isAtAll":true}}"#
    );
}

#[test]
fn mention_block_for_mobiles_keeps_order_and_duplicates() {
    let mobiles = vec!["139".to_string(), "138".to_string(), "139".to_string()];
    let v = parse(&DingTalkMessage::new_markdown("t", "b").at_mobiles(&mobiles));
    assert_eq!(v["at"]["isAtAll"], false);
    let at = v["at"]["atMobiles"].as_array().unwrap();
    assert_eq!(at.len(), 3);
    assert_eq!(at[0], "139");
    assert_eq!(at[1], "138");
    assert_eq!(at[2], "139");
}

#[test]
fn inactive_fields_do_not_reach_body() {
    let plain = DingTalkMessage::new_text("x");
    let noisy = DingTalkMessage::new_text("x")
        .markdown("mt", "mc")
        .link("a", "b", "c", "d")
        .add_feed_card_link_detail("f", "g", "h")
        .add_action_card_btn(btn("q", "r"));
    assert_eq!(plain.to_json(), noisy.to_json());
}

#[test]
fn every_kind_has_matching_discriminator() {
    let all = vec![
        (DingTalkMessageType::Text, "text"),
        (DingTalkMessageType::Markdown, "markdown"),
        (DingTalkMessageType::Link, "link"),
        (DingTalkMessageType::ActionCard, "actionCard"),
        (DingTalkMessageType::FeedCard, "feedCard"),
    ];
    for (t, tag) in all {
        let v = parse(&DingTalkMessage::new(t));
        assert_eq!(v["msgtype"], tag);
        assert!(v[tag].is_object());
        assert_eq!(keys(&v).len(), 2);
    }
}

#[test]
fn new_message_has_defaults() {
    let m = DingTalkMessage::new(DingTalkMessageType::Link);
    assert_eq!(m.message_type, DingTalkMessageType::Link);
    assert!(m.text_content.is_empty());
    assert!(m.action_card_single_btn.is_none());
    assert!(m.action_card_btns.is_empty());
    assert!(!m.at_all);
    assert!(m.at_mobiles.is_empty());
    assert_eq!(DingTalkMessageType::default(), DingTalkMessageType::Text);
}

#[test]
fn default_message_is_empty_text() {
    let m = DingTalkMessage::default();
    assert_eq!(m.message_type, DingTalkMessageType::Text);
    assert_eq!(m.to_json(), r#"{"msgtype":"text","text":{"content":""}}"#);
}
