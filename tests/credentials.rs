use dingtalk::config::provider_from_name;
use dingtalk::error::delivery_outcome;
use dingtalk::{DingTalk, DingTalkError, DingTalkType};

#[test]
fn dingtalk_token_with_secret() {
    let dt = DingTalk::from_token("dingtalk:tok?sec").unwrap();
    assert_eq!(dt.dingtalk_type, DingTalkType::DingTalk);
    assert_eq!(dt.access_token, "tok");
    assert_eq!(dt.sec_token, "sec");
    assert_eq!(dt.default_webhook_url, "https://oapi.dingtalk.com/robot/send");
    assert_eq!(dt.direct_url, "");
}

#[test]
fn dingtalk_token_without_secret() {
    let dt = DingTalk::from_token("dingtalk:tok").unwrap();
    assert_eq!(dt.access_token, "tok");
    assert_eq!(dt.sec_token, "");
}

#[test]
fn dingtalk_token_secret_stops_at_next_question_mark() {
    let dt = DingTalk::from_token("dingtalk:a?b?c").unwrap();
    assert_eq!(dt.access_token, "a");
    assert_eq!(dt.sec_token, "b");
}

#[test]
fn wechatwork_and_wecom_tokens() {
    for t in ["wechatwork:key1", "wecom:key1"] {
        let dt = DingTalk::from_token(t).unwrap();
        assert_eq!(dt.dingtalk_type, DingTalkType::WeChatWork);
        assert_eq!(dt.access_token, "key1");
        assert_eq!(dt.sec_token, "");
        assert_eq!(dt.default_webhook_url, "https://qyapi.weixin.qq.com/cgi-bin/webhook/send");
    }
}

#[test]
fn unknown_prefix_is_token_format_error() {
    assert_eq!(DingTalk::from_token("slack:abc").unwrap_err(), DingTalkError::TokenFormat);
    assert_eq!(DingTalk::from_token("").unwrap_err(), DingTalkError::TokenFormat);
    assert_eq!(DingTalk::from_token("dingtalk").unwrap_err(), DingTalkError::TokenFormat);
}

#[test]
fn config_record_full() {
    let dt = DingTalk::from_json(
        r#"{"type":"WeCom","default_webhook_url":"https://h/","access_token":"k","sec_token":"s","direct_url":"https://d/"}"#,
    )
    .unwrap();
    assert_eq!(dt.dingtalk_type, DingTalkType::WeChatWork);
    assert_eq!(dt.default_webhook_url, "https://h/");
    assert_eq!(dt.access_token, "k");
    assert_eq!(dt.sec_token, "s");
    assert_eq!(dt.direct_url, "https://d/");
}

#[test]
fn config_record_defaults() {
    let dt = DingTalk::from_json(r#"{"access_token":"t"}"#).unwrap();
    assert_eq!(dt.dingtalk_type, DingTalkType::DingTalk);
    assert_eq!(dt.default_webhook_url, "https://oapi.dingtalk.com/robot/send");
    assert_eq!(dt.access_token, "t");
    assert_eq!(dt.sec_token, "");
    assert_eq!(dt.direct_url, "");
    let wx = DingTalk::from_json(r#"{"type":"WECHAT","access_token":"t"}"#).unwrap();
    assert_eq!(wx.default_webhook_url, "https://qyapi.weixin.qq.com/cgi-bin/webhook/send");
}

#[test]
fn config_record_malformed() {
    assert_eq!(DingTalk::from_json("[1,2]").unwrap_err(), DingTalkError::ConfigFormat);
    assert_eq!(DingTalk::from_json("{not json").unwrap_err(), DingTalkError::ConfigFormat);
}

#[test]
fn provider_names() {
    assert_eq!(provider_from_name("wechat"), DingTalkType::WeChatWork);
    assert_eq!(provider_from_name("wechatwork"), DingTalkType::WeChatWork);
    assert_eq!(provider_from_name("wecom"), DingTalkType::WeChatWork);
    assert_eq!(provider_from_name("dingtalk"), DingTalkType::DingTalk);
    assert_eq!(provider_from_name("WeCom"), DingTalkType::DingTalk);
    assert_eq!(provider_from_name(""), DingTalkType::DingTalk);
}

#[test]
fn from_config_fields_exact() {
    let dt = DingTalk::from_config_fields(DingTalkType::WeChatWork, None, Some("k".to_string()), None, None);
    assert_eq!(dt.default_webhook_url, "https://qyapi.weixin.qq.com/cgi-bin/webhook/send");
    assert_eq!(dt.access_token, "k");
    assert_eq!(dt.sec_token, "");
}

#[test]
fn delivery_status_200_is_success() {
    assert_eq!(delivery_outcome(200), Ok(()));
}

#[test]
fn delivery_other_status_carries_code() {
    assert_eq!(delivery_outcome(404), Err(DingTalkError::Delivery(404)));
    assert_eq!(delivery_outcome(500), Err(DingTalkError::Delivery(500)));
    assert_eq!(delivery_outcome(201), Err(DingTalkError::Delivery(201)));
}

#[test]
fn default_client_is_empty_dingtalk() {
    let dt = DingTalk::default();
    assert_eq!(dt.dingtalk_type, DingTalkType::DingTalk);
    assert_eq!(dt.default_webhook_url, "");
    assert_eq!(DingTalkType::default(), DingTalkType::DingTalk);
}
