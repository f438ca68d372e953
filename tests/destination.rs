use dingtalk::signer::{append_signature, credential_url, decimal_string, join_query, signature_at};
use dingtalk::{DingTalk, DingTalkType};

#[test]
fn unsigned_dingtalk_url() {
    let dt = DingTalk::new("abc", "");
    assert_eq!(dt.signed_url_at(0), "https://oapi.dingtalk.com/robot/send?access_token=abc");
    assert_eq!(dt.generate_signed_url().unwrap(), "https://oapi.dingtalk.com/robot/send?access_token=abc");
}

#[test]
fn unsigned_wechat_url_uses_key() {
    let dt = DingTalk::new_wechat("k-1");
    assert_eq!(
        dt.generate_signed_url().unwrap(),
        "https://qyapi.weixin.qq.com/cgi-bin/webhook/send?key=k-1"
    );
}

#[test]
fn token_is_url_encoded() {
    let dt = DingTalk::new("a b&c", "");
    assert_eq!(dt.signed_url_at(0), "https://oapi.dingtalk.com/robot/send?access_token=a%20b%26c");
}

#[test]
fn joiner_after_trailing_question_mark() {
    assert_eq!(join_query("https://h/p?"), "https://h/p?");
    let mut dt = DingTalk::new("abc", "");
    dt.set_default_webhook_url("https://h/p?");
    assert_eq!(dt.signed_url_at(0), "https://h/p?access_token=abc");
}

#[test]
fn joiner_after_existing_query() {
    assert_eq!(join_query("https://h/p?x=1"), "https://h/p?x=1&");
    assert_eq!(join_query("https://h/p?x=1&"), "https://h/p?x=1&");
    assert_eq!(join_query("https://h/p"), "https://h/p?");
    assert_eq!(join_query(""), "?");
    let mut dt = DingTalk::new_wechat("k");
    dt.set_default_webhook_url("https://h/p?param=x");
    assert_eq!(dt.signed_url_at(0), "https://h/p?param=x&key=k");
}

#[test]
fn set_default_webhook_url_keeps_credentials() {
    let mut dt = DingTalk::new("abc", "sec");
    dt.set_default_webhook_url("https://other/");
    assert_eq!(dt.default_webhook_url, "https://other/");
    assert_eq!(dt.access_token, "abc");
    assert_eq!(dt.sec_token, "sec");
    assert_eq!(dt.dingtalk_type, DingTalkType::DingTalk);
}

#[test]
fn decimal_of_numbers() {
    assert_eq!(decimal_string(0), "0");
    assert_eq!(decimal_string(7), "7");
    assert_eq!(decimal_string(10), "10");
    assert_eq!(decimal_string(1600000000000), "1600000000000");
    assert_eq!(decimal_string(u64::MAX as u128), "18446744073709551615");
    assert_eq!(decimal_string(u128::MAX), "340282366920938463463374607431768211455");
}

#[test]
fn signature_known_value() {
    assert_eq!(
        signature_at("SECabc", 1600000000000),
        "ABcUcMOwyGGKmiNbHqEbhvKpuIGkMXqT1gAGfAAmnk8="
    );
}

#[test]
fn signature_changes_with_timestamp() {
    let a = signature_at("SECabc", 1600000000000);
    let b = signature_at("SECabc", 1600000000001);
    assert_ne!(a, b);
    assert_eq!(b, "VJJ7UBaUYsJQo+VLit+SvxD8LDGW1ODOwldv0I2TC9o=");
    for s in [a, b] {
        assert_eq!(s.len(), 44);
        assert_eq!(base64::decode(&s).unwrap().len(), 32);
    }
}

#[test]
fn signed_url_known_value() {
    let dt = DingTalk::new("abc", "SECabc");
    let url = dt.signed_url_at(1600000000001);
    assert_eq!(
        url,
        "https://oapi.dingtalk.com/robot/send?access_token=abc&timestamp=1600000000001&sign=VJJ7UBaUYsJQo%2BVLit%2BSvxD8LDGW1ODOwldv0I2TC9o%3D"
    );
    let sign = url.split("&sign=").nth(1).unwrap();
    let decoded = urlencoding::decode(sign).unwrap();
    assert_eq!(base64::decode(&decoded).unwrap().len(), 32);
}

#[test]
fn signed_url_now_has_timestamp_and_sign() {
    let dt = DingTalk::new("abc", "SECabc");
    let url = dt.generate_signed_url().unwrap();
    assert!(url.starts_with("https://oapi.dingtalk.com/robot/send?access_token=abc&timestamp="));
    let rest = url.split("&timestamp=").nth(1).unwrap();
    let mut parts = rest.split("&sign=");
    let stamp = parts.next().unwrap();
    assert!(stamp.parse::<u64>().unwrap() > 1600000000000);
    let sign = urlencoding::decode(parts.next().unwrap()).unwrap();
    assert_eq!(base64::decode(&sign).unwrap().len(), 32);
}

#[test]
fn direct_url_short_circuits() {
    let dt = DingTalk::from_url("https://direct/x?y=1");
    assert_eq!(dt.generate_signed_url().unwrap(), "https://direct/x?y=1");
    let mut signed = DingTalk::new("abc", "SECabc");
    signed.direct_url = "https://direct/z".to_string();
    assert_eq!(signed.signed_url_at(5), "https://direct/z");
    assert_eq!(signed.generate_signed_url().unwrap(), "https://direct/z");
}

#[test]
fn credential_url_from_encoded_token() {
    assert_eq!(credential_url("https://h/p", DingTalkType::DingTalk, "a%20b"), "https://h/p?access_token=a%20b");
    assert_eq!(credential_url("https://h/p?x=1", DingTalkType::WeChatWork, "k"), "https://h/p?x=1&key=k");
}

#[test]
fn append_signature_parameters() {
    assert_eq!(
        append_signature("https://h/p?key=k".to_string(), 42, "s%3D"),
        "https://h/p?key=k&timestamp=42&sign=s%3D"
    );
}
