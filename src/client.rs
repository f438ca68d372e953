//! The robot client's configuration and its constructors.
use vstd::prelude::*;
use crate::msg::DingTalkType;

verus! {

/// The default DingTalk robot endpoint.
pub const DEFAULT_DINGTALK_ROBOT_URL: &'static str = "https://oapi.dingtalk.com/robot/send";

/// The default WeChat Work robot endpoint.
pub const DEFAULT_WECHAT_WORK_ROBOT_URL: &'static str = "https://qyapi.weixin.qq.com/cgi-bin/webhook/send";

/// The endpoint of a robot. When `direct_url` is non-empty it is the whole
/// destination; otherwise the destination is assembled from the base URL, the
/// access token and, when `sec_token` is non-empty, a signature.
#[derive(Debug)]
pub struct DingTalk {
    pub dingtalk_type: DingTalkType,
    pub default_webhook_url: String,
    pub access_token: String,
    pub sec_token: String,
    pub direct_url: String,
}

/// The default base URL of a provider.
pub open spec fn default_url_of(t: DingTalkType) -> Seq<char> {
    match t {
        DingTalkType::DingTalk => DEFAULT_DINGTALK_ROBOT_URL@,
        DingTalkType::WeChatWork => DEFAULT_WECHAT_WORK_ROBOT_URL@,
    }
}

impl Default for DingTalk {
    fn default() -> (r: Self)
        ensures
            r.dingtalk_type == DingTalkType::DingTalk,
            r.default_webhook_url@.len() == 0,
            r.access_token@.len() == 0,
            r.sec_token@.len() == 0,
            r.direct_url@.len() == 0,
    {
        DingTalk {
            dingtalk_type: DingTalkType::DingTalk,
            default_webhook_url: String::new(),
            access_token: String::new(),
            sec_token: String::new(),
            direct_url: String::new(),
        }
    }
}

impl DingTalk {
    /// A DingTalk client on the default endpoint; `sec_token` may be empty,
    /// in which case requests are not signed.
    pub fn new(access_token: &str, sec_token: &str) -> (r: Self)
        ensures
            r.dingtalk_type == DingTalkType::DingTalk,
            r.default_webhook_url@ == DEFAULT_DINGTALK_ROBOT_URL@,
            r.access_token@ == access_token@,
            r.sec_token@ == sec_token@,
            r.direct_url@.len() == 0,
    {
        DingTalk {
            dingtalk_type: DingTalkType::DingTalk,
            default_webhook_url: DEFAULT_DINGTALK_ROBOT_URL.to_owned(),
            access_token: access_token.to_owned(),
            sec_token: sec_token.to_owned(),
            direct_url: String::new(),
        }
    }

    /// A WeChat Work client on the default endpoint, keyed by `key`, unsigned.
    pub fn new_wechat(key: &str) -> (r: Self)
        ensures
            r.dingtalk_type == DingTalkType::WeChatWork,
            r.default_webhook_url@ == DEFAULT_WECHAT_WORK_ROBOT_URL@,
            r.access_token@ == key@,
            r.sec_token@.len() == 0,
            r.direct_url@.len() == 0,
    {
        DingTalk {
            dingtalk_type: DingTalkType::WeChatWork,
            default_webhook_url: DEFAULT_WECHAT_WORK_ROBOT_URL.to_owned(),
            access_token: key.to_owned(),
            sec_token: String::new(),
            direct_url: String::new(),
        }
    }

    /// A client whose destination is `direct_url` as given (an outgoing robot).
    pub fn from_url(direct_url: &str) -> (r: Self)
        ensures
            r.dingtalk_type == DingTalkType::DingTalk,
            r.default_webhook_url@.len() == 0,
            r.access_token@.len() == 0,
            r.sec_token@.len() == 0,
            r.direct_url@ == direct_url@,
    {
        DingTalk {
            dingtalk_type: DingTalkType::DingTalk,
            default_webhook_url: String::new(),
            access_token: String::new(),
            sec_token: String::new(),
            direct_url: direct_url.to_owned(),
        }
    }

    /// Replaces the base webhook URL; nothing else changes.
    pub fn set_default_webhook_url(&mut self, default_webhook_url: &str)
        ensures
            final(self).default_webhook_url@ == default_webhook_url@,
            final(self).dingtalk_type == old(self).dingtalk_type,
            final(self).access_token == old(self).access_token,
            final(self).sec_token == old(self).sec_token,
            final(self).direct_url == old(self).direct_url,
    {
        self.default_webhook_url = default_webhook_url.to_owned();
    }
}

} // verus!
