//! Reading a client from a JSON configuration record with the keys `type`,
//! `default_webhook_url`, `access_token`, `sec_token` and `direct_url`.
use vstd::prelude::*;
use crate::error::DingTalkError;
use crate::msg::DingTalkType;
use crate::client::{DingTalk, default_url_of, DEFAULT_DINGTALK_ROBOT_URL, DEFAULT_WECHAT_WORK_ROBOT_URL};
use crate::token::same_text;

verus! {

/// The string fields of a configuration record, each `None` when the key is
/// missing or does not hold a string.
pub struct ConfigRecord {
    pub kind: Option<String>,
    pub default_webhook_url: Option<String>,
    pub access_token: Option<String>,
    pub sec_token: Option<String>,
    pub direct_url: Option<String>,
}

/// What `str::to_lowercase` returns for `s`.
pub uninterp spec fn lower_of(s: Seq<char>) -> Seq<char>;

/// Whether serde_json reads the text `s` as a JSON object.
pub uninterp spec fn json_object_doc(s: Seq<char>) -> bool;

/// The string that serde_json finds under `key` at the top level of the JSON
/// object `s`; `None` when the key is missing or holds no string.
pub uninterp spec fn json_str_field(s: Seq<char>, key: Seq<char>) -> Option<Seq<char>>;

pub open spec fn opt_view(o: Option<String>) -> Option<Seq<char>> {
    match o {
        Some(t) => Some(t@),
        None => None,
    }
}

pub open spec fn or_empty(o: Option<Seq<char>>) -> Seq<char> {
    match o {
        Some(t) => t,
        None => Seq::empty(),
    }
}

/// Relies on `serde_json::from_str` into a `serde_json::Value`: when the text
/// is a JSON object, the strings under the five keys (via `Map::get` and
/// `Value::as_str`), else `None`.
#[verifier::external_body]
fn read_config(json: &str) -> (r: Option<ConfigRecord>)
    ensures
        r is Some <==> json_object_doc(json@),
        r matches Some(c) ==> (opt_view(c.kind) == json_str_field(json@, "type"@) && opt_view(
            c.default_webhook_url,
        ) == json_str_field(json@, "default_webhook_url"@) && opt_view(c.access_token)
            == json_str_field(json@, "access_token"@) && opt_view(c.sec_token) == json_str_field(
            json@,
            "sec_token"@,
        ) && opt_view(c.direct_url) == json_str_field(json@, "direct_url"@)),
{
    match serde_json::from_str::<serde_json::Value>(json) {
        Ok(serde_json::Value::Object(m)) => {
            let text = |k: &str| m.get(k).and_then(serde_json::Value::as_str).map(String::from);
            Some(ConfigRecord {
                kind: text("type"),
                default_webhook_url: text("default_webhook_url"),
                access_token: text("access_token"),
                sec_token: text("sec_token"),
                direct_url: text("direct_url"),
            })
        },
        _ => None,
    }
}

/// Relies on `str::to_lowercase`: the lowercase form of `s`, which depends on
/// the characters of `s` alone; the empty string stays empty.
#[verifier::external_body]
fn lowercase(s: &str) -> (r: String)
    ensures
        r@ == lower_of(s@),
        s@.len() == 0 ==> r@.len() == 0,
{
    s.to_lowercase()
}

/// The provider named by a lowercased `type` value: `wechat`, `wechatwork`
/// and `wecom` name WeChat Work, anything else DingTalk.
pub open spec fn provider_named(lowered: Seq<char>) -> DingTalkType {
    if lowered == "wechat"@ || lowered == "wechatwork"@ || lowered == "wecom"@ {
        DingTalkType::WeChatWork
    } else {
        DingTalkType::DingTalk
    }
}

/// The provider that the configuration text `s` names under `type`.
pub open spec fn configured_provider(s: Seq<char>) -> DingTalkType {
    provider_named(lower_of(or_empty(json_str_field(s, "type"@))))
}

/// `d` is the client that the configuration text `s` describes: the provider
/// named by `type` (case-insensitively; DingTalk by default), the base URL
/// given or the provider's default, and the given credentials and direct URL
/// or empty ones.
pub open spec fn is_configured_client(d: DingTalk, s: Seq<char>) -> bool {
    let provider = configured_provider(s);
    &&& d.dingtalk_type == provider
    &&& d.default_webhook_url@ == match json_str_field(s, "default_webhook_url"@) {
        Some(u) => u,
        None => default_url_of(provider),
    }
    &&& d.access_token@ == or_empty(json_str_field(s, "access_token"@))
    &&& d.sec_token@ == or_empty(json_str_field(s, "sec_token"@))
    &&& d.direct_url@ == or_empty(json_str_field(s, "direct_url"@))
}

pub open spec fn text_or_empty(s: Option<String>) -> Seq<char> {
    match s {
        Some(t) => t@,
        None => Seq::empty(),
    }
}

/// The provider named by the lowercased `type` value of a configuration.
pub fn provider_from_name(lowered: &str) -> (r: DingTalkType)
    ensures
        r == provider_named(lowered@),
{
    if same_text(lowered, "wechat") || same_text(lowered, "wechatwork") || same_text(
        lowered,
        "wecom",
    ) {
        DingTalkType::WeChatWork
    } else {
        DingTalkType::DingTalk
    }
}

impl DingTalk {
    /// A client from the fields of a configuration record: a missing base URL
    /// is the provider's default, a missing credential or direct URL is empty.
    pub fn from_config_fields(
        provider: DingTalkType,
        default_webhook_url: Option<String>,
        access_token: Option<String>,
        sec_token: Option<String>,
        direct_url: Option<String>,
    ) -> (r: DingTalk)
        ensures
            r.dingtalk_type == provider,
            r.default_webhook_url@ == match default_webhook_url {
                Some(u) => u@,
                None => default_url_of(provider),
            },
            r.access_token@ =~= text_or_empty(access_token),
            r.sec_token@ =~= text_or_empty(sec_token),
            r.direct_url@ =~= text_or_empty(direct_url),
    {
        let default_webhook_url = match default_webhook_url {
            Some(u) => u,
            None => match provider {
                DingTalkType::DingTalk => DEFAULT_DINGTALK_ROBOT_URL.to_owned(),
                DingTalkType::WeChatWork => DEFAULT_WECHAT_WORK_ROBOT_URL.to_owned(),
            },
        };
        DingTalk {
            dingtalk_type: provider,
            default_webhook_url,
            access_token: match access_token {
                Some(t) => t,
                None => String::new(),
            },
            sec_token: match sec_token {
                Some(t) => t,
                None => String::new(),
            },
            direct_url: match direct_url {
                Some(t) => t,
                None => String::new(),
            },
        }
    }

    /// A client from a JSON configuration record. A document that does not
    /// parse, or is not an object, is a configuration format error.
    pub fn from_json(json: &str) -> (r: Result<DingTalk, DingTalkError>)
        ensures
            r is Ok <==> json_object_doc(json@),
            r matches Ok(d) ==> is_configured_client(d, json@),
            r matches Err(e) ==> e == DingTalkError::ConfigFormat,
    {
        let record = match read_config(json) {
            Some(c) => c,
            None => return Err(DingTalkError::ConfigFormat),
        };
        let kind_name = match record.kind {
            Some(t) => t,
            None => String::new(),
        };
        let lowered = lowercase(kind_name.as_str());
        let provider = provider_from_name(lowered.as_str());
        Ok(
            DingTalk::from_config_fields(
                provider,
                record.default_webhook_url,
                record.access_token,
                record.sec_token,
                record.direct_url,
            ),
        )
    }
}

} // verus!
