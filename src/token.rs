//! Reading a client from a provider-prefixed credential string:
//! `dingtalk:<access_token>[?<sec_token>]`, `wechatwork:<key>`, `wecom:<key>`.
use vstd::prelude::*;
use crate::error::DingTalkError;
use crate::msg::DingTalkType;
use crate::client::{DingTalk, default_url_of};

verus! {

pub open spec fn has_prefix(s: Seq<char>, p: Seq<char>) -> bool {
    p.len() <= s.len() && s.subrange(0, p.len() as int) == p
}

/// What follows the prefix `p` in `s`.
pub open spec fn after_prefix(s: Seq<char>, p: Seq<char>) -> Seq<char> {
    s.subrange(p.len() as int, s.len() as int)
}

/// The index of the first `?` of `s` at or after `from`, or the length of `s`.
pub open spec fn find_question(s: Seq<char>, from: int) -> int
    decreases s.len() - from,
{
    if from < 0 || from >= s.len() {
        s.len() as int
    } else if s[from] == '?' {
        from
    } else {
        find_question(s, from + 1)
    }
}

/// The access token of a DingTalk credential: up to the first `?`.
pub open spec fn token_part(rest: Seq<char>) -> Seq<char> {
    rest.subrange(0, find_question(rest, 0))
}

/// The secret of a DingTalk credential: between the first `?` and the next
/// one (or the end); empty when there is no `?`.
pub open spec fn secret_part(rest: Seq<char>) -> Seq<char> {
    let k = find_question(rest, 0);
    if k < rest.len() {
        rest.subrange(k + 1, find_question(rest, k + 1))
    } else {
        Seq::empty()
    }
}

/// `d` is a client of provider `t` on its default endpoint, with the given
/// credentials and no direct URL.
pub open spec fn is_client(d: DingTalk, t: DingTalkType, access: Seq<char>, secret: Seq<char>) -> bool {
    &&& d.dingtalk_type == t
    &&& d.default_webhook_url@ == default_url_of(t)
    &&& d.access_token@ =~= access
    &&& d.sec_token@ =~= secret
    &&& d.direct_url@.len() == 0
}

fn starts_with(s: &str, p: &str) -> (r: bool)
    ensures
        r == has_prefix(s@, p@),
{
    let n = s.unicode_len();
    let m = p.unicode_len();
    if m > n {
        return false;
    }
    let mut i: usize = 0;
    while i < m
        invariant
            m <= n,
            n == s@.len(),
            m == p@.len(),
            i <= m,
            forall|j: int| 0 <= j < i ==> s@[j] == p@[j],
        decreases m - i,
    {
        if s.get_char(i) != p.get_char(i) {
            assert(s@.subrange(0, m as int)[i as int] != p@[i as int]);
            return false;
        }
        i = i + 1;
    }
    assert(s@.subrange(0, m as int) =~= p@);
    true
}

/// Whether `a` and `b` hold the same characters.
pub(crate) fn same_text(a: &str, b: &str) -> (r: bool)
    ensures
        r == (a@ == b@),
{
    if a.unicode_len() != b.unicode_len() {
        return false;
    }
    let r = starts_with(a, b);
    assert(a@.subrange(0, a@.len() as int) =~= a@);
    r
}

fn find_question_from(s: &str, from: usize) -> (k: usize)
    requires
        from <= s@.len(),
    ensures
        k == find_question(s@, from as int),
        from <= k <= s@.len(),
{
    let n = s.unicode_len();
    let mut i = from;
    while i < n && s.get_char(i) != '?'
        invariant
            from <= i <= n,
            n == s@.len(),
            find_question(s@, from as int) == find_question(s@, i as int),
        decreases n - i,
    {
        i = i + 1;
    }
    i
}

impl DingTalk {
    /// A client from a credential string. `dingtalk:tok?sec` gives a DingTalk
    /// client with access token `tok` and secret `sec` (empty without `?`);
    /// `wechatwork:key` and `wecom:key` give a WeChat Work client keyed by
    /// `key`; any other string is a token format error.
    pub fn from_token(token: &str) -> (r: Result<DingTalk, DingTalkError>)
        ensures
            has_prefix(token@, "dingtalk:"@) ==> (r matches Ok(d) && is_client(
                d,
                DingTalkType::DingTalk,
                token_part(after_prefix(token@, "dingtalk:"@)),
                secret_part(after_prefix(token@, "dingtalk:"@)),
            )),
            !has_prefix(token@, "dingtalk:"@) && has_prefix(token@, "wechatwork:"@) ==> (r matches Ok(
                d,
            ) && is_client(d, DingTalkType::WeChatWork, after_prefix(token@, "wechatwork:"@), Seq::empty())),
            !has_prefix(token@, "dingtalk:"@) && !has_prefix(token@, "wechatwork:"@) && has_prefix(
                token@,
                "wecom:"@,
            ) ==> (r matches Ok(d) && is_client(
                d,
                DingTalkType::WeChatWork,
                after_prefix(token@, "wecom:"@),
                Seq::empty(),
            )),
            !has_prefix(token@, "dingtalk:"@) && !has_prefix(token@, "wechatwork:"@) && !has_prefix(
                token@,
                "wecom:"@,
            ) ==> r == Err::<DingTalk, DingTalkError>(DingTalkError::TokenFormat),
    {
        let n = token.unicode_len();
        let dingtalk = "dingtalk:";
        let wechatwork = "wechatwork:";
        let wecom = "wecom:";
        if starts_with(token, dingtalk) {
            let rest = token.substring_char(dingtalk.unicode_len(), n);
            let k = find_question_from(rest, 0);
            let access = rest.substring_char(0, k);
            if k < rest.unicode_len() {
                let e = find_question_from(rest, k + 1);
                let secret = rest.substring_char(k + 1, e);
                Ok(DingTalk::new(access, secret))
            } else {
                proof {
                    reveal_strlit("");
                }
                Ok(DingTalk::new(access, ""))
            }
        } else if starts_with(token, wechatwork) {
            Ok(DingTalk::new_wechat(token.substring_char(wechatwork.unicode_len(), n)))
        } else if starts_with(token, wecom) {
            Ok(DingTalk::new_wechat(token.substring_char(wecom.unicode_len(), n)))
        } else {
            Err(DingTalkError::TokenFormat)
        }
    }
}

} // verus!
