//! Rendering a message into the JSON body the provider expects.
//!
//! Each message kind has a fixed shape: a `msgtype` discriminator, an object
//! under the key named by the discriminator, and an optional `at` block. The
//! shapes are stated as spec functions over the message's views; string values
//! are encoded by serde_json, whose literal for a string `s` is named
//! `json_quoted_of(s)`.
use vstd::prelude::*;
use crate::msg::{
    DingTalkMessage,
    DingTalkMessageType,
    DingTalkMessageActionCardHideAvatar,
    DingTalkMessageActionCardBtnOrientation,
    DingTalkMessageActionCardBtn,
    DingTalkMessageFeedCardLink,
};

verus! {

/// The JSON string literal (quoted and escaped) that serde_json writes for `s`.
pub uninterp spec fn json_quoted_of(s: Seq<char>) -> Seq<char>;

#[verifier::external_type_specification]
#[verifier::external_body]
pub struct ExJsonError(serde_json::Error);

/// Relies on `serde_json::to_string` applied to a `str`: it returns the JSON
/// string literal of `s`, which depends on the characters of `s` alone. For a
/// `str` it cannot fail: the serializer only writes into an in-memory `Vec`.
#[verifier::external_body]
fn json_string(s: &str) -> (r: Result<String, serde_json::Error>)
    ensures
        r is Ok,
        r matches Ok(t) ==> t@ == json_quoted_of(s@),
{
    serde_json::to_string(s)
}

/// The discriminator of a message kind.
pub open spec fn msgtype_tag(t: DingTalkMessageType) -> Seq<char> {
    match t {
        DingTalkMessageType::Text => "text"@,
        DingTalkMessageType::Markdown => "markdown"@,
        DingTalkMessageType::Link => "link"@,
        DingTalkMessageType::ActionCard => "actionCard"@,
        DingTalkMessageType::FeedCard => "feedCard"@,
    }
}

/// The items joined by commas, as in a JSON array.
pub open spec fn joined(items: Seq<Seq<char>>) -> Seq<char>
    decreases items.len(),
{
    if items.len() == 0 {
        Seq::empty()
    } else if items.len() == 1 {
        items[0]
    } else {
        joined(items.drop_last()) + ","@ + items.last()
    }
}

pub open spec fn bool_text(b: bool) -> Seq<char> {
    if b {
        "true"@
    } else {
        "false"@
    }
}

pub open spec fn avatar_flag(h: DingTalkMessageActionCardHideAvatar) -> Seq<char> {
    match h {
        DingTalkMessageActionCardHideAvatar::Hide => "\"1\""@,
        DingTalkMessageActionCardHideAvatar::Show => "\"0\""@,
    }
}

pub open spec fn orientation_flag(o: DingTalkMessageActionCardBtnOrientation) -> Seq<char> {
    match o {
        DingTalkMessageActionCardBtnOrientation::Vertical => "\"0\""@,
        DingTalkMessageActionCardBtnOrientation::Landscape => "\"1\""@,
    }
}

pub open spec fn text_object(content: Seq<char>) -> Seq<char> {
    "{\"content\":"@ + json_quoted_of(content) + "}"@
}

pub open spec fn markdown_object(title: Seq<char>, text: Seq<char>) -> Seq<char> {
    "{\"title\":"@ + json_quoted_of(title) + ",\"text\":"@ + json_quoted_of(text) + "}"@
}

pub open spec fn link_object(
    title: Seq<char>,
    text: Seq<char>,
    pic_url: Seq<char>,
    message_url: Seq<char>,
) -> Seq<char> {
    "{\"title\":"@ + json_quoted_of(title) + ",\"text\":"@ + json_quoted_of(text) + ",\"picUrl\":"@
        + json_quoted_of(pic_url) + ",\"messageUrl\":"@ + json_quoted_of(message_url) + "}"@
}

pub open spec fn btn_object(b: DingTalkMessageActionCardBtn) -> Seq<char> {
    "{\"title\":"@ + json_quoted_of(b.title@) + ",\"actionURL\":"@ + json_quoted_of(b.action_url@)
        + "}"@
}

pub open spec fn btn_objects(btns: Seq<DingTalkMessageActionCardBtn>) -> Seq<Seq<char>> {
    btns.map_values(|b: DingTalkMessageActionCardBtn| btn_object(b))
}

pub open spec fn feed_link_object(l: DingTalkMessageFeedCardLink) -> Seq<char> {
    "{\"title\":"@ + json_quoted_of(l.title@) + ",\"messageURL\":"@ + json_quoted_of(
        l.message_url@,
    ) + ",\"picURL\":"@ + json_quoted_of(l.pic_url@) + "}"@
}

pub open spec fn feed_link_objects(links: Seq<DingTalkMessageFeedCardLink>) -> Seq<Seq<char>> {
    links.map_values(|l: DingTalkMessageFeedCardLink| feed_link_object(l))
}

pub open spec fn quoted_strings(items: Seq<String>) -> Seq<Seq<char>> {
    items.map_values(|s: String| json_quoted_of(s@))
}

/// The button fields of an action card: the single button when one is set,
/// else the `btns` array when the list is non-empty, else nothing.
pub open spec fn buttons_part(m: DingTalkMessage) -> Seq<char> {
    match m.action_card_single_btn {
        Some(b) => ",\"singleTitle\":"@ + json_quoted_of(b.title@) + ",\"singleURL\":"@
            + json_quoted_of(b.action_url@),
        None => if m.action_card_btns@.len() > 0 {
            ",\"btns\":["@ + joined(btn_objects(m.action_card_btns@)) + "]"@
        } else {
            Seq::empty()
        },
    }
}

pub open spec fn action_card_object(m: DingTalkMessage) -> Seq<char> {
    "{\"title\":"@ + json_quoted_of(m.action_card_title@) + ",\"text\":"@ + json_quoted_of(
        m.action_card_text@,
    ) + ",\"hideAvatar\":"@ + avatar_flag(m.action_card_hide_avatar) + ",\"btnOrientation\":"@
        + orientation_flag(m.action_card_btn_orientation) + buttons_part(m) + "}"@
}

pub open spec fn feed_card_object(links: Seq<DingTalkMessageFeedCardLink>) -> Seq<char> {
    "{\"links\":["@ + joined(feed_link_objects(links)) + "]}"@
}

/// Whether a message carries the `at` block.
pub open spec fn mentions(m: DingTalkMessage) -> bool {
    m.at_all || m.at_mobiles@.len() > 0
}

/// The `at` block, with its leading comma, or nothing.
pub open spec fn mention_part(m: DingTalkMessage) -> Seq<char> {
    if mentions(m) {
        ",\"at\":{\"atMobiles\":["@ + joined(quoted_strings(m.at_mobiles@)) + "],\"isAtAll\":"@
            + bool_text(m.at_all) + "}"@
    } else {
        Seq::empty()
    }
}

/// The object nested under the discriminator: only the fields of the active
/// kind are read.
pub open spec fn kind_object(m: DingTalkMessage) -> Seq<char> {
    match m.message_type {
        DingTalkMessageType::Text => text_object(m.text_content@),
        DingTalkMessageType::Markdown => markdown_object(m.markdown_title@, m.markdown_content@),
        DingTalkMessageType::Link => link_object(
            m.link_title@,
            m.link_text@,
            m.link_pic_url@,
            m.link_message_url@,
        ),
        DingTalkMessageType::ActionCard => action_card_object(m),
        DingTalkMessageType::FeedCard => feed_card_object(m.feed_card_links@),
    }
}

/// The whole request body of a message.
pub open spec fn wire_body(m: DingTalkMessage) -> Seq<char> {
    "{\"msgtype\":\""@ + msgtype_tag(m.message_type) + "\",\""@ + msgtype_tag(m.message_type)
        + "\":"@ + kind_object(m) + mention_part(m) + "}"@
}

pub proof fn lemma_joined_push(items: Seq<Seq<char>>, x: Seq<char>)
    ensures
        joined(items.push(x)) == if items.len() == 0 {
            x
        } else {
            joined(items) + ","@ + x
        },
{
    assert(items.push(x).drop_last() =~= items);
}

/// The JSON string literal of `s`.
fn quoted(s: &str) -> (r: String)
    ensures
        r@ == json_quoted_of(s@),
{
    match json_string(s) {
        Ok(t) => t,
        Err(_) => {
            proof {
                assert(false);
            }
            String::new()
        },
    }
}

fn render_btn(b: &DingTalkMessageActionCardBtn) -> (r: String)
    ensures
        r@ == btn_object(*b),
{
    let title = quoted(b.title.as_str());
    let url = quoted(b.action_url.as_str());
    let mut out = "{\"title\":".to_owned();
    out.append(title.as_str());
    out.append(",\"actionURL\":");
    out.append(url.as_str());
    out.append("}");
    out
}

fn render_btns(btns: &Vec<DingTalkMessageActionCardBtn>) -> (r: String)
    ensures
        r@ == joined(btn_objects(btns@)),
{
    let mut out = String::new();
    let mut i: usize = 0;
    while i < btns.len()
        invariant
            i <= btns@.len(),
            out@ == joined(btn_objects(btns@.subrange(0, i as int))),
        decreases btns@.len() - i,
    {
        let obj = render_btn(&btns[i]);
        proof {
            let done = btn_objects(btns@.subrange(0, i as int));
            assert(btn_objects(btns@.subrange(0, i + 1)) =~= done.push(obj@));
            lemma_joined_push(done, obj@);
        }
        if i > 0 {
            out.append(",");
        } else {
            assert(out@ + obj@ =~= obj@);
        }
        out.append(obj.as_str());
        i = i + 1;
    }
    assert(btns@.subrange(0, btns@.len() as int) =~= btns@);
    out
}

fn render_feed_link(l: &DingTalkMessageFeedCardLink) -> (r: String)
    ensures
        r@ == feed_link_object(*l),
{
    let title = quoted(l.title.as_str());
    let url = quoted(l.message_url.as_str());
    let pic = quoted(l.pic_url.as_str());
    let mut out = "{\"title\":".to_owned();
    out.append(title.as_str());
    out.append(",\"messageURL\":");
    out.append(url.as_str());
    out.append(",\"picURL\":");
    out.append(pic.as_str());
    out.append("}");
    out
}

fn render_feed_links(links: &Vec<DingTalkMessageFeedCardLink>) -> (r: String)
    ensures
        r@ == joined(feed_link_objects(links@)),
{
    let mut out = String::new();
    let mut i: usize = 0;
    while i < links.len()
        invariant
            i <= links@.len(),
            out@ == joined(feed_link_objects(links@.subrange(0, i as int))),
        decreases links@.len() - i,
    {
        let obj = render_feed_link(&links[i]);
        proof {
            let done = feed_link_objects(links@.subrange(0, i as int));
            assert(feed_link_objects(links@.subrange(0, i + 1)) =~= done.push(obj@));
            lemma_joined_push(done, obj@);
        }
        if i > 0 {
            out.append(",");
        } else {
            assert(out@ + obj@ =~= obj@);
        }
        out.append(obj.as_str());
        i = i + 1;
    }
    assert(links@.subrange(0, links@.len() as int) =~= links@);
    out
}

fn render_quoted_list(items: &Vec<String>) -> (r: String)
    ensures
        r@ == joined(quoted_strings(items@)),
{
    let mut out = String::new();
    let mut i: usize = 0;
    while i < items.len()
        invariant
            i <= items@.len(),
            out@ == joined(quoted_strings(items@.subrange(0, i as int))),
        decreases items@.len() - i,
    {
        let obj = quoted(items[i].as_str());
        proof {
            let done = quoted_strings(items@.subrange(0, i as int));
            assert(quoted_strings(items@.subrange(0, i + 1)) =~= done.push(obj@));
            lemma_joined_push(done, obj@);
        }
        if i > 0 {
            out.append(",");
        } else {
            assert(out@ + obj@ =~= obj@);
        }
        out.append(obj.as_str());
        i = i + 1;
    }
    assert(items@.subrange(0, items@.len() as int) =~= items@);
    out
}

fn render_buttons_part(m: &DingTalkMessage) -> (r: String)
    ensures
        r@ == buttons_part(*m),
{
    match &m.action_card_single_btn {
        Some(b) => {
            let title = quoted(b.title.as_str());
            let url = quoted(b.action_url.as_str());
            let mut out = ",\"singleTitle\":".to_owned();
            out.append(title.as_str());
            out.append(",\"singleURL\":");
            out.append(url.as_str());
            out
        },
        None => {
            if m.action_card_btns.len() > 0 {
                let list = render_btns(&m.action_card_btns);
                let mut out = ",\"btns\":[".to_owned();
                out.append(list.as_str());
                out.append("]");
                out
            } else {
                String::new()
            }
        },
    }
}

fn render_action_card(m: &DingTalkMessage) -> (r: String)
    ensures
        r@ == action_card_object(*m),
{
    let title = quoted(m.action_card_title.as_str());
    let text = quoted(m.action_card_text.as_str());
    let buttons = render_buttons_part(m);
    let mut out = "{\"title\":".to_owned();
    out.append(title.as_str());
    out.append(",\"text\":");
    out.append(text.as_str());
    out.append(",\"hideAvatar\":");
    match m.action_card_hide_avatar {
        DingTalkMessageActionCardHideAvatar::Hide => out.append("\"1\""),
        DingTalkMessageActionCardHideAvatar::Show => out.append("\"0\""),
    }
    out.append(",\"btnOrientation\":");
    match m.action_card_btn_orientation {
        DingTalkMessageActionCardBtnOrientation::Vertical => out.append("\"0\""),
        DingTalkMessageActionCardBtnOrientation::Landscape => out.append("\"1\""),
    }
    out.append(buttons.as_str());
    out.append("}");
    out
}

fn render_mention_part(m: &DingTalkMessage) -> (r: String)
    ensures
        r@ == mention_part(*m),
{
    if m.at_all || m.at_mobiles.len() > 0 {
        let list = render_quoted_list(&m.at_mobiles);
        let mut out = ",\"at\":{\"atMobiles\":[".to_owned();
        out.append(list.as_str());
        out.append("],\"isAtAll\":");
        if m.at_all {
            out.append("true");
        } else {
            out.append("false");
        }
        out.append("}");
        out
    } else {
        String::new()
    }
}

fn render_kind_object(m: &DingTalkMessage) -> (r: String)
    ensures
        r@ == kind_object(*m),
{
    match m.message_type {
        DingTalkMessageType::Text => {
            let content = quoted(m.text_content.as_str());
            let mut out = "{\"content\":".to_owned();
            out.append(content.as_str());
            out.append("}");
            out
        },
        DingTalkMessageType::Markdown => {
            let title = quoted(m.markdown_title.as_str());
            let text = quoted(m.markdown_content.as_str());
            let mut out = "{\"title\":".to_owned();
            out.append(title.as_str());
            out.append(",\"text\":");
            out.append(text.as_str());
            out.append("}");
            out
        },
        DingTalkMessageType::Link => {
            let title = quoted(m.link_title.as_str());
            let text = quoted(m.link_text.as_str());
            let pic = quoted(m.link_pic_url.as_str());
            let url = quoted(m.link_message_url.as_str());
            let mut out = "{\"title\":".to_owned();
            out.append(title.as_str());
            out.append(",\"text\":");
            out.append(text.as_str());
            out.append(",\"picUrl\":");
            out.append(pic.as_str());
            out.append(",\"messageUrl\":");
            out.append(url.as_str());
            out.append("}");
            out
        },
        DingTalkMessageType::ActionCard => render_action_card(m),
        DingTalkMessageType::FeedCard => {
            let list = render_feed_links(&m.feed_card_links);
            let mut out = "{\"links\":[".to_owned();
            out.append(list.as_str());
            out.append("]}");
            out
        },
    }
}

fn push_tag(out: &mut String, t: DingTalkMessageType)
    ensures
        final(out)@ == old(out)@ + msgtype_tag(t),
{
    match t {
        DingTalkMessageType::Text => out.append("text"),
        DingTalkMessageType::Markdown => out.append("markdown"),
        DingTalkMessageType::Link => out.append("link"),
        DingTalkMessageType::ActionCard => out.append("actionCard"),
        DingTalkMessageType::FeedCard => out.append("feedCard"),
    }
}

impl DingTalkMessage {
    /// The JSON request body of this message. Rendering cannot fail.
    pub fn to_json(&self) -> (r: String)
        ensures
            r@ == wire_body(*self),
        {
        let inner = render_kind_object(self);
        let at = render_mention_part(self);
        let mut out = "{\"msgtype\":\"".to_owned();
        push_tag(&mut out, self.message_type);
        out.append("\",\"");
        push_tag(&mut out, self.message_type);
        out.append("\":");
        out.append(inner.as_str());
        out.append(at.as_str());
        out.append("}");
        out
    }
}

/// The fields that the body of a message of kind `m1.message_type` reads
/// are the same in `m1` and `m2`.
pub open spec fn same_active_fields(m1: DingTalkMessage, m2: DingTalkMessage) -> bool {
    &&& m1.message_type == m2.message_type
    &&& m1.at_all == m2.at_all
    &&& m1.at_mobiles@ == m2.at_mobiles@
    &&& match m1.message_type {
        DingTalkMessageType::Text => m1.text_content@ == m2.text_content@,
        DingTalkMessageType::Markdown => m1.markdown_title@ == m2.markdown_title@
            && m1.markdown_content@ == m2.markdown_content@,
        DingTalkMessageType::Link => m1.link_title@ == m2.link_title@ && m1.link_text@
            == m2.link_text@ && m1.link_pic_url@ == m2.link_pic_url@ && m1.link_message_url@
            == m2.link_message_url@,
        DingTalkMessageType::ActionCard => m1.action_card_title@ == m2.action_card_title@
            && m1.action_card_text@ == m2.action_card_text@ && m1.action_card_hide_avatar
            == m2.action_card_hide_avatar && m1.action_card_btn_orientation
            == m2.action_card_btn_orientation && m1.action_card_single_btn
            == m2.action_card_single_btn && m1.action_card_btns@ == m2.action_card_btns@,
        DingTalkMessageType::FeedCard => m1.feed_card_links@ == m2.feed_card_links@,
    }
}

/// Only the fields of the active kind, and the mention fields, reach the
/// body: setting any other field leaves the body as it was.
pub proof fn lemma_body_reads_active_fields(m1: DingTalkMessage, m2: DingTalkMessage)
    requires
        same_active_fields(m1, m2),
    ensures
        wire_body(m1) == wire_body(m2),
{
}

/// On an action card with a single button, the button list never reaches
/// the body: whatever list was added before or after, the body holds the
/// single button's `singleTitle` and `singleURL` and no `btns`.
pub proof fn lemma_single_button_suppresses_list(m1: DingTalkMessage, m2: DingTalkMessage)
    requires
        m1.message_type == DingTalkMessageType::ActionCard,
        m1.action_card_single_btn is Some,
        m2 == (DingTalkMessage { action_card_btns: m2.action_card_btns, ..m1 }),
    ensures
        wire_body(m1) == wire_body(m2),
        buttons_part(m1) == ",\"singleTitle\":"@ + json_quoted_of(
            m1.action_card_single_btn->0.title@,
        ) + ",\"singleURL\":"@ + json_quoted_of(m1.action_card_single_btn->0.action_url@),
{
}

/// The mention block is present exactly when everyone is mentioned or the
/// list of mobiles is non-empty; it closes the body, just before its last
/// brace.
pub proof fn lemma_mention_block(m: DingTalkMessage)
    ensures
        mention_part(m).len() > 0 <==> (m.at_all || m.at_mobiles@.len() > 0),
        !(m.at_all || m.at_mobiles@.len() > 0) ==> mention_part(m) == Seq::<char>::empty(),
        wire_body(m) == "{\"msgtype\":\""@ + msgtype_tag(m.message_type) + "\",\""@ + msgtype_tag(
            m.message_type,
        ) + "\":"@ + kind_object(m) + mention_part(m) + "}"@,
{
    reveal_strlit(",\"at\":{\"atMobiles\":[");
}

/// Each kind's body has the documented shape: the discriminator, then the
/// object under the key of the same name with the documented field names
/// (camelCase, but `actionURL`, `messageURL`, `picURL`), then the optional
/// `at` block.
pub proof fn lemma_documented_shapes(m: DingTalkMessage)
    ensures
        m.message_type == DingTalkMessageType::Text ==> wire_body(m) == "{\"msgtype\":\"text\",\"text\":{\"content\":"@
            + json_quoted_of(m.text_content@) + "}"@ + mention_part(m) + "}"@,
        m.message_type == DingTalkMessageType::Markdown ==> wire_body(m)
            == "{\"msgtype\":\"markdown\",\"markdown\":{\"title\":"@ + json_quoted_of(m.markdown_title@)
            + ",\"text\":"@ + json_quoted_of(m.markdown_content@) + "}"@ + mention_part(m) + "}"@,
        m.message_type == DingTalkMessageType::Link ==> wire_body(m)
            == "{\"msgtype\":\"link\",\"link\":{\"title\":"@ + json_quoted_of(m.link_title@) + ",\"text\":"@
            + json_quoted_of(m.link_text@) + ",\"picUrl\":"@ + json_quoted_of(m.link_pic_url@)
            + ",\"messageUrl\":"@ + json_quoted_of(m.link_message_url@) + "}"@ + mention_part(m) + "}"@,
        m.message_type == DingTalkMessageType::ActionCard ==> wire_body(m)
            == "{\"msgtype\":\"actionCard\",\"actionCard\":{\"title\":"@ + json_quoted_of(
            m.action_card_title@,
        ) + ",\"text\":"@ + json_quoted_of(m.action_card_text@) + ",\"hideAvatar\":"@ + avatar_flag(
            m.action_card_hide_avatar,
        ) + ",\"btnOrientation\":"@ + orientation_flag(m.action_card_btn_orientation)
            + buttons_part(m) + "}"@ + mention_part(m) + "}"@,
        m.message_type == DingTalkMessageType::FeedCard ==> wire_body(m)
            == "{\"msgtype\":\"feedCard\",\"feedCard\":{\"links\":["@ + joined(
            feed_link_objects(m.feed_card_links@),
        ) + "]}"@ + mention_part(m) + "}"@,
{
    if m.message_type == DingTalkMessageType::Text {
        lemma_shape_text(m);
    } else if m.message_type == DingTalkMessageType::Markdown {
        lemma_shape_markdown(m);
    } else if m.message_type == DingTalkMessageType::Link {
        lemma_shape_link(m);
    } else if m.message_type == DingTalkMessageType::ActionCard {
        lemma_shape_action_card(m);
    } else {
        lemma_shape_feed_card(m);
    }
}

/// The fixed text before the nested object's first field: the discriminator
/// `tag` twice and the object's opening `obj_open`.
proof fn lemma_head(tag: Seq<char>, obj_open: Seq<char>, lit: Seq<char>, tail: Seq<char>)
    requires
        lit == "{\"msgtype\":\""@ + tag + "\",\""@ + tag + "\":"@ + obj_open,
    ensures
        "{\"msgtype\":\""@ + tag + "\",\""@ + tag + "\":"@ + (obj_open + tail) == lit + tail,
{
    assert("{\"msgtype\":\""@ + tag + "\",\""@ + tag + "\":"@ + (obj_open + tail) =~= lit + tail);
}

proof fn lemma_shape_text(m: DingTalkMessage)
    requires
        m.message_type == DingTalkMessageType::Text,
    ensures
        wire_body(m) == "{\"msgtype\":\"text\",\"text\":{\"content\":"@ + json_quoted_of(m.text_content@)
            + "}"@ + mention_part(m) + "}"@,
{
    reveal_strlit("{\"msgtype\":\"");
    reveal_strlit("\",\"");
    reveal_strlit("\":");
    reveal_strlit("text");
    reveal_strlit("{\"content\":");
    reveal_strlit("{\"msgtype\":\"text\",\"text\":{\"content\":");
    let tail = json_quoted_of(m.text_content@) + "}"@;
    assert("{\"msgtype\":\"text\",\"text\":{\"content\":"@ =~= "{\"msgtype\":\""@ + "text"@ + "\",\""@
        + "text"@ + "\":"@ + "{\"content\":"@);
    lemma_head("text"@, "{\"content\":"@, "{\"msgtype\":\"text\",\"text\":{\"content\":"@, tail);
    assert(text_object(m.text_content@) =~= "{\"content\":"@ + tail);
}

proof fn lemma_shape_markdown(m: DingTalkMessage)
    requires
        m.message_type == DingTalkMessageType::Markdown,
    ensures
        wire_body(m) == "{\"msgtype\":\"markdown\",\"markdown\":{\"title\":"@ + json_quoted_of(
            m.markdown_title@,
        ) + ",\"text\":"@ + json_quoted_of(m.markdown_content@) + "}"@ + mention_part(m) + "}"@,
{
    reveal_strlit("{\"msgtype\":\"");
    reveal_strlit("\",\"");
    reveal_strlit("\":");
    reveal_strlit("markdown");
    reveal_strlit("{\"title\":");
    reveal_strlit("{\"msgtype\":\"markdown\",\"markdown\":{\"title\":");
    let lit = "{\"msgtype\":\"markdown\",\"markdown\":{\"title\":"@;
    let tail = json_quoted_of(m.markdown_title@) + ",\"text\":"@ + json_quoted_of(m.markdown_content@)
        + "}"@;
    assert(lit =~= "{\"msgtype\":\""@ + "markdown"@ + "\",\""@ + "markdown"@ + "\":"@ + "{\"title\":"@);
    lemma_head("markdown"@, "{\"title\":"@, lit, tail);
    assert(kind_object(m) =~= "{\"title\":"@ + tail);
}

proof fn lemma_shape_link(m: DingTalkMessage)
    requires
        m.message_type == DingTalkMessageType::Link,
    ensures
        wire_body(m) == "{\"msgtype\":\"link\",\"link\":{\"title\":"@ + json_quoted_of(m.link_title@)
            + ",\"text\":"@ + json_quoted_of(m.link_text@) + ",\"picUrl\":"@ + json_quoted_of(
            m.link_pic_url@,
        ) + ",\"messageUrl\":"@ + json_quoted_of(m.link_message_url@) + "}"@ + mention_part(m) + "}"@,
{
    reveal_strlit("{\"msgtype\":\"");
    reveal_strlit("\",\"");
    reveal_strlit("\":");
    reveal_strlit("link");
    reveal_strlit("{\"title\":");
    reveal_strlit("{\"msgtype\":\"link\",\"link\":{\"title\":");
    let lit = "{\"msgtype\":\"link\",\"link\":{\"title\":"@;
    let tail = json_quoted_of(m.link_title@) + ",\"text\":"@ + json_quoted_of(m.link_text@)
        + ",\"picUrl\":"@ + json_quoted_of(m.link_pic_url@) + ",\"messageUrl\":"@ + json_quoted_of(
        m.link_message_url@,
    ) + "}"@;
    assert(lit =~= "{\"msgtype\":\""@ + "link"@ + "\",\""@ + "link"@ + "\":"@ + "{\"title\":"@);
    lemma_head("link"@, "{\"title\":"@, lit, tail);
    assert(kind_object(m) =~= "{\"title\":"@ + tail);
}

proof fn lemma_shape_action_card(m: DingTalkMessage)
    requires
        m.message_type == DingTalkMessageType::ActionCard,
    ensures
        wire_body(m) == "{\"msgtype\":\"actionCard\",\"actionCard\":{\"title\":"@ + json_quoted_of(
            m.action_card_title@,
        ) + ",\"text\":"@ + json_quoted_of(m.action_card_text@) + ",\"hideAvatar\":"@ + avatar_flag(
            m.action_card_hide_avatar,
        ) + ",\"btnOrientation\":"@ + orientation_flag(m.action_card_btn_orientation)
            + buttons_part(m) + "}"@ + mention_part(m) + "}"@,
{
    reveal_strlit("{\"msgtype\":\"");
    reveal_strlit("\",\"");
    reveal_strlit("\":");
    reveal_strlit("actionCard");
    reveal_strlit("{\"title\":");
    reveal_strlit("{\"msgtype\":\"actionCard\",\"actionCard\":{\"title\":");
    let lit = "{\"msgtype\":\"actionCard\",\"actionCard\":{\"title\":"@;
    let tail = json_quoted_of(m.action_card_title@) + ",\"text\":"@ + json_quoted_of(
        m.action_card_text@,
    ) + ",\"hideAvatar\":"@ + avatar_flag(m.action_card_hide_avatar) + ",\"btnOrientation\":"@
        + orientation_flag(m.action_card_btn_orientation) + buttons_part(m) + "}"@;
    assert(lit =~= "{\"msgtype\":\""@ + "actionCard"@ + "\",\""@ + "actionCard"@ + "\":"@
        + "{\"title\":"@);
    lemma_head("actionCard"@, "{\"title\":"@, lit, tail);
    assert(kind_object(m) =~= "{\"title\":"@ + tail);
}

proof fn lemma_shape_feed_card(m: DingTalkMessage)
    requires
        m.message_type == DingTalkMessageType::FeedCard,
    ensures
        wire_body(m) == "{\"msgtype\":\"feedCard\",\"feedCard\":{\"links\":["@ + joined(
            feed_link_objects(m.feed_card_links@),
        ) + "]}"@ + mention_part(m) + "}"@,
{
    reveal_strlit("{\"msgtype\":\"");
    reveal_strlit("\",\"");
    reveal_strlit("\":");
    reveal_strlit("feedCard");
    reveal_strlit("{\"links\":[");
    reveal_strlit("{\"msgtype\":\"feedCard\",\"feedCard\":{\"links\":[");
    let lit = "{\"msgtype\":\"feedCard\",\"feedCard\":{\"links\":["@;
    let tail = joined(feed_link_objects(m.feed_card_links@)) + "]}"@;
    assert(lit =~= "{\"msgtype\":\""@ + "feedCard"@ + "\",\""@ + "feedCard"@ + "\":"@
        + "{\"links\":["@);
    lemma_head("feedCard"@, "{\"links\":["@, lit, tail);
    assert(kind_object(m) =~= "{\"links\":["@ + tail);
}

} // verus!
