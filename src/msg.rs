//! The message model and its fluent builder.
use vstd::prelude::*;

verus! {

/// Which provider a client talks to.
#[derive(Clone, Copy, Debug, PartialEq, Eq, Structural)]
pub enum DingTalkType {
    /// DingTalk
    DingTalk,
    /// WeChat Work (WeCom)
    WeChatWork,
}

impl Default for DingTalkType {
    fn default() -> (r: Self)
        ensures
            r == DingTalkType::DingTalk,
    {
        DingTalkType::DingTalk
    }
}

/// The kind of a message; it selects the wire discriminator.
#[derive(Clone, Copy, Debug, PartialEq, Eq, Structural)]
pub enum DingTalkMessageType {
    Text,
    Markdown,
    Link,
    ActionCard,
    FeedCard,
}

impl Default for DingTalkMessageType {
    fn default() -> (r: Self)
        ensures
            r == DingTalkMessageType::Text,
    {
        DingTalkMessageType::Text
    }
}

/// Whether an action card shows the sender's avatar (shown by default).
#[derive(Clone, Copy, Debug, PartialEq, Eq, Structural)]
pub enum DingTalkMessageActionCardHideAvatar {
    Hide,
    Show,
}

impl Default for DingTalkMessageActionCardHideAvatar {
    fn default() -> (r: Self)
        ensures
            r == DingTalkMessageActionCardHideAvatar::Show,
    {
        DingTalkMessageActionCardHideAvatar::Show
    }
}

/// How the buttons of an action card are laid out (vertical by default).
#[derive(Clone, Copy, Debug, PartialEq, Eq, Structural)]
pub enum DingTalkMessageActionCardBtnOrientation {
    Vertical,
    Landscape,
}

impl Default for DingTalkMessageActionCardBtnOrientation {
    fn default() -> (r: Self)
        ensures
            r == DingTalkMessageActionCardBtnOrientation::Vertical,
    {
        DingTalkMessageActionCardBtnOrientation::Vertical
    }
}

/// A button of an action card.
#[derive(Debug)]
pub struct DingTalkMessageActionCardBtn {
    pub title: String,
    pub action_url: String,
}

/// An entry of a feed card.
#[derive(Debug)]
pub struct DingTalkMessageFeedCardLink {
    pub title: String,
    pub message_url: String,
    pub pic_url: String,
}

/// A message. `message_type` selects which of the fields are rendered; the
/// mention fields (`at_all`, `at_mobiles`) apply to every kind.
#[derive(Debug)]
pub struct DingTalkMessage {
    pub message_type: DingTalkMessageType,
    pub text_content: String,
    pub markdown_title: String,
    pub markdown_content: String,
    pub link_text: String,
    pub link_title: String,
    pub link_pic_url: String,
    pub link_message_url: String,
    pub action_card_title: String,
    pub action_card_text: String,
    pub action_card_hide_avatar: DingTalkMessageActionCardHideAvatar,
    pub action_card_btn_orientation: DingTalkMessageActionCardBtnOrientation,
    pub action_card_single_btn: Option<DingTalkMessageActionCardBtn>,
    pub action_card_btns: Vec<DingTalkMessageActionCardBtn>,
    pub feed_card_links: Vec<DingTalkMessageFeedCardLink>,
    pub at_all: bool,
    pub at_mobiles: Vec<String>,
}

impl Default for DingTalkMessage {
    /// A text message with every field at its default.
    fn default() -> (r: Self)
        ensures
            r.is_fresh(DingTalkMessageType::Text),
    {
        DingTalkMessage::new(DingTalkMessageType::Text)
    }
}

impl DingTalkMessage {
    pub open spec fn text_is_default(self) -> bool {
        self.text_content@.len() == 0
    }

    pub open spec fn markdown_is_default(self) -> bool {
        self.markdown_title@.len() == 0 && self.markdown_content@.len() == 0
    }

    pub open spec fn link_is_default(self) -> bool {
        &&& self.link_text@.len() == 0
        &&& self.link_title@.len() == 0
        &&& self.link_pic_url@.len() == 0
        &&& self.link_message_url@.len() == 0
    }

    /// The action card's layout and buttons at their defaults: avatar shown,
    /// buttons vertical, no button.
    pub open spec fn card_layout_is_default(self) -> bool {
        &&& self.action_card_hide_avatar == DingTalkMessageActionCardHideAvatar::Show
        &&& self.action_card_btn_orientation == DingTalkMessageActionCardBtnOrientation::Vertical
        &&& self.action_card_single_btn.is_none()
        &&& self.action_card_btns@.len() == 0
    }

    pub open spec fn action_card_is_default(self) -> bool {
        &&& self.action_card_title@.len() == 0
        &&& self.action_card_text@.len() == 0
        &&& self.card_layout_is_default()
    }

    pub open spec fn feed_card_is_default(self) -> bool {
        self.feed_card_links@.len() == 0
    }

    pub open spec fn mention_is_default(self) -> bool {
        !self.at_all && self.at_mobiles@.len() == 0
    }

    /// A message of kind `t` whose fields all hold their defaults: empty
    /// strings and lists, avatar shown, buttons vertical, no mention.
    pub open spec fn is_fresh(self, t: DingTalkMessageType) -> bool {
        &&& self.message_type == t
        &&& self.text_is_default()
        &&& self.markdown_is_default()
        &&& self.link_is_default()
        &&& self.action_card_is_default()
        &&& self.feed_card_is_default()
        &&& self.mention_is_default()
    }

    /// New message of the given kind, every field at its default.
    pub fn new(message_type: DingTalkMessageType) -> (r: Self)
        ensures
            r.is_fresh(message_type),
    {
        DingTalkMessage {
            message_type,
            text_content: String::new(),
            markdown_title: String::new(),
            markdown_content: String::new(),
            link_text: String::new(),
            link_title: String::new(),
            link_pic_url: String::new(),
            link_message_url: String::new(),
            action_card_title: String::new(),
            action_card_text: String::new(),
            action_card_hide_avatar: DingTalkMessageActionCardHideAvatar::Show,
            action_card_btn_orientation: DingTalkMessageActionCardBtnOrientation::Vertical,
            action_card_single_btn: None,
            action_card_btns: Vec::new(),
            feed_card_links: Vec::new(),
            at_all: false,
            at_mobiles: Vec::new(),
        }
    }

    /// New text message.
    pub fn new_text(text_content: &str) -> (r: Self)
        ensures
            r.message_type == DingTalkMessageType::Text,
            r.text_content@ == text_content@,
            r.markdown_is_default() && r.link_is_default() && r.action_card_is_default(),
            r.feed_card_is_default() && r.mention_is_default(),
    {
        Self::new(DingTalkMessageType::Text).text(text_content)
    }

    /// New markdown message.
    pub fn new_markdown(markdown_title: &str, markdown_content: &str) -> (r: Self)
        ensures
            r.message_type == DingTalkMessageType::Markdown,
            r.markdown_title@ == markdown_title@,
            r.markdown_content@ == markdown_content@,
            r.text_is_default() && r.link_is_default() && r.action_card_is_default(),
            r.feed_card_is_default() && r.mention_is_default(),
    {
        Self::new(DingTalkMessageType::Markdown).markdown(markdown_title, markdown_content)
    }

    /// New link message.
    pub fn new_link(link_title: &str, link_text: &str, link_pic_url: &str, link_message_url: &str) -> (r:
        Self)
        ensures
            r.message_type == DingTalkMessageType::Link,
            r.link_title@ == link_title@,
            r.link_text@ == link_text@,
            r.link_pic_url@ == link_pic_url@,
            r.link_message_url@ == link_message_url@,
            r.text_is_default() && r.markdown_is_default() && r.action_card_is_default(),
            r.feed_card_is_default() && r.mention_is_default(),
    {
        Self::new(DingTalkMessageType::Link).link(link_title, link_text, link_pic_url, link_message_url)
    }

    /// New action card with the given title and text, default layout and no button.
    pub fn new_action_card(title: &str, text: &str) -> (r: Self)
        ensures
            r.message_type == DingTalkMessageType::ActionCard,
            r.action_card_title@ == title@,
            r.action_card_text@ == text@,
            r.card_layout_is_default(),
            r.text_is_default() && r.markdown_is_default() && r.link_is_default(),
            r.feed_card_is_default() && r.mention_is_default(),
    {
        let mut s = Self::new(DingTalkMessageType::ActionCard);
        s.action_card_title = title.to_owned();
        s.action_card_text = text.to_owned();
        s
    }

    /// New feed card with no entry.
    pub fn new_feed_card() -> (r: Self)
        ensures
            r.is_fresh(DingTalkMessageType::FeedCard),
    {
        Self::new(DingTalkMessageType::FeedCard)
    }

    /// Sets the text content.
    pub fn text(self, text_content: &str) -> (r: Self)
        ensures
            r == (DingTalkMessage { text_content: r.text_content, ..self }),
            r.text_content@ == text_content@,
    {
        let mut s = self;
        s.text_content = text_content.to_owned();
        s
    }

    /// Sets the markdown title and body.
    pub fn markdown(self, markdown_title: &str, markdown_content: &str) -> (r: Self)
        ensures
            r == (DingTalkMessage {
                markdown_title: r.markdown_title,
                markdown_content: r.markdown_content,
                ..self
            }),
            r.markdown_title@ == markdown_title@,
            r.markdown_content@ == markdown_content@,
    {
        let mut s = self;
        s.markdown_title = markdown_title.to_owned();
        s.markdown_content = markdown_content.to_owned();
        s
    }

    /// Sets the four fields of a link.
    pub fn link(self, link_title: &str, link_text: &str, link_pic_url: &str, link_message_url: &str) -> (r:
        Self)
        ensures
            r == (DingTalkMessage {
                link_title: r.link_title,
                link_text: r.link_text,
                link_pic_url: r.link_pic_url,
                link_message_url: r.link_message_url,
                ..self
            }),
            r.link_title@ == link_title@,
            r.link_text@ == link_text@,
            r.link_pic_url@ == link_pic_url@,
            r.link_message_url@ == link_message_url@,
    {
        let mut s = self;
        s.link_title = link_title.to_owned();
        s.link_text = link_text.to_owned();
        s.link_pic_url = link_pic_url.to_owned();
        s.link_message_url = link_message_url.to_owned();
        s
    }

    /// Shows the avatar on an action card (the default).
    pub fn action_card_show_avatar(self) -> (r: Self)
        ensures
            r == (DingTalkMessage {
                action_card_hide_avatar: DingTalkMessageActionCardHideAvatar::Show,
                ..self
            }),
    {
        let mut s = self;
        s.action_card_hide_avatar = DingTalkMessageActionCardHideAvatar::Show;
        s
    }

    /// Hides the avatar on an action card.
    pub fn action_card_hide_avatar(self) -> (r: Self)
        ensures
            r == (DingTalkMessage {
                action_card_hide_avatar: DingTalkMessageActionCardHideAvatar::Hide,
                ..self
            }),
    {
        let mut s = self;
        s.action_card_hide_avatar = DingTalkMessageActionCardHideAvatar::Hide;
        s
    }

    /// Lays the buttons of an action card out vertically (the default).
    pub fn action_card_btn_vertical(self) -> (r: Self)
        ensures
            r == (DingTalkMessage {
                action_card_btn_orientation: DingTalkMessageActionCardBtnOrientation::Vertical,
                ..self
            }),
    {
        let mut s = self;
        s.action_card_btn_orientation = DingTalkMessageActionCardBtnOrientation::Vertical;
        s
    }

    /// Lays the buttons of an action card out side by side.
    pub fn action_card_btn_landscape(self) -> (r: Self)
        ensures
            r == (DingTalkMessage {
                action_card_btn_orientation: DingTalkMessageActionCardBtnOrientation::Landscape,
                ..self
            }),
    {
        let mut s = self;
        s.action_card_btn_orientation = DingTalkMessageActionCardBtnOrientation::Landscape;
        s
    }

    /// Sets the single button of an action card; when set, it is rendered in
    /// place of the button list.
    pub fn set_action_card_signle_btn(self, btn: DingTalkMessageActionCardBtn) -> (r: Self)
        ensures
            r == (DingTalkMessage { action_card_single_btn: Some(btn), ..self }),
    {
        let mut s = self;
        s.action_card_single_btn = Some(btn);
        s
    }

    /// Appends a button to the action card's button list.
    pub fn add_action_card_btn(self, btn: DingTalkMessageActionCardBtn) -> (r: Self)
        ensures
            r == (DingTalkMessage { action_card_btns: r.action_card_btns, ..self }),
            r.action_card_btns@ == self.action_card_btns@.push(btn),
    {
        let mut s = self;
        s.action_card_btns.push(btn);
        s
    }

    /// Appends an entry to the feed card.
    pub fn add_feed_card_link(self, link: DingTalkMessageFeedCardLink) -> (r: Self)
        ensures
            r == (DingTalkMessage { feed_card_links: r.feed_card_links, ..self }),
            r.feed_card_links@ == self.feed_card_links@.push(link),
    {
        let mut s = self;
        s.feed_card_links.push(link);
        s
    }

    /// Appends an entry with the given title, target URL and picture URL.
    pub fn add_feed_card_link_detail(self, title: &str, message_url: &str, pic_url: &str) -> (r: Self)
        ensures
            r == (DingTalkMessage { feed_card_links: r.feed_card_links, ..self }),
            r.feed_card_links@.len() == self.feed_card_links@.len() + 1,
            r.feed_card_links@.drop_last() == self.feed_card_links@,
            r.feed_card_links@.last().title@ == title@,
            r.feed_card_links@.last().message_url@ == message_url@,
            r.feed_card_links@.last().pic_url@ == pic_url@,
    {
        let r = self.add_feed_card_link(
            DingTalkMessageFeedCardLink {
                title: title.to_owned(),
                message_url: message_url.to_owned(),
                pic_url: pic_url.to_owned(),
            },
        );
        proof {
            assert(r.feed_card_links@.drop_last() =~= self.feed_card_links@);
        }
        r
    }

    /// Mentions everyone.
    pub fn at_all(self) -> (r: Self)
        ensures
            r == (DingTalkMessage { at_all: true, ..self }),
    {
        let mut s = self;
        s.at_all = true;
        s
    }

    /// Appends the given mobile numbers, in order, to those mentioned.
    pub fn at_mobiles(self, mobiles: &[String]) -> (r: Self)
        ensures
            r == (DingTalkMessage { at_mobiles: r.at_mobiles, ..self }),
            r.at_mobiles@ == self.at_mobiles@ + mobiles@,
    {
        let mut s = self;
        let ghost start = s.at_mobiles@;
        let mut i: usize = 0;
        while i < mobiles.len()
            invariant
                i <= mobiles@.len(),
                s == (DingTalkMessage { at_mobiles: s.at_mobiles, ..self }),
                s.at_mobiles@ == start + mobiles@.subrange(0, i as int),
                start == self.at_mobiles@,
            decreases mobiles@.len() - i,
        {
            s.at_mobiles.push(mobiles[i].clone());
            proof {
                assert(start + mobiles@.subrange(0, i + 1) =~= (start + mobiles@.subrange(
                    0,
                    i as int,
                )).push(mobiles@[i as int]));
            }
            i = i + 1;
        }
        assert(mobiles@.subrange(0, mobiles@.len() as int) =~= mobiles@);
        s
    }
}

} // verus!
