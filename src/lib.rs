//! A client library for chat-robot webhooks (DingTalk and WeChat Work).
//!
//! Messages are described by [`DingTalkMessage`], rendered to the provider's
//! JSON body by [`wire`], and addressed to an authenticated URL by [`signer`].
//! The HTTP transport itself lives outside this crate.
pub mod msg;
pub mod error;
pub mod wire;
pub mod client;
pub mod signer;
pub mod token;
pub mod config;

pub use msg::{
    DingTalkType,
    DingTalkMessage,
    DingTalkMessageType,
    DingTalkMessageActionCardHideAvatar,
    DingTalkMessageActionCardBtnOrientation,
    DingTalkMessageActionCardBtn,
    DingTalkMessageFeedCardLink,
};
pub use error::DingTalkError;
pub use client::DingTalk;
