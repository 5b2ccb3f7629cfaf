//! What the bot makes of messages and of pressed buttons.

use crate::api::{FZClientState, StateView};
use crate::json::{json_of_bytes, parse_bytes, Json, JsonView};
use crate::menu::{make_status_reply, status_reply, Reply, ReplyView};
use crate::pattern::{find_post, post_of};
use crate::text::{begins_with, find_from, opt_text, position_from, same_text, starts_with};
use vstd::prelude::*;

verus! {

/// What to do about a message to the bot.
pub enum MessageAction {
    /// Nothing.
    Ignore,
    /// Send a message.
    Send { reply: Reply },
    /// Get the description of a post at this address, and show its picture.
    ShowPost { info_url: String },
}

/// What a [`MessageAction`] says.
pub enum MessageActionView {
    Ignore,
    Send { reply: ReplyView },
    ShowPost { info_url: Seq<char> },
}

impl View for MessageAction {
    type V = MessageActionView;

    open spec fn view(&self) -> MessageActionView {
        match self {
            MessageAction::Ignore => MessageActionView::Ignore,
            MessageAction::Send { reply } => MessageActionView::Send { reply: reply@ },
            MessageAction::ShowPost { info_url } => MessageActionView::ShowPost {
                info_url: info_url@,
            },
        }
    }
}

/// What to do about a message with this text.
pub open spec fn message_action(text: Seq<char>, state: StateView) -> MessageActionView {
    if text == "/start"@ {
        MessageActionView::Send { reply: status_reply(state) }
    } else {
        match post_of(text) {
            Some(post) => MessageActionView::ShowPost {
                info_url: "https://factoriobin.com/post/"@ + post + "/info.json"@,
            },
            None => MessageActionView::Ignore,
        }
    }
}

/// What to do about a message that may be without text.
pub open spec fn reaction(text: Option<Seq<char>>, state: StateView) -> MessageActionView {
    match text {
        Some(text) => message_action(text, state),
        None => message_action(""@, state),
    }
}

/// Decides what to do about a message. One without text counts as empty.
pub fn message_handler(text: Option<&str>, state: &FZClientState) -> (r: MessageAction)
    ensures
        r@ == message_action(
            match text {
                Some(text) => text@,
                None => ""@,
            },
            state@,
        ),
        r@ == reaction(
            match text {
                Some(text) => Some(text@),
                None => None,
            },
            state@,
        ),
{
    let text: &str = match text {
        Some(text) => text,
        None => "",
    };
    if same_text(text, "/start") {
        return MessageAction::Send { reply: make_status_reply(state) };
    }
    match find_post(text) {
        Some(post) => MessageAction::ShowPost {
            info_url: "https://factoriobin.com/post/".to_owned().concat(post.as_str()).concat(
                "/info.json",
            ),
        },
        None => MessageAction::Ignore,
    }
}

/// The address of a post's picture, in the description of the post.
pub open spec fn picture_of(info: JsonView) -> Option<Seq<char>> {
    match info.member("node"@) {
        Some(node) => node.member_text("renderImageUrl"@),
        None => None,
    }
}

/// Finds the address of a post's picture in the description of the post.
pub fn find_picture(info: &Json) -> (r: Option<String>)
    ensures
        opt_text(r) == picture_of(info@),
{
    match info.member("node") {
        Some(node) => node.member_text("renderImageUrl"),
        None => None,
    }
}

/// The address of a post's picture, in the body of the answer that describes the post.
pub open spec fn picture_in(body: Seq<u8>) -> Option<Seq<char>> {
    match json_of_bytes(body) {
        Some(info) => picture_of(info),
        None => None,
    }
}

/// Finds the address of a post's picture in the body of the answer that describes the post.
pub fn post_picture(body: &[u8]) -> (r: Option<String>)
    ensures
        opt_text(r) == (match json_of_bytes(body@) {
            Some(info) => picture_of(info),
            None => None,
        }),
        opt_text(r) == picture_in(body@),
{
    match parse_bytes(body) {
        Some(info) => find_picture(&info),
        None => None,
    }
}

/// What a pressed button asks for.
pub enum Callback {
    MainMenu,
    ChooseSave,
    StopServer,
    ManageSaves,
    StartSave { slot: String },
    DownloadSave { slot: String },
    /// Nothing that the bot knows.
    Unknown,
}

/// What a [`Callback`] says.
pub enum CallbackView {
    MainMenu,
    ChooseSave,
    StopServer,
    ManageSaves,
    StartSave { slot: Seq<char> },
    DownloadSave { slot: Seq<char> },
    Unknown,
}

impl View for Callback {
    type V = CallbackView;

    open spec fn view(&self) -> CallbackView {
        match self {
            Callback::MainMenu => CallbackView::MainMenu,
            Callback::ChooseSave => CallbackView::ChooseSave,
            Callback::StopServer => CallbackView::StopServer,
            Callback::ManageSaves => CallbackView::ManageSaves,
            Callback::StartSave { slot } => CallbackView::StartSave { slot: slot@ },
            Callback::DownloadSave { slot } => CallbackView::DownloadSave { slot: slot@ },
            Callback::Unknown => CallbackView::Unknown,
        }
    }
}

/// What follows a prefix, up to the next colon.
pub open spec fn part_after(data: Seq<char>, prefix: Seq<char>) -> Seq<char> {
    let start = prefix.len() as int;
    data.subrange(start, position_from(data, ':', start))
}

/// What a button asks for that tells the bot `data`.
pub open spec fn callback_of(data: Seq<char>) -> CallbackView {
    if data == "main_menu"@ {
        CallbackView::MainMenu
    } else if data == "choose_save"@ {
        CallbackView::ChooseSave
    } else if data == "stop_server"@ {
        CallbackView::StopServer
    } else if data == "manage_saves"@ {
        CallbackView::ManageSaves
    } else if begins_with(data, "start_save:"@) {
        CallbackView::StartSave { slot: part_after(data, "start_save:"@) }
    } else if begins_with(data, "download_save:"@) {
        CallbackView::DownloadSave { slot: part_after(data, "download_save:"@) }
    } else {
        CallbackView::Unknown
    }
}

fn take_part(data: &str, prefix: &str) -> (r: String)
    requires
        begins_with(data@, prefix@),
    ensures
        r@ == part_after(data@, prefix@),
{
    let start: usize = prefix.unicode_len();
    let end: usize = find_from(data, ':', start);
    data.substring_char(start, end).to_owned()
}

/// Reads what a button asks for.
pub fn parse_callback(data: &str) -> (r: Callback)
    ensures
        r@ == callback_of(data@),
{
    if same_text(data, "main_menu") {
        Callback::MainMenu
    } else if same_text(data, "choose_save") {
        Callback::ChooseSave
    } else if same_text(data, "stop_server") {
        Callback::StopServer
    } else if same_text(data, "manage_saves") {
        Callback::ManageSaves
    } else if starts_with(data, "start_save:") {
        Callback::StartSave { slot: take_part(data, "start_save:") }
    } else if starts_with(data, "download_save:") {
        Callback::DownloadSave { slot: take_part(data, "download_save:") }
    } else {
        Callback::Unknown
    }
}

/// The save slot of the zone that stands behind a slot of the menus.
pub open spec fn mapped_slot(slot: Seq<char>) -> Seq<char> {
    if slot == "2"@ {
        "slot2"@
    } else {
        "slot1"@
    }
}

/// Gives the save slot of the zone that stands behind a slot of the menus.
pub fn map_slot(slot: &str) -> (r: String)
    ensures
        r@ == mapped_slot(slot@),
{
    if same_text(slot, "2") {
        "slot2".to_owned()
    } else {
        "slot1".to_owned()
    }
}

} // verus!
