//! What the bot shows: texts with keyboards below them.

use crate::api::{FZClientState, StateView};
use vstd::prelude::*;

verus! {

/// A button of a keyboard.
pub struct Button {
    pub label: String,
    /// What the bot is told when the button is pressed.
    pub data: String,
}

/// Rows of buttons below a message.
pub struct Keyboard {
    pub rows: Vec<Vec<Button>>,
}

/// What a [`Button`] says.
pub struct ButtonView {
    pub label: Seq<char>,
    pub data: Seq<char>,
}

impl View for Button {
    type V = ButtonView;

    open spec fn view(&self) -> ButtonView {
        ButtonView { label: self.label@, data: self.data@ }
    }
}

impl View for Keyboard {
    type V = Seq<Seq<ButtonView>>;

    open spec fn view(&self) -> Seq<Seq<ButtonView>> {
        self.rows@.map_values(|row: Vec<Button>| row@.map_values(|b: Button| b@))
    }
}

/// A message of the bot.
pub struct Reply {
    pub text: String,
    /// Whether the text holds HTML markup.
    pub html: bool,
    pub keyboard: Option<Keyboard>,
}

/// What a [`Reply`] says.
pub struct ReplyView {
    pub text: Seq<char>,
    pub html: bool,
    pub keyboard: Option<Seq<Seq<ButtonView>>>,
}

impl View for Reply {
    type V = ReplyView;

    open spec fn view(&self) -> ReplyView {
        ReplyView {
            text: self.text@,
            html: self.html,
            keyboard: match self.keyboard {
                Some(keyboard) => Some(keyboard@),
                None => None,
            },
        }
    }
}

/// A button with a label and what it tells the bot.
pub open spec fn button_view(label: Seq<char>, data: Seq<char>) -> ButtonView {
    ButtonView { label, data }
}

fn button(label: &str, data: &str) -> (r: Button)
    ensures
        r@ == button_view(label@, data@),
{
    Button { label: label.to_owned(), data: data.to_owned() }
}

/// The main menu: start, stop, saves.
pub open spec fn main_menu() -> Seq<Seq<ButtonView>> {
    seq![
        seq![button_view("Старт"@, "choose_save"@), button_view("Стоп"@, "stop_server"@)],
        seq![button_view("Сохранения"@, "manage_saves"@)],
    ]
}

/// The way back to the main menu.
pub open spec fn back_menu() -> Seq<Seq<ButtonView>> {
    seq![seq![button_view("◀"@, "main_menu"@)]]
}

/// The choice between the two saves; `first` and `second` are what the buttons tell the bot.
pub open spec fn saves_menu(first: Seq<char>, second: Seq<char>) -> Seq<Seq<ButtonView>> {
    seq![
        seq![button_view("Vanilla"@, first)],
        seq![button_view("Space Age"@, second)],
        seq![button_view("Назад"@, "main_menu"@)],
    ]
}

/// Makes the main menu.
pub fn get_main_menu() -> (r: Keyboard)
    ensures
        r@ == main_menu(),
{
    let r = Keyboard {
        rows: vec![
            vec![button("Старт", "choose_save"), button("Стоп", "stop_server")],
            vec![button("Сохранения", "manage_saves")],
        ],
    };
    assert(r@ =~~= main_menu());
    r
}

/// Makes the way back to the main menu.
pub fn get_back_menu() -> (r: Keyboard)
    ensures
        r@ == back_menu(),
{
    let r = Keyboard { rows: vec![vec![button("◀", "main_menu")]] };
    assert(r@ =~~= back_menu());
    r
}

/// Makes the choice between the two saves.
pub fn get_saves_menu(first: &str, second: &str) -> (r: Keyboard)
    ensures
        r@ == saves_menu(first@, second@),
{
    let r = Keyboard {
        rows: vec![
            vec![button("Vanilla", first)],
            vec![button("Space Age", second)],
            vec![button("Назад", "main_menu")],
        ],
    };
    assert(r@ =~~= saves_menu(first@, second@));
    r
}

/// A message without markup and without a keyboard.
pub open spec fn plain_view(text: Seq<char>) -> ReplyView {
    ReplyView { text, html: false, keyboard: None }
}

/// Makes a message without markup and without a keyboard.
pub fn plain(text: &str) -> (r: Reply)
    ensures
        r@ == plain_view(text@),
{
    Reply { text: text.to_owned(), html: false, keyboard: None }
}

/// The message that shows the server's status and address, with the main menu.
pub open spec fn status_reply(state: StateView) -> ReplyView {
    ReplyView {
        text: "Статус сервера: <code>"@ + state.server_status.name() + "</code>\nIP: <code>"@ + (
        match state.server_address {
            Some(address) => address,
            None => "N/A"@,
        }) + "</code>"@,
        html: true,
        keyboard: Some(main_menu()),
    }
}

/// Makes the message that shows the server's status and address.
pub fn make_status_reply(state: &FZClientState) -> (r: Reply)
    ensures
        r@ == status_reply(state@),
{
    let status = state.server_status.text();
    let address: &str = match &state.server_address {
        Some(address) => address.as_str(),
        None => "N/A",
    };
    let text = "Статус сервера: <code>".to_owned().concat(status.as_str()).concat(
        "</code>\nIP: <code>",
    ).concat(address).concat("</code>");
    Reply { text, html: true, keyboard: Some(get_main_menu()) }
}

} // verus!
