use fz_bot::api::FZClient;
use fz_bot::bot::{map_slot, message_handler, parse_callback, post_picture, Callback, MessageAction};
use fz_bot::flow::{callback_handler, Action, Event, Step, Target};
use fz_bot::menu::{get_back_menu, get_main_menu, get_saves_menu, Keyboard, Reply};
use fz_bot::vote::{make_vote_reply, vote_outcome, VoteOutcome};

fn rows(keyboard: &Keyboard) -> Vec<Vec<(&str, &str)>> {
    keyboard
        .rows
        .iter()
        .map(|row| row.iter().map(|b| (b.label.as_str(), b.data.as_str())).collect())
        .collect()
}

fn main_rows() -> Vec<Vec<(&'static str, &'static str)>> {
    vec![
        vec![("Старт", "choose_save"), ("Стоп", "stop_server")],
        vec![("Сохранения", "manage_saves")],
    ]
}

fn edited(action: &Action, target: Target) -> &Reply {
    match action {
        Action::Edit { target: t, reply } => {
            assert_eq!(*t, target);
            reply
        }
        _ => panic!("not an edit"),
    }
}

fn sent(action: &Action) -> &Reply {
    match action {
        Action::Send { reply } => reply,
        _ => panic!("not a message"),
    }
}

#[test]
fn menus() {
    assert_eq!(rows(&get_main_menu()), main_rows());
    assert_eq!(rows(&get_back_menu()), vec![vec![("◀", "main_menu")]]);
    assert_eq!(
        rows(&get_saves_menu("a", "b")),
        vec![vec![("Vanilla", "a")], vec![("Space Age", "b")], vec![("Назад", "main_menu")]]
    );
}

#[test]
fn start_shows_the_status() {
    let mut client = FZClient::new("token");
    match message_handler(Some("/start"), &client.state) {
        MessageAction::Send { reply } => {
            assert_eq!(
                reply.text,
                "Статус сервера: <code>OFFLINE</code>\nIP: <code>N/A</code>"
            );
            assert!(reply.html);
            assert_eq!(rows(reply.keyboard.as_ref().unwrap()), main_rows());
        }
        _ => panic!("not a message"),
    }
    client.receive(r#"{"type":"running","socket":"1.2.3.4:5"}"#);
    match message_handler(Some("/start"), &client.state) {
        MessageAction::Send { reply } => assert_eq!(
            reply.text,
            "Статус сервера: <code>RUNNING</code>\nIP: <code>1.2.3.4:5</code>"
        ),
        _ => panic!("not a message"),
    }
}

#[test]
fn links_are_followed() {
    let client = FZClient::new("token");
    match message_handler(Some("https://factoriobin.com/post/xyz"), &client.state) {
        MessageAction::ShowPost { info_url } => {
            assert_eq!(info_url, "https://factoriobin.com/post/xyz/info.json")
        }
        _ => panic!("not a post"),
    }
    for text in [None, Some(""), Some("hello"), Some("/start "), Some("factoriobin.com")] {
        assert!(matches!(message_handler(text, &client.state), MessageAction::Ignore));
    }
}

#[test]
fn picture_of_a_post() {
    assert_eq!(
        post_picture(br#"{"node":{"renderImageUrl":"https://x/y.png"}}"#),
        Some("https://x/y.png".to_string())
    );
    assert_eq!(post_picture(br#"{"node":{"renderImageUrl":1}}"#), None);
    assert_eq!(post_picture(br#"{"node":"renderImageUrl"}"#), None);
    assert_eq!(post_picture(br#"{"renderImageUrl":"https://x/y.png"}"#), None);
    assert_eq!(post_picture(b"<html>"), None);
}

#[test]
fn callbacks() {
    assert!(matches!(parse_callback("main_menu"), Callback::MainMenu));
    assert!(matches!(parse_callback("choose_save"), Callback::ChooseSave));
    assert!(matches!(parse_callback("stop_server"), Callback::StopServer));
    assert!(matches!(parse_callback("manage_saves"), Callback::ManageSaves));
    for (data, slot) in [
        ("start_save:1", "1"),
        ("start_save:2:x", "2"),
        ("start_save:", ""),
        ("start_save::2", ""),
        ("start_save:я", "я"),
    ] {
        match parse_callback(data) {
            Callback::StartSave { slot: read } => assert_eq!(read, slot),
            _ => panic!("not a start"),
        }
    }
    match parse_callback("download_save:2:3") {
        Callback::DownloadSave { slot } => assert_eq!(slot, "2"),
        _ => panic!("not a download"),
    }
    for data in ["", "start_save", "Main_menu", "main_menu ", "x:start_save:1"] {
        assert!(matches!(parse_callback(data), Callback::Unknown));
    }
}

#[test]
fn slots() {
    assert_eq!(map_slot("2"), "slot2");
    assert_eq!(map_slot("1"), "slot1");
    assert_eq!(map_slot(""), "slot1");
    assert_eq!(map_slot("22"), "slot1");
}

#[test]
fn votes() {
    assert_eq!(vote_outcome(0, 0), VoteOutcome::NobodyCame);
    assert_eq!(vote_outcome(2, 2), VoteOutcome::TooFew);
    assert_eq!(vote_outcome(1, 1), VoteOutcome::Decided { run: true });
    assert_eq!(vote_outcome(0, 1), VoteOutcome::Decided { run: false });
    assert_eq!(vote_outcome(3, 5), VoteOutcome::Decided { run: false });
    assert_eq!(vote_outcome(4, 5), VoteOutcome::Decided { run: true });
    assert_eq!(vote_outcome(u32::MAX, u32::MAX), VoteOutcome::Decided { run: true });
}

#[test]
fn votes_agree_with_percentages() {
    let mut pairs = Vec::new();
    for total in 3u32..300 {
        for yes in 0..=total {
            pairs.push((yes, total));
        }
    }
    for fifth in (u32::MAX / 5 - 50)..=(u32::MAX / 5) {
        for near in [3 * fifth - 1, 3 * fifth, 3 * fifth + 1] {
            pairs.push((near, 5 * fifth));
            pairs.push((near, 5 * fifth - 1));
        }
    }
    for (yes, total) in pairs {
        let percentage = (yes as f64 / total as f64) * 100.0;
        assert_eq!(vote_outcome(yes, total), VoteOutcome::Decided { run: percentage > 60.0 });
    }
}

#[test]
fn votes_are_told() {
    let reply = make_vote_reply(0, 0);
    assert_eq!(reply.text, "<i>но никто не пришел...</i>\nГолосование окончено.");
    assert!(reply.html);
    let reply = make_vote_reply(1, 2);
    assert_eq!(reply.text, "Проголосовало меньше 3 человек.\nГолосование окончено.");
    assert!(!reply.html);
    let reply = make_vote_reply(10, 12);
    assert_eq!(
        reply.text,
        "Голосование окончено.\n\n<blockquote>Всего голосов: 12\nГолосов за <code>Да</code>: 10</blockquote>\n\nСервер будет запущен."
    );
    assert!(reply.html);
    assert!(reply.keyboard.is_none());
    let reply = make_vote_reply(1, 3);
    assert_eq!(
        reply.text,
        "Голосование окончено.\n\n<blockquote>Всего голосов: 3\nГолосов за <code>Да</code>: 1</blockquote>\n\nСервер не будет запущен."
    );
}

#[test]
fn nothing_to_do() {
    let client = FZClient::new("token");
    for (data, message) in [(None, true), (Some("main_menu"), false), (Some("x"), true)] {
        let (step, action) = callback_handler(data, message, &client.state);
        assert!(matches!(step, Step::Over));
        assert!(matches!(action, Action::Finish));
    }
}

#[test]
fn menus_are_shown() {
    let client = FZClient::new("token");
    let (step, action) = callback_handler(Some("main_menu"), true, &client.state);
    let reply = edited(&action, Target::Menu);
    assert_eq!(reply.text, "Статус сервера: <code>OFFLINE</code>\nIP: <code>N/A</code>");
    assert!(reply.html);
    let (step, action) = step.next(Event::Succeeded, &client.state);
    assert!(matches!(step, Step::Over));
    assert!(matches!(action, Action::Finish));

    for (data, text, prefix) in [
        ("choose_save", "Выберите сохранение для запуска:", "start_save:"),
        ("manage_saves", "Выберите сохранение для скачивания:", "download_save:"),
    ] {
        let (_, action) = callback_handler(Some(data), true, &client.state);
        let reply = edited(&action, Target::Menu);
        assert_eq!(reply.text, text);
        assert!(!reply.html);
        let first = format!("{}1", prefix);
        let second = format!("{}2", prefix);
        assert_eq!(
            rows(reply.keyboard.as_ref().unwrap()),
            rows(&get_saves_menu(&first, &second))
        );
    }
}

#[test]
fn every_shown_button_is_known() {
    for keyboard in [
        get_main_menu(),
        get_back_menu(),
        get_saves_menu("start_save:1", "start_save:2"),
        get_saves_menu("download_save:1", "download_save:2"),
    ] {
        for row in keyboard.rows {
            for button in row {
                assert!(!matches!(parse_callback(&button.data), Callback::Unknown));
            }
        }
    }
}

#[test]
fn failure_ends_the_conversation() {
    let client = FZClient::new("token");
    for data in ["main_menu", "stop_server", "start_save:1", "download_save:1"] {
        let (step, _) = callback_handler(Some(data), true, &client.state);
        assert!(step.expects(&Event::Failed));
        let (step, action) = step.next(Event::Failed, &client.state);
        assert!(matches!(step, Step::Over));
        assert!(matches!(action, Action::Fail));
        assert!(!step.expects(&Event::Succeeded));
    }
}

#[test]
fn stop_conversation() {
    let mut client = FZClient::new("token");
    client.receive(r#"{"type":"running","launchId":1,"socket":"a"}"#);
    let (step, action) = callback_handler(Some("stop_server"), true, &client.state);
    let reply = edited(&action, Target::Menu);
    assert_eq!(reply.text, "Останавливаем...");
    assert!(reply.keyboard.is_none());
    let (step, action) = step.next(Event::Succeeded, &client.state);
    assert!(matches!(action, Action::StopInstance));
    let (step, action) = step.next(Event::Failed, &client.state);
    assert!(matches!(action, Action::Wait { secs: 5 }));
    let (step, action) = step.next(Event::Succeeded, &client.state);
    assert!(matches!(action, Action::Wait { secs: 5 }));
    client.receive(r#"{"type":"idle"}"#);
    let (step, action) = step.next(Event::Succeeded, &client.state);
    let reply = edited(&action, Target::Menu);
    assert_eq!(reply.text, "Сервер остановлен.");
    assert_eq!(rows(reply.keyboard.as_ref().unwrap()), rows(&get_back_menu()));
    let (_, action) = step.next(Event::Succeeded, &client.state);
    assert!(matches!(action, Action::Finish));
}

fn voted(client: &FZClient, data: &str, yes: u32, total: u32) -> (Step, Action) {
    let (step, action) = callback_handler(Some(data), true, &client.state);
    assert!(matches!(action, Action::Answer));
    let (step, action) = step.next(Event::Succeeded, &client.state);
    match action {
        Action::OpenPoll { question, yes, no, anonymous, open_secs } => {
            assert_eq!(question, "Запускаем сервер?");
            assert_eq!(yes, "Да");
            assert_eq!(no, "Нет");
            assert!(!anonymous);
            assert_eq!(open_secs, 62);
        }
        _ => panic!("not a poll"),
    }
    let (step, action) = step.next(Event::Succeeded, &client.state);
    assert!(matches!(action, Action::Wait { secs: 60 }));
    let (step, action) = step.next(Event::Succeeded, &client.state);
    assert!(matches!(action, Action::ClosePoll));
    assert!(!step.expects(&Event::Succeeded));
    assert!(step.expects(&Event::PollClosed { yes, total }));
    let (step, action) = step.next(Event::PollClosed { yes, total }, &client.state);
    assert!(matches!(action, Action::DeletePoll));
    step.next(Event::Failed, &client.state)
}

#[test]
fn won_vote_starts_the_server() {
    let mut client = FZClient::new("token");
    let (step, action) = voted(&client, "start_save:2", 3, 3);
    assert_eq!(sent(&action).text, make_vote_reply(3, 3).text);
    let (step, action) = step.next(Event::Succeeded, &client.state);
    match action {
        Action::StartInstance { region, version, save } => {
            assert_eq!(region, "eu-north-1");
            assert_eq!(version, "2.0.55");
            assert_eq!(save, "slot2");
        }
        _ => panic!("not a start"),
    }
    let (step, action) = step.next(Event::Failed, &client.state);
    assert_eq!(sent(&action).text, "Сервер запускается...");
    let (step, action) = step.next(Event::Succeeded, &client.state);
    assert!(matches!(action, Action::Wait { secs: 5 }));
    client.receive(r#"{"type":"running","launchId":1,"socket":"1.2.3.4:5"}"#);
    let (step, action) = step.next(Event::Succeeded, &client.state);
    let reply = edited(&action, Target::LastSent);
    assert_eq!(reply.text, "<code>1.2.3.4:5</code>");
    assert!(reply.html);
    assert_eq!(rows(reply.keyboard.as_ref().unwrap()), rows(&get_back_menu()));
    let (_, action) = step.next(Event::Succeeded, &client.state);
    assert!(matches!(action, Action::Finish));
}

#[test]
fn running_server_without_address() {
    let mut client = FZClient::new("token");
    client.receive(r#"{"type":"running"}"#);
    let (step, _) = voted(&client, "start_save:1", 1, 1);
    let (step, action) = step.next(Event::Succeeded, &client.state);
    assert!(matches!(&action, Action::StartInstance { save, .. } if save == "slot1"));
    let (step, _) = step.next(Event::Succeeded, &client.state);
    let (_, action) = step.next(Event::Succeeded, &client.state);
    assert_eq!(edited(&action, Target::LastSent).text, "<code></code>");
}

#[test]
fn lost_votes_end_the_conversation() {
    let client = FZClient::new("token");
    for (yes, total) in [(0, 0), (2, 2), (3, 5), (0, 1)] {
        let (step, action) = voted(&client, "start_save:1", yes, total);
        assert_eq!(sent(&action).text, make_vote_reply(yes, total).text);
        let (step, action) = step.next(Event::Succeeded, &client.state);
        assert!(matches!(step, Step::Over));
        assert!(matches!(action, Action::Finish));
    }
}

#[test]
fn download_conversation() {
    let client = FZClient::new("token");
    let (step, action) = callback_handler(Some("download_save:2"), true, &client.state);
    assert_eq!(edited(&action, Target::Menu).text, "Загрузка сейва 2...");
    let (step, action) = step.next(Event::Succeeded, &client.state);
    assert!(matches!(&action, Action::Download { save } if save == "slot2"));
    assert!(!step.expects(&Event::Failed));
    let (step, action) = step.next(Event::Succeeded, &client.state);
    match action {
        Action::SendFile { file_name, caption } => {
            assert_eq!(file_name, "2.zip");
            assert_eq!(caption, "Сейв 2");
        }
        _ => panic!("not a file"),
    }
    let (_, action) = step.next(Event::Succeeded, &client.state);
    assert!(matches!(action, Action::Finish));
}

#[test]
fn download_fails() {
    let client = FZClient::new("token");
    let (step, _) = callback_handler(Some("download_save:7"), true, &client.state);
    let (step, action) = step.next(Event::Succeeded, &client.state);
    assert!(matches!(&action, Action::Download { save } if save == "slot1"));
    let event = Event::DownloadFailed { error: "Failed to download save".to_string() };
    assert!(step.expects(&event));
    let (step, action) = step.next(event, &client.state);
    assert_eq!(edited(&action, Target::Menu).text, "Ошибка загрузки: Failed to download save");
    let (_, action) = step.next(Event::Succeeded, &client.state);
    assert!(matches!(action, Action::Finish));
}

#[test]
fn more_votes_never_lose() {
    for total in [1u32, 3, 4, 5, 10, 99] {
        let mut won = false;
        for yes in 0..=total {
            let run = vote_outcome(yes, total) == VoteOutcome::Decided { run: true };
            assert!(run || !won);
            won = run;
        }
        assert!(won);
    }
}

#[test]
fn only_its_button_stops_the_server() {
    let client = FZClient::new("token");
    for data in ["main_menu", "choose_save", "manage_saves", "download_save:1", "start_save:1"] {
        let (step, action) = callback_handler(Some(data), true, &client.state);
        assert!(!matches!(action, Action::StopInstance));
        let (_, action) = step.next(Event::Succeeded, &client.state);
        assert!(!matches!(action, Action::StopInstance));
    }
}
