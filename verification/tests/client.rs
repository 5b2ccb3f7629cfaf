use fz_bot::api::{DownloadError, FZClient, LauncherResponse, StopperResponse};
use fz_bot::json::{parse_text, Json};
use fz_bot::reconnect::Reconnect;
use fz_bot::request::{socket_host, socket_url, FormRequest, FACTORIO_ZONE_ENDPOINT};
use fz_bot::status::ServerStatus;

fn fields(request: &FormRequest) -> Vec<(&str, &str)> {
    request
        .fields
        .iter()
        .map(|(name, value)| (name.as_str(), value.as_str()))
        .collect()
}

#[test]
fn new_client_is_offline() {
    let client = FZClient::new("token");
    assert_eq!(client.state.user_token, "token");
    assert_eq!(client.state.visit_secret, None);
    assert_eq!(client.state.server_status, ServerStatus::OFFLINE);
    assert_eq!(client.state.server_address, None);
    assert_eq!(client.state.launch_id, None);
    assert!(client.state.mods.is_empty());
    assert!(matches!(client.state.saves, Json::Null));
    assert!(!client.state.mods_sync);
    assert!(!client.state.saves_sync);
}

#[test]
fn waits_double_up_to_a_minute() {
    let mut client = FZClient::new("token");
    for secs in [1, 2, 4, 8, 16, 32, 60, 60, 60] {
        assert_eq!(client.connect(true), Reconnect::After { secs });
    }
    assert_eq!(client.connect(false), Reconnect::Now);
    assert_eq!(client.connect(true), Reconnect::After { secs: 1 });
    assert_eq!(client.connect(true), Reconnect::After { secs: 2 });
}

#[test]
fn visit_leads_to_login() {
    let mut client = FZClient::new("token");
    let request = client.receive(r#"{"type":"visit","secret":"s3"}"#).unwrap();
    assert_eq!(client.state.visit_secret, Some("s3".to_string()));
    assert_eq!(request.url, "https://factorio.zone/api/user/login");
    assert_eq!(
        fields(&request),
        vec![("userToken", "token"), ("visitSecret", "s3"), ("reconnected", "false")]
    );
    assert_eq!(request.timeout_secs, None);
}

#[test]
fn visit_without_secret_forgets_the_old_one() {
    let mut client = FZClient::new("token");
    client.receive(r#"{"type":"visit","secret":"s3"}"#);
    assert!(client.receive(r#"{"type":"visit","secret":5}"#).is_some());
    assert_eq!(client.state.visit_secret, None);
    assert_eq!(fields(&client.login())[1], ("visitSecret", ""));
}

#[test]
fn secret_lasts() {
    let mut client = FZClient::new("token");
    client.receive(r#"{"type":"visit","secret":"s3"}"#);
    client.receive(r#"{"type":"idle"}"#);
    client.receive(r#"{"type":"running","launchId":1,"socket":"1.2.3.4:5"}"#);
    client.receive(r#"{"type":"mods","mods":[]}"#);
    assert_eq!(fields(&client.stop_instance())[0], ("visitSecret", "s3"));
    assert_eq!(client.state.user_token, "token");
}

#[test]
fn saves_arrive() {
    let mut client = FZClient::new("token");
    client.receive(r#"{"type":"options","name":"regions","options":{"a":1}}"#);
    assert!(!client.state.saves_sync);
    assert!(client.receive(r#"{"type":"options","name":"saves","options":{"slot1":"x"}}"#).is_none());
    assert!(client.state.saves_sync);
    assert_eq!(client.state.saves.member_text("slot1"), Some("x".to_string()));
    client.receive(r#"{"type":"options","name":"saves"}"#);
    assert!(matches!(client.state.saves, Json::Null));
    assert!(client.state.saves_sync);
}

#[test]
fn mods_arrive() {
    let mut client = FZClient::new("token");
    client.receive(r#"{"type":"mods","mods":["a",{"id":3}]}"#);
    assert!(client.state.mods_sync);
    assert_eq!(client.state.mods.len(), 2);
    assert_eq!(client.state.mods[1].member_integer("id"), Some(3));
    client.receive(r#"{"type":"mods","mods":"none"}"#);
    assert!(client.state.mods.is_empty());
    assert!(client.state.mods_sync);
}

#[test]
fn status_follows_messages() {
    let mut client = FZClient::new("token");
    client.receive(r#"{"type":"starting","launchId":12}"#);
    assert_eq!(client.state.server_status, ServerStatus::STARTING);
    assert_eq!(client.state.launch_id, Some("12".to_string()));
    client.receive(r#"{"type":"running","launchId":-3,"socket":"1.2.3.4:5"}"#);
    assert_eq!(client.state.server_status, ServerStatus::RUNNING);
    assert_eq!(client.state.launch_id, Some("-3".to_string()));
    assert_eq!(client.state.server_address, Some("1.2.3.4:5".to_string()));
    client.receive(r#"{"type":"stopping"}"#);
    assert_eq!(client.state.server_status, ServerStatus::STOPPING);
    assert_eq!(client.state.launch_id, None);
    assert_eq!(client.state.server_address, Some("1.2.3.4:5".to_string()));
    client.receive(r#"{"type":"idle"}"#);
    assert_eq!(client.state.server_status, ServerStatus::OFFLINE);
    assert_eq!(client.state.server_address, None);
    assert_eq!(client.state.launch_id, None);
}

#[test]
fn messages_may_come_twice() {
    let mut client = FZClient::new("token");
    for _ in 0..2 {
        client.receive(r#"{"type":"running","launchId":9223372036854775807,"socket":"a"}"#);
        assert_eq!(client.state.launch_id, Some("9223372036854775807".to_string()));
        assert_eq!(client.state.server_address, Some("a".to_string()));
        assert_eq!(client.state.server_status, ServerStatus::RUNNING);
    }
}

#[test]
fn log_line_announces_address() {
    let mut client = FZClient::new("token");
    client.receive(r#"{"type":"info","line":"nothing to see"}"#);
    assert_eq!(client.state.server_status, ServerStatus::OFFLINE);
    assert_eq!(client.state.server_address, None);
    client.receive(r#"{"type":"info","line":"now selecting connection 5.6.7.8:90."}"#);
    assert_eq!(client.state.server_status, ServerStatus::STARTING);
    assert_eq!(client.state.server_address, Some("5.6.7.8:90".to_string()));
    client.receive(r#"{"type":"info"}"#);
    assert_eq!(client.state.server_address, Some("5.6.7.8:90".to_string()));
}

#[test]
fn other_messages_are_passed_over() {
    let mut client = FZClient::new("token");
    for text in ["", "x", "[]", "null", "{}", r#"{"type":5}"#, r#"{"type":"visits"}"#, r#"["type","visit"]"#] {
        assert!(client.receive(text).is_none());
        assert_eq!(client.state.server_status, ServerStatus::OFFLINE);
        assert_eq!(client.state.visit_secret, None);
    }
}

#[test]
fn given_message_is_handled() {
    let mut client = FZClient::new("token");
    let message = Json::Object(vec![
        ("type".to_string(), Json::Str("starting".to_string())),
        (
            "launchId".to_string(),
            Json::Number { integer: Some(-9223372036854775808), text: String::new() },
        ),
    ]);
    assert!(client.handle_message(message).is_none());
    assert_eq!(client.state.launch_id, Some("-9223372036854775808".to_string()));
}

#[test]
fn login_gives_a_token() {
    let mut client = FZClient::new("old");
    client.login_reply(b"{\"userToken\":\"new\"}");
    assert_eq!(client.state.user_token, "new");
    assert_eq!(fields(&client.login())[0], ("userToken", "new"));
    client.login_reply(b"{\"userToken\":1}");
    client.login_reply(b"{");
    client.login_reply(b"[]");
    assert_eq!(client.state.user_token, "new");
    client.accept_login(&parse_text(r#"{"userToken":"newer"}"#).unwrap());
    assert_eq!(client.state.user_token, "newer");
}

#[test]
fn mod_is_toggled() {
    let client = FZClient::new("token");
    let request = client.toggle_mod(-40, true);
    assert_eq!(request.url, "https://factorio.zone/api/mod/toggle");
    assert_eq!(
        fields(&request),
        vec![("visitSecret", ""), ("modId", "-40"), ("enabled", "true")]
    );
    assert_eq!(fields(&client.toggle_mod(0, false))[1..], [("modId", "0"), ("enabled", "false")]);
    assert_eq!(fields(&client.toggle_mod(i64::MIN, false))[1].1, i64::MIN.to_string());
    assert_eq!(fields(&client.toggle_mod(i64::MAX, false))[1].1, i64::MAX.to_string());
}

#[test]
fn save_is_downloaded() {
    let client = FZClient::new("token");
    let request = client.download_save_slot("slot2");
    assert_eq!(request.url, "https://factorio.zone/api/save/download");
    assert_eq!(fields(&request), vec![("visitSecret", ""), ("save", "slot2")]);
    assert_eq!(FZClient::download_reply(200), Ok(()));
    assert_eq!(FZClient::download_reply(299), Ok(()));
    assert_eq!(FZClient::download_reply(199), Err(DownloadError::Refused));
    assert_eq!(FZClient::download_reply(300), Err(DownloadError::Refused));
    assert_eq!(DownloadError::Refused.text(), "Failed to download save");
}

#[test]
fn server_is_started() {
    let mut client = FZClient::new("token");
    client.receive(r#"{"type":"visit","secret":"s"}"#);
    let request = client.start_instance("eu-north-1", "2.0.55", "slot2");
    assert_eq!(request.url, "https://factorio.zone/api/instance/start");
    assert_eq!(
        fields(&request),
        vec![
            ("visitSecret", "s"),
            ("region", "eu-north-1"),
            ("version", "2.0.55"),
            ("save", "slot2"),
            ("options", r#"{"elevated-rails":true,"quality":true,"space-age":true}"#),
        ]
    );
    assert_eq!(
        fields(&client.start_instance("r", "v", "slot1"))[4],
        ("options", r#"{"elevated-rails":false,"quality":false,"space-age":false}"#)
    );
    let reply = LauncherResponse { status_code: 200, launch_id: u64::MAX, status_reason: None };
    assert_eq!(
        client.start_reply(Some(reply), "body"),
        "Instance started successfully with launch ID: 18446744073709551615"
    );
    assert_eq!(client.state.server_status, ServerStatus::STARTING);
    assert_eq!(fields(&client.stop_instance())[1], ("launchId", "18446744073709551615"));
}

#[test]
fn start_is_refused() {
    let mut client = FZClient::new("token");
    let reply = LauncherResponse {
        status_code: 201,
        launch_id: 5,
        status_reason: Some("busy".to_string()),
    };
    assert_eq!(client.start_reply(Some(reply), ""), "Failed to start instance: [201] busy");
    let reply = LauncherResponse { status_code: 0, launch_id: 5, status_reason: None };
    assert_eq!(client.start_reply(Some(reply), ""), "Failed to start instance: [0] Unknown error");
    assert_eq!(client.start_reply(None, "oops"), "Failed to send start request: HTTP oops");
    assert_eq!(client.state.launch_id, None);
    assert_eq!(client.state.server_status, ServerStatus::OFFLINE);
}

#[test]
fn server_is_stopped() {
    let mut client = FZClient::new("token");
    client.receive(r#"{"type":"running","launchId":7,"socket":"a"}"#);
    let request = client.stop_instance();
    assert_eq!(request.url, "https://factorio.zone/api/instance/stop");
    assert_eq!(fields(&request), vec![("visitSecret", ""), ("launchId", "7")]);
    assert_eq!(request.timeout_secs, Some(3600));
    assert_eq!(
        client.stop_reply(Some(StopperResponse { status_code: 100 }), "no"),
        Some("Failed to send stop request: HTTP no".to_string())
    );
    assert_eq!(
        client.stop_reply(None, ""),
        Some("Failed to send stop request: HTTP ".to_string())
    );
    assert_eq!(client.state.server_status, ServerStatus::RUNNING);
    assert_eq!(client.stop_reply(Some(StopperResponse { status_code: 200 }), "ok"), None);
    assert_eq!(client.state.server_status, ServerStatus::OFFLINE);
    assert_eq!(client.state.server_address, Some("a".to_string()));
}

#[test]
fn no_field_comes_twice() {
    let client = FZClient::new("token");
    for request in [
        client.login(),
        client.toggle_mod(1, true),
        client.download_save_slot("slot1"),
        client.start_instance("r", "v", "slot1"),
        client.stop_instance(),
    ] {
        let mut names: Vec<&str> = request.fields.iter().map(|(name, _)| name.as_str()).collect();
        names.sort();
        let count = names.len();
        names.dedup();
        assert_eq!(names.len(), count);
    }
}

#[test]
fn addresses_of_the_zone() {
    assert_eq!(FACTORIO_ZONE_ENDPOINT, "factorio.zone");
    assert_eq!(socket_url(), "wss://factorio.zone/ws");
    assert_eq!(socket_host(), "factorio.zone:443");
}

#[test]
fn numbers_are_written_apart() {
    let client = FZClient::new("token");
    let mut texts: Vec<String> = Vec::new();
    for n in [-101, -11, -10, -1, 0, 1, 9, 10, 11, 99, 100, 101, 110] {
        let text = client.toggle_mod(n, true).fields[1].1.clone();
        assert_eq!(text, n.to_string());
        assert!(!texts.contains(&text));
        texts.push(text);
    }
}

#[test]
fn lists_stay_through_other_messages() {
    let mut client = FZClient::new("token");
    client.receive(r#"{"type":"mods","mods":["a"]}"#);
    client.receive(r#"{"type":"options","name":"saves","options":["b","c"]}"#);
    for text in [r#"{"type":"idle","mods":[]}"#, r#"{"type":"visit","mods":[],"options":1}"#] {
        client.receive(text);
    }
    client.login_reply(b"{\"userToken\":\"t\",\"secret\":\"x\"}");
    assert_eq!(client.state.mods.len(), 1);
    assert!(matches!(&client.state.saves, Json::Array(saves) if saves.len() == 2));
    assert_eq!(client.state.visit_secret, None);
}
