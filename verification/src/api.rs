//! The client of the zone: what it knows of the server, what it asks for, and what it learns
//! from the answers.

use crate::json::{json_of_bytes, json_of_text, json_view, parse_bytes, parse_text, Json, JsonView};
use crate::pattern::{announced_address, find_address};
use crate::reconnect::{
    ended, next_delay, Backoff, Reconnect, MAX_RECONNECT_DELAY, MIN_RECONNECT_DELAY,
};
use crate::request::{field, fields_view, make_page_url, page_url, FormRequest, FormRequestView};
use crate::status::ServerStatus;
use crate::text::{
    bool_text, decimal, i64_text, opt_text, or_empty, same_text, signed_decimal,
    text_or_empty, u64_text,
};
use vstd::prelude::*;

verus! {

/// The zone's answer to a request to stop the server.
pub struct StopperResponse {
    pub status_code: u8,
}

/// The zone's answer to a request to start a server.
pub struct LauncherResponse {
    pub status_code: u8,
    pub launch_id: u64,
    pub status_reason: Option<String>,
}

/// The status code of an answer that grants the request.
pub const GRANTED: u8 = 200;

/// How many seconds the zone may take to stop a server.
pub const STOP_TIMEOUT_SECS: u64 = 3600;

/// What the client knows.
pub struct FZClientState {
    /// The secret of the current visit, which every request carries.
    pub visit_secret: Option<String>,
    pub user_token: String,
    pub server_status: ServerStatus,
    pub server_address: Option<String>,
    pub launch_id: Option<String>,
    pub mods: Vec<Json>,
    pub saves: Json,
    /// Whether the list of mods has arrived.
    pub mods_sync: bool,
    /// Whether the list of saves has arrived.
    pub saves_sync: bool,
}

/// What a [`FZClientState`] says.
pub struct StateView {
    pub visit_secret: Option<Seq<char>>,
    pub user_token: Seq<char>,
    pub server_status: ServerStatus,
    pub server_address: Option<Seq<char>>,
    pub launch_id: Option<Seq<char>>,
    pub mods: Seq<JsonView>,
    pub saves: JsonView,
    pub mods_sync: bool,
    pub saves_sync: bool,
}

/// The view of a list of documents.
pub open spec fn list_view(items: Vec<Json>) -> Seq<JsonView> {
    json_view(Json::Array(items))->Array_0
}

impl View for FZClientState {
    type V = StateView;

    open spec fn view(&self) -> StateView {
        StateView {
            visit_secret: opt_text(self.visit_secret),
            user_token: self.user_token@,
            server_status: self.server_status,
            server_address: opt_text(self.server_address),
            launch_id: opt_text(self.launch_id),
            mods: list_view(self.mods),
            saves: self.saves@,
            mods_sync: self.mods_sync,
            saves_sync: self.saves_sync,
        }
    }
}

/// The kind of a message of the zone; empty where it does not say.
pub open spec fn message_kind(message: JsonView) -> Seq<char> {
    or_empty(message.member_text("type"@))
}

/// The launch that a message is about, in decimal notation.
pub open spec fn message_launch(message: JsonView) -> Option<Seq<char>> {
    match message.member_integer("launchId"@) {
        Some(n) => Some(signed_decimal(n as int)),
        None => None,
    }
}

impl StateView {
    /// The state of a client that has heard nothing yet.
    pub open spec fn initial(token: Seq<char>) -> StateView {
        StateView {
            visit_secret: None,
            user_token: token,
            server_status: ServerStatus::OFFLINE,
            server_address: None,
            launch_id: None,
            mods: Seq::empty(),
            saves: JsonView::Null,
            mods_sync: false,
            saves_sync: false,
        }
    }

    /// The state after a message of the zone.
    pub open spec fn after_message(self, message: JsonView) -> StateView {
        let kind = message_kind(message);
        if kind == "visit"@ {
            StateView { visit_secret: message.member_text("secret"@), ..self }
        } else if kind == "options"@ {
            if message.member_text("name"@) == Some("saves"@) {
                StateView {
                    saves: match message.member("options"@) {
                        Some(saves) => saves,
                        None => JsonView::Null,
                    },
                    saves_sync: true,
                    ..self
                }
            } else {
                self
            }
        } else if kind == "mods"@ {
            StateView {
                mods: match message.member("mods"@) {
                    Some(JsonView::Array(mods)) => mods,
                    _ => Seq::empty(),
                },
                mods_sync: true,
                ..self
            }
        } else if kind == "idle"@ {
            StateView {
                launch_id: None,
                server_status: ServerStatus::OFFLINE,
                server_address: None,
                ..self
            }
        } else if kind == "starting"@ {
            StateView {
                launch_id: message_launch(message),
                server_status: ServerStatus::STARTING,
                ..self
            }
        } else if kind == "stopping"@ {
            StateView {
                launch_id: message_launch(message),
                server_status: ServerStatus::STOPPING,
                ..self
            }
        } else if kind == "running"@ {
            StateView {
                launch_id: message_launch(message),
                server_address: message.member_text("socket"@),
                server_status: ServerStatus::RUNNING,
                ..self
            }
        } else if kind == "info"@ {
            self.after_info(message.member_text("line"@))
        } else {
            self
        }
    }

    /// The state after a text from the stream of messages.
    pub open spec fn after_text(self, text: Seq<char>) -> StateView {
        match json_of_text(text) {
            Some(message) => self.after_message(message),
            None => self,
        }
    }

    /// The state after the body of an answer to a login.
    pub open spec fn after_login_body(self, body: Seq<u8>) -> StateView {
        match json_of_bytes(body) {
            Some(body) => self.after_login(body),
            None => self,
        }
    }

    /// The state after a log line of the server: an address that the line announces is kept.
    pub open spec fn after_info(self, line: Option<Seq<char>>) -> StateView {
        match line {
            Some(line) => match announced_address(line) {
                Some(address) => StateView {
                    server_address: Some(address),
                    server_status: ServerStatus::STARTING,
                    ..self
                },
                None => self,
            },
            None => self,
        }
    }

    /// The state after an answer to a login: a token that it holds replaces the client's.
    pub open spec fn after_login(self, body: JsonView) -> StateView {
        match body.member_text("userToken"@) {
            Some(token) => StateView { user_token: token, ..self },
            None => self,
        }
    }

    /// The state after an answer to a request to start a server.
    pub open spec fn after_start(self, reply: Option<LauncherResponse>) -> StateView {
        match reply {
            Some(reply) => if reply.status_code == GRANTED {
                StateView {
                    launch_id: Some(decimal(reply.launch_id as nat)),
                    server_status: ServerStatus::STARTING,
                    ..self
                }
            } else {
                self
            },
            None => self,
        }
    }

    /// The state after an answer to a request to stop the server.
    pub open spec fn after_stop(self, reply: Option<StopperResponse>) -> StateView {
        match reply {
            Some(reply) => if reply.status_code == GRANTED {
                StateView { server_status: ServerStatus::OFFLINE, ..self }
            } else {
                self
            },
            None => self,
        }
    }

    /// The secret that requests carry.
    pub open spec fn secret(self) -> Seq<char> {
        or_empty(self.visit_secret)
    }

    /// The request that logs the user in.
    pub open spec fn login_request(self) -> FormRequestView {
        FormRequestView {
            url: page_url("/api/user/login"@),
            fields: seq![
                ("userToken"@, self.user_token),
                ("visitSecret"@, self.secret()),
                ("reconnected"@, "false"@),
            ],
            timeout_secs: None,
        }
    }

    /// The request that switches a mod on or off.
    pub open spec fn toggle_request(self, mod_id: int, enabled: bool) -> FormRequestView {
        FormRequestView {
            url: page_url("/api/mod/toggle"@),
            fields: seq![
                ("visitSecret"@, self.secret()),
                ("modId"@, signed_decimal(mod_id)),
                ("enabled"@, if enabled { "true"@ } else { "false"@ }),
            ],
            timeout_secs: None,
        }
    }

    /// The request for the contents of a save slot.
    pub open spec fn download_request(self, slot: Seq<char>) -> FormRequestView {
        FormRequestView {
            url: page_url("/api/save/download"@),
            fields: seq![("visitSecret"@, self.secret()), ("save"@, slot)],
            timeout_secs: None,
        }
    }

    /// The request that starts a server.
    pub open spec fn start_request(
        self,
        region: Seq<char>,
        version: Seq<char>,
        save: Seq<char>,
    ) -> FormRequestView {
        FormRequestView {
            url: page_url("/api/instance/start"@),
            fields: seq![
                ("visitSecret"@, self.secret()),
                ("region"@, region),
                ("version"@, version),
                ("save"@, save),
                ("options"@, start_options(save)),
            ],
            timeout_secs: None,
        }
    }

    /// The request that stops the server.
    pub open spec fn stop_request(self) -> FormRequestView {
        FormRequestView {
            url: page_url("/api/instance/stop"@),
            fields: seq![
                ("visitSecret"@, self.secret()),
                ("launchId"@, or_empty(self.launch_id)),
            ],
            timeout_secs: Some(STOP_TIMEOUT_SECS),
        }
    }
}

/// The mods with which a save is started: those of the expansion for the second slot only.
pub open spec fn start_options(save: Seq<char>) -> Seq<char> {
    if save == "slot2"@ {
        "{\"elevated-rails\":true,\"quality\":true,\"space-age\":true}"@
    } else {
        "{\"elevated-rails\":false,\"quality\":false,\"space-age\":false}"@
    }
}

/// What is reported of an answer to a request to start a server, whose body was `body`.
pub open spec fn start_report(reply: Option<LauncherResponse>, body: Seq<char>) -> Seq<char> {
    match reply {
        Some(reply) => if reply.status_code == GRANTED {
            "Instance started successfully with launch ID: "@ + decimal(reply.launch_id as nat)
        } else {
            "Failed to start instance: ["@ + decimal(reply.status_code as nat) + "] "@ + (
            match reply.status_reason {
                Some(reason) => reason@,
                None => "Unknown error"@,
            })
        },
        None => "Failed to send start request: HTTP "@ + body,
    }
}

/// What is reported of an answer to a request to stop the server, whose body was `body`.
pub open spec fn stop_report(reply: Option<StopperResponse>, body: Seq<char>) -> Option<Seq<char>> {
    match reply {
        Some(reply) if reply.status_code == GRANTED => None,
        _ => Some("Failed to send stop request: HTTP "@ + body),
    }
}

/// Whether an answer with this HTTP status holds the contents of the save slot.
pub open spec fn download_granted(status: u16) -> bool {
    200 <= status < 300
}

/// Whether a message asks for a login: the start of a visit does.
pub open spec fn login_due(message: JsonView) -> bool {
    message_kind(message) == "visit"@
}

/// Why a save was not downloaded.
#[derive(Debug, Clone, Copy, PartialEq, Eq, Structural)]
pub enum DownloadError {
    /// The zone did not answer with success.
    Refused,
}

impl DownloadError {
    /// The words for the error.
    pub fn text(&self) -> (r: String)
        ensures
            r@ == "Failed to download save"@,
    {
        "Failed to download save".to_owned()
    }
}

/// The client of the zone.
pub struct FZClient {
    pub state: FZClientState,
    pub backoff: Backoff,
}

impl FZClient {
    /// How many seconds to wait after the next failed connection.
    pub open spec fn delay(self) -> u64 {
        self.backoff.delay()
    }

    /// A client for the user with the given token.
    pub fn new(token: &str) -> (r: FZClient)
        ensures
            r.state@ == StateView::initial(token@),
            r.delay() == MIN_RECONNECT_DELAY,
    {
        let r = FZClient {
            state: FZClientState {
                visit_secret: None,
                user_token: token.to_owned(),
                server_status: ServerStatus::OFFLINE,
                server_address: None,
                launch_id: None,
                mods: Vec::new(),
                saves: Json::Null,
                mods_sync: false,
                saves_sync: false,
            },
            backoff: Backoff::new(),
        };
        assert(r.state@.mods =~= Seq::empty());
        r
    }

    /// Decides how to keep the stream of messages open, when a connection has ended with or
    /// without a failure.
    pub fn connect(&mut self, failed: bool) -> (r: Reconnect)
        ensures
            final(self).state == old(self).state,
            MIN_RECONNECT_DELAY <= old(self).delay() <= MAX_RECONNECT_DELAY,
            failed ==> r == (Reconnect::After { secs: old(self).delay() }) && final(self).delay()
                == next_delay(old(self).delay()),
            !failed ==> r == Reconnect::Now && final(self).delay() == MIN_RECONNECT_DELAY,
            (r, final(self).delay()) == ended(old(self).delay(), failed),
    {
        self.backoff.connection_ended(failed)
    }

    /// Takes in a text from the stream of messages. What is not JSON is passed over. The
    /// request that is given is to be posted.
    pub fn receive(&mut self, text: &str) -> (r: Option<FormRequest>)
        ensures
            final(self).delay() == old(self).delay(),
            match json_of_text(text@) {
                Some(message) => {
                    &&& final(self).state@ == old(self).state@.after_message(message)
                    &&& r is Some == (message_kind(message) == "visit"@)
                    &&& r is Some == login_due(message)
                },
                None => final(self).state == old(self).state && r is None,
            },
            final(self).state@ == old(self).state@.after_text(text@),
            r matches Some(request) ==> request@ == final(self).state@.login_request(),
    {
        match parse_text(text) {
            Some(message) => self.handle_message(message),
            None => None,
        }
    }

    /// Takes in a message. The start of a visit asks for a login.
    pub fn handle_message(&mut self, message: Json) -> (r: Option<FormRequest>)
        ensures
            final(self).delay() == old(self).delay(),
            final(self).state@ == old(self).state@.after_message(message@),
            r is Some == (message_kind(message@) == "visit"@),
            r is Some == login_due(message@),
            r matches Some(request) ==> request@ == final(self).state@.login_request(),
    {
        let kind = text_or_empty(&message.member_text("type"));
        let kind = kind.as_str();
        if same_text(kind, "visit") {
            self.state.visit_secret = message.member_text("secret");
            return Some(self.login());
        }
        if same_text(kind, "options") {
            let name = message.member_text("name");
            if name.is_some() && same_text(name.unwrap().as_str(), "saves") {
                self.state.saves = match message.take_member("options") {
                    Some(saves) => saves,
                    None => Json::Null,
                };
                self.state.saves_sync = true;
            }
        } else if same_text(kind, "mods") {
            self.state.mods = match message.take_member("mods") {
                Some(Json::Array(mods)) => mods,
                _ => Vec::new(),
            };
            self.state.mods_sync = true;
        } else if same_text(kind, "idle") {
            self.state.launch_id = None;
            self.state.server_status = ServerStatus::OFFLINE;
            self.state.server_address = None;
        } else if same_text(kind, "starting") {
            self.state.launch_id = launch_text(&message);
            self.state.server_status = ServerStatus::STARTING;
        } else if same_text(kind, "stopping") {
            self.state.launch_id = launch_text(&message);
            self.state.server_status = ServerStatus::STOPPING;
        } else if same_text(kind, "running") {
            self.state.launch_id = launch_text(&message);
            self.state.server_address = message.member_text("socket");
            self.state.server_status = ServerStatus::RUNNING;
        } else if same_text(kind, "info") {
            if let Some(line) = message.member_text("line") {
                if let Some(address) = find_address(line.as_str()) {
                    self.state.server_address = Some(address);
                    self.state.server_status = ServerStatus::STARTING;
                }
            }
        }
        assert(self.state@.mods =~= old(self).state@.after_message(message@).mods);
        None
    }
}

/// Writes the launch that a message is about.
fn launch_text(message: &Json) -> (r: Option<String>)
    ensures
        opt_text(r) == message_launch(message@),
{
    match message.member_integer("launchId") {
        Some(n) => Some(i64_text(n)),
        None => None,
    }
}

impl FZClient {
    /// The request that logs the user in.
    pub fn login(&self) -> (r: FormRequest)
        ensures
            r@ == self.state@.login_request(),
    {
        let secret = text_or_empty(&self.state.visit_secret);
        let fields = vec![
            field("userToken", self.state.user_token.as_str()),
            field("visitSecret", secret.as_str()),
            field("reconnected", "false"),
        ];
        assert(fields_view(fields@) =~= self.state@.login_request().fields);
        FormRequest { url: make_page_url("/api/user/login"), fields, timeout_secs: None }
    }

    /// Takes in the body of the answer to a login. What is not JSON is passed over.
    pub fn login_reply(&mut self, body: &[u8])
        ensures
            final(self).delay() == old(self).delay(),
            match json_of_bytes(body@) {
                Some(body) => final(self).state@ == old(self).state@.after_login(body),
                None => final(self).state == old(self).state,
            },
            final(self).state@ == old(self).state@.after_login_body(body@),
    {
        if let Some(body) = parse_bytes(body) {
            self.accept_login(&body);
        }
    }

    /// Takes in an answer to a login.
    pub fn accept_login(&mut self, body: &Json)
        ensures
            final(self).delay() == old(self).delay(),
            final(self).state@ == old(self).state@.after_login(body@),
    {
        if let Some(token) = body.member_text("userToken") {
            self.state.user_token = token;
        }
    }

    /// The request that switches a mod on or off.
    pub fn toggle_mod(&self, mod_id: i64, enabled: bool) -> (r: FormRequest)
        ensures
            r@ == self.state@.toggle_request(mod_id as int, enabled),
    {
        let secret = text_or_empty(&self.state.visit_secret);
        let id = i64_text(mod_id);
        let switch = bool_text(enabled);
        let fields = vec![
            field("visitSecret", secret.as_str()),
            field("modId", id.as_str()),
            field("enabled", switch.as_str()),
        ];
        assert(fields_view(fields@) =~= self.state@.toggle_request(
            mod_id as int,
            enabled,
        ).fields);
        FormRequest { url: make_page_url("/api/mod/toggle"), fields, timeout_secs: None }
    }

    /// The request for the contents of a save slot.
    pub fn download_save_slot(&self, slot: &str) -> (r: FormRequest)
        ensures
            r@ == self.state@.download_request(slot@),
    {
        let secret = text_or_empty(&self.state.visit_secret);
        let fields = vec![field("visitSecret", secret.as_str()), field("save", slot)];
        assert(fields_view(fields@) =~= self.state@.download_request(slot@).fields);
        FormRequest { url: make_page_url("/api/save/download"), fields, timeout_secs: None }
    }

    /// Whether the answer with this HTTP status holds the contents of the save slot.
    pub fn download_reply(status: u16) -> (r: Result<(), DownloadError>)
        ensures
            r == (if 200 <= status < 300 {
                Ok::<(), DownloadError>(())
            } else {
                Err(DownloadError::Refused)
            }),
            r is Ok <==> download_granted(status),
    {
        if 200 <= status && status < 300 {
            Ok(())
        } else {
            Err(DownloadError::Refused)
        }
    }

    /// The request that starts a server with a save.
    pub fn start_instance(&self, region: &str, version: &str, save: &str) -> (r: FormRequest)
        ensures
            r@ == self.state@.start_request(region@, version@, save@),
    {
        let secret = text_or_empty(&self.state.visit_secret);
        let options = if same_text(save, "slot2") {
            "{\"elevated-rails\":true,\"quality\":true,\"space-age\":true}"
        } else {
            "{\"elevated-rails\":false,\"quality\":false,\"space-age\":false}"
        };
        let fields = vec![
            field("visitSecret", secret.as_str()),
            field("region", region),
            field("version", version),
            field("save", save),
            field("options", options),
        ];
        assert(fields_view(fields@) =~= self.state@.start_request(
            region@,
            version@,
            save@,
        ).fields);
        FormRequest { url: make_page_url("/api/instance/start"), fields, timeout_secs: None }
    }

    /// Takes in the answer to a request to start a server. `reply` is what the body says, where
    /// it could be read, and `body` its text. The result is the line to report.
    pub fn start_reply(&mut self, reply: Option<LauncherResponse>, body: &str) -> (line: String)
        ensures
            final(self).delay() == old(self).delay(),
            final(self).state@ == old(self).state@.after_start(reply),
            line@ == start_report(reply, body@),
    {
        match reply {
            Some(reply) => {
                if reply.status_code == GRANTED {
                    let id = u64_text(reply.launch_id);
                    let line = "Instance started successfully with launch ID: ".to_owned().concat(
                        id.as_str(),
                    );
                    self.state.launch_id = Some(id);
                    self.state.server_status = ServerStatus::STARTING;
                    line
                } else {
                    let code = u64_text(reply.status_code as u64);
                    let reason = match reply.status_reason {
                        Some(reason) => reason,
                        None => "Unknown error".to_owned(),
                    };
                    "Failed to start instance: [".to_owned().concat(code.as_str()).concat(
                        "] ",
                    ).concat(reason.as_str())
                }
            },
            None => "Failed to send start request: HTTP ".to_owned().concat(body),
        }
    }

    /// The request that stops the server.
    pub fn stop_instance(&self) -> (r: FormRequest)
        ensures
            r@ == self.state@.stop_request(),
    {
        let secret = text_or_empty(&self.state.visit_secret);
        let launch = text_or_empty(&self.state.launch_id);
        let fields = vec![
            field("visitSecret", secret.as_str()),
            field("launchId", launch.as_str()),
        ];
        assert(fields_view(fields@) =~= self.state@.stop_request().fields);
        FormRequest {
            url: make_page_url("/api/instance/stop"),
            fields,
            timeout_secs: Some(STOP_TIMEOUT_SECS),
        }
    }

    /// Takes in the answer to a request to stop the server. `reply` is what the body says, where
    /// it could be read, and `body` its text. The result is the line to report, if any.
    pub fn stop_reply(&mut self, reply: Option<StopperResponse>, body: &str) -> (line: Option<
        String,
    >)
        ensures
            final(self).delay() == old(self).delay(),
            final(self).state@ == old(self).state@.after_stop(reply),
            opt_text(line) == stop_report(reply, body@),
    {
        if let Some(reply) = reply {
            if reply.status_code == GRANTED {
                self.state.server_status = ServerStatus::OFFLINE;
                return None;
            }
        }
        Some("Failed to send stop request: HTTP ".to_owned().concat(body))
    }
}

} // verus!
