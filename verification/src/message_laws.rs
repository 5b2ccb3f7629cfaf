//! What each message of the zone, and each of its answers, changes in the client's state, field
//! by field, and what it leaves as it was.

use crate::api::{
    download_granted, login_due, message_kind, start_report, stop_report, LauncherResponse,
    StateView, StopperResponse,
};
use crate::json::{json_of_bytes, json_of_text, JsonView};
use crate::pattern::announced_address;
use crate::status::ServerStatus;
use crate::text::{decimal, signed_decimal};
use vstd::prelude::*;

verus! {

/// The string at a key of an object; nothing where there is no string.
pub open spec fn said(message: JsonView, key: Seq<char>) -> Option<Seq<char>> {
    match message.member(key) {
        Some(JsonView::Str(s)) => Some(s),
        _ => None,
    }
}

/// Whether the message is of the given kind: whether it says so at `type`.
pub open spec fn is_kind(message: JsonView, kind: Seq<char>) -> bool {
    said(message, "type"@) == Some(kind)
}

/// Whether a log line in the message announces this address.
pub open spec fn announces_address(message: JsonView, address: Seq<char>) -> bool {
    &&& is_kind(message, "info"@)
    &&& said(message, "line"@) matches Some(line) && announced_address(line) == Some(address)
}

/// The kinds of messages are all different, and none is empty.
pub(crate) proof fn lemma_kinds()
    ensures
        "visit"@.len() == 5,
        "options"@.len() == 7,
        "options"@[0] == 'o',
        "mods"@.len() == 4,
        "mods"@[0] == 'm',
        "idle"@.len() == 4,
        "idle"@[0] == 'i',
        "idle"@[1] == 'd',
        "starting"@.len() == 8,
        "starting"@[2] == 'a',
        "stopping"@.len() == 8,
        "stopping"@[2] == 'o',
        "running"@.len() == 7,
        "running"@[0] == 'r',
        "info"@.len() == 4,
        "info"@[0] == 'i',
        "info"@[1] == 'n',
{
    reveal_strlit("visit");
    reveal_strlit("options");
    reveal_strlit("mods");
    reveal_strlit("idle");
    reveal_strlit("starting");
    reveal_strlit("stopping");
    reveal_strlit("running");
    reveal_strlit("info");
}

/// The kind of a message is the string at `type`, and is empty where there is none. So a login
/// follows exactly those messages that say `visit` there.
pub proof fn kind_is_said(message: JsonView, kind: Seq<char>)
    requires
        kind.len() > 0,
    ensures
        message_kind(message) == kind <==> is_kind(message, kind),
        message_kind(message).len() == 0 <== said(message, "type"@) is None,
{
}

/// A login follows every start of a visit, with or without a secret, and no other message.
pub proof fn every_visit_is_logged_in(message: JsonView)
    ensures
        login_due(message) <==> is_kind(message, "visit"@),
{
    lemma_kinds();
}

/// A download is granted by the HTTP statuses of the class of success, and by no others.
pub proof fn success_grants_downloads(status: u16)
    ensures
        download_granted(status) <==> status / 100 == 2,
{
}

/// Every text that is JSON is taken in as its document, and every other text is passed over; so
/// are the bodies of answers to logins.
pub proof fn texts_are_taken_in_by_document(state: StateView, text: Seq<char>, body: Seq<u8>)
    ensures
        json_of_text(text) matches Some(message) ==> state.after_text(text) == state.after_message(
            message,
        ),
        json_of_text(text) is None ==> state.after_text(text) == state,
        json_of_bytes(body) matches Some(answer) ==> state.after_login_body(body)
            == state.after_login(answer),
        json_of_bytes(body) is None ==> state.after_login_body(body) == state,
{
}

/// A client that has heard nothing knows its token and nothing else.
pub proof fn new_client_knows_its_token(token: Seq<char>)
    ensures
        StateView::initial(token).user_token == token,
        StateView::initial(token).visit_secret is None,
        StateView::initial(token).server_status == ServerStatus::OFFLINE,
        StateView::initial(token).server_address is None,
        StateView::initial(token).launch_id is None,
        StateView::initial(token).mods.len() == 0,
        StateView::initial(token).saves is Null,
        !StateView::initial(token).mods_sync,
        !StateView::initial(token).saves_sync,
{
}

/// The start of a visit brings its secret, or takes the old one away where it brings none. No
/// other message touches the secret.
pub proof fn visits_bring_the_secret(state: StateView, message: JsonView)
    ensures
        is_kind(message, "visit"@) ==> state.after_message(message).visit_secret == said(
            message,
            "secret"@,
        ),
        !is_kind(message, "visit"@) ==> state.after_message(message).visit_secret
            == state.visit_secret,
{
    lemma_kinds();
}

/// The status changes with the four messages about it, and with a log line that announces an
/// address, which only a server that starts does. No other message touches it.
pub proof fn status_is_told(state: StateView, message: JsonView, address: Seq<char>)
    ensures
        is_kind(message, "idle"@) ==> state.after_message(message).server_status
            == ServerStatus::OFFLINE,
        is_kind(message, "starting"@) ==> state.after_message(message).server_status
            == ServerStatus::STARTING,
        is_kind(message, "stopping"@) ==> state.after_message(message).server_status
            == ServerStatus::STOPPING,
        is_kind(message, "running"@) ==> state.after_message(message).server_status
            == ServerStatus::RUNNING,
        announces_address(message, address) ==> state.after_message(message).server_status
            == ServerStatus::STARTING,
        state.after_message(message).server_status != state.server_status ==> (is_kind(
            message,
            "idle"@,
        ) || is_kind(message, "starting"@) || is_kind(message, "stopping"@) || is_kind(
            message,
            "running"@,
        ) || exists|a: Seq<char>| announces_address(message, a)),
{
    lemma_kinds();
    if is_kind(message, "info"@) && said(message, "line"@) is Some {
        let line = said(message, "line"@)->0;
        if announced_address(line) is Some {
            assert(announces_address(message, announced_address(line)->0));
        }
    }
}

/// A running server has the address that its message gives, an idle one has none, and a log
/// line brings the address that it announces. No other message touches the address.
pub proof fn address_is_told(state: StateView, message: JsonView, address: Seq<char>)
    ensures
        is_kind(message, "running"@) ==> state.after_message(message).server_address == said(
            message,
            "socket"@,
        ),
        is_kind(message, "idle"@) ==> state.after_message(message).server_address is None,
        announces_address(message, address) ==> state.after_message(message).server_address
            == Some(address),
        state.after_message(message).server_address != state.server_address ==> (is_kind(
            message,
            "running"@,
        ) || is_kind(message, "idle"@) || exists|a: Seq<char>| announces_address(message, a)),
{
    lemma_kinds();
    if is_kind(message, "info"@) && said(message, "line"@) is Some {
        let line = said(message, "line"@)->0;
        if announced_address(line) is Some {
            assert(announces_address(message, announced_address(line)->0));
        }
    }
}

/// The launch after a message about the server's life is the one that the message names, and
/// none where it names none or the server is idle. After every other message it is the launch
/// before it.
pub proof fn launch_is_told(state: StateView, message: JsonView)
    ensures
        is_kind(message, "starting"@) || is_kind(message, "stopping"@) || is_kind(
            message,
            "running"@,
        ) ==> match message.member("launchId"@) {
            Some(JsonView::Number { integer: Some(n), .. }) => state.after_message(
                message,
            ).launch_id == Some(signed_decimal(n as int)),
            _ => state.after_message(message).launch_id is None,
        },
        is_kind(message, "idle"@) ==> state.after_message(message).launch_id is None,
        !is_kind(message, "idle"@) && !is_kind(message, "starting"@) && !is_kind(
            message,
            "stopping"@,
        ) && !is_kind(message, "running"@) ==> state.after_message(message).launch_id
            == state.launch_id,
{
    lemma_kinds();
}

/// A log line changes the address and the status only, both or neither.
pub proof fn log_line_changes_address_and_status_only(state: StateView, message: JsonView)
    requires
        is_kind(message, "info"@),
    ensures
        state.after_message(message).visit_secret == state.visit_secret,
        state.after_message(message).user_token == state.user_token,
        state.after_message(message).launch_id == state.launch_id,
        state.after_message(message).mods == state.mods,
        state.after_message(message).saves == state.saves,
        state.after_message(message).mods_sync == state.mods_sync,
        state.after_message(message).saves_sync == state.saves_sync,
        (forall|a: Seq<char>| !announces_address(message, a)) ==> state.after_message(message)
            == state,
{
    lemma_kinds();
    if said(message, "line"@) is Some {
        let line = said(message, "line"@)->0;
        if announced_address(line) is Some {
            assert(announces_address(message, announced_address(line)->0));
        }
    }
}

/// The launch of a server that starts is still the one to be stopped when the server's address
/// has been announced in the log.
pub proof fn launch_outlives_log_lines(
    state: StateView,
    starting: JsonView,
    info: JsonView,
    id: i64,
)
    requires
        is_kind(starting, "starting"@),
        starting.member("launchId"@) matches Some(JsonView::Number { integer, .. }) && integer
            == Some(id),
        is_kind(info, "info"@),
    ensures
        state.after_message(starting).after_message(info).stop_request().has(
            "launchId"@,
            signed_decimal(id as int),
        ),
{
    launch_is_told(state, starting);
    launch_is_told(state.after_message(starting), info);
    lemma_kinds();
    assert(state.after_message(starting).after_message(info).stop_request().fields[1] == (
        "launchId"@,
        signed_decimal(id as int),
    ));
}

/// The list of mods is the array that a message about mods brings, empty where it brings no
/// array; it has then arrived. No other message touches it.
pub proof fn mods_are_told(state: StateView, message: JsonView)
    ensures
        is_kind(message, "mods"@) ==> match message.member("mods"@) {
            Some(JsonView::Array(mods)) => state.after_message(message).mods == mods,
            _ => state.after_message(message).mods.len() == 0,
        },
        is_kind(message, "mods"@) ==> state.after_message(message).mods_sync,
        !is_kind(message, "mods"@) ==> state.after_message(message).mods == state.mods
            && state.after_message(message).mods_sync == state.mods_sync,
{
    lemma_kinds();
}

/// The saves are what a message brings whose options are named `saves`, null where it brings
/// nothing; they have then arrived. No other message touches them.
pub proof fn saves_are_told(state: StateView, message: JsonView)
    ensures
        is_kind(message, "options"@) && said(message, "name"@) == Some("saves"@) ==> match message
            .member("options"@) {
            Some(saves) => state.after_message(message).saves == saves,
            None => state.after_message(message).saves is Null,
        },
        is_kind(message, "options"@) && said(message, "name"@) == Some("saves"@)
            ==> state.after_message(message).saves_sync,
        !(is_kind(message, "options"@) && said(message, "name"@) == Some("saves"@))
            ==> state.after_message(message).saves == state.saves && state.after_message(
            message,
        ).saves_sync == state.saves_sync,
{
    lemma_kinds();
}

/// A message of no known kind changes nothing, and no message touches the token.
pub proof fn unknown_messages_change_nothing(state: StateView, message: JsonView)
    ensures
        state.after_message(message).user_token == state.user_token,
        !is_kind(message, "visit"@) && !is_kind(message, "options"@) && !is_kind(message, "mods"@)
            && !is_kind(message, "idle"@) && !is_kind(message, "starting"@) && !is_kind(
            message,
            "stopping"@,
        ) && !is_kind(message, "running"@) && !is_kind(message, "info"@) ==> state.after_message(
            message,
        ) == state,
{
    lemma_kinds();
}

/// The token after an answer to a login is the string that it gives, and the old token where it
/// gives none. Nothing else changes.
pub proof fn login_brings_the_token(state: StateView, body: JsonView)
    ensures
        state.after_login(body).user_token == (match said(body, "userToken"@) {
            Some(token) => token,
            None => state.user_token,
        }),
        state.after_login(body).visit_secret == state.visit_secret,
        state.after_login(body).server_status == state.server_status,
        state.after_login(body).server_address == state.server_address,
        state.after_login(body).launch_id == state.launch_id,
        state.after_login(body).mods == state.mods,
        state.after_login(body).saves == state.saves,
        state.after_login(body).mods_sync == state.mods_sync,
        state.after_login(body).saves_sync == state.saves_sync,
{
}

/// A server starts exactly when the answer has the code 200, and then under the launch that the
/// answer names. An address that was known, and all else, stays.
pub proof fn granted_start_is_noted(state: StateView, reply: LauncherResponse)
    ensures
        reply.status_code == 200 ==> state.after_start(Some(reply)).launch_id == Some(
            decimal(reply.launch_id as nat),
        ) && state.after_start(Some(reply)).server_status == ServerStatus::STARTING,
        reply.status_code != 200 ==> state.after_start(Some(reply)) == state,
        state.after_start(None) == state,
        state.after_start(Some(reply)).visit_secret == state.visit_secret,
        state.after_start(Some(reply)).user_token == state.user_token,
        state.after_start(Some(reply)).server_address == state.server_address,
        state.after_start(Some(reply)).mods == state.mods,
        state.after_start(Some(reply)).saves == state.saves,
        state.after_start(Some(reply)).mods_sync == state.mods_sync,
        state.after_start(Some(reply)).saves_sync == state.saves_sync,
{
}

/// A server is offline after an answer with the code 200 to the request to stop it. Any other
/// answer changes nothing, and the launch and the address stay in any case.
pub proof fn granted_stop_is_noted(state: StateView, reply: StopperResponse)
    ensures
        reply.status_code == 200 ==> state.after_stop(Some(reply)).server_status
            == ServerStatus::OFFLINE,
        reply.status_code != 200 ==> state.after_stop(Some(reply)) == state,
        state.after_stop(None) == state,
        state.after_stop(Some(reply)).visit_secret == state.visit_secret,
        state.after_stop(Some(reply)).user_token == state.user_token,
        state.after_stop(Some(reply)).server_address == state.server_address,
        state.after_stop(Some(reply)).launch_id == state.launch_id,
        state.after_stop(Some(reply)).mods == state.mods,
        state.after_stop(Some(reply)).saves == state.saves,
        state.after_stop(Some(reply)).mods_sync == state.mods_sync,
        state.after_stop(Some(reply)).saves_sync == state.saves_sync,
{
}

/// What is reported of a start names the launch where it was granted, the code and the reason
/// where it was refused, and the whole answer where that could not be read.
pub proof fn start_reports_name_the_outcome(reply: LauncherResponse, body: Seq<char>)
    ensures
        reply.status_code == 200 ==> start_report(Some(reply), body)
            == "Instance started successfully with launch ID: "@ + decimal(reply.launch_id as nat),
        reply.status_code != 200 && reply.status_reason is None ==> start_report(Some(reply), body)
            == "Failed to start instance: ["@ + decimal(reply.status_code as nat)
            + "] Unknown error"@,
        reply.status_code != 200 ==> (reply.status_reason matches Some(reason) ==> start_report(
            Some(reply),
            body,
        ) == "Failed to start instance: ["@ + decimal(reply.status_code as nat) + "] "@ + reason@),
        start_report(None, body) == "Failed to send start request: HTTP "@ + body,
{
    reveal_strlit("] Unknown error");
    reveal_strlit("] ");
    reveal_strlit("Unknown error");
    assert("] "@ + "Unknown error"@ =~= "] Unknown error"@);
    let head = "Failed to start instance: ["@ + decimal(reply.status_code as nat);
    assert(head + "] "@ + "Unknown error"@ =~= head + ("] "@ + "Unknown error"@));
}

/// Of a stop nothing is reported where it was granted, and the whole answer where it was not.
pub proof fn stop_reports_name_the_failure(reply: StopperResponse, body: Seq<char>)
    ensures
        stop_report(Some(reply), body) is None <==> reply.status_code == 200,
        reply.status_code != 200 ==> stop_report(Some(reply), body) == stop_report(None, body),
        stop_report(None, body) == Some("Failed to send stop request: HTTP "@ + body),
{
}

} // verus!
