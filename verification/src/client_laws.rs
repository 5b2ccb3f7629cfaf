//! What holds of the client as a whole.

use crate::api::{message_kind, LauncherResponse, StateView, StopperResponse, GRANTED};
use crate::json::{first_member, keys_differ, JsonView};
use crate::message_laws::lemma_kinds;
use crate::pattern::announced_address;
use crate::status::ServerStatus;
use crate::text::{decimal, digit_char, signed_decimal};
use vstd::prelude::*;

verus! {

/// The state after a run of messages.
pub open spec fn after_messages(state: StateView, messages: Seq<JsonView>) -> StateView
    decreases messages.len(),
{
    if messages.len() == 0 {
        state
    } else {
        after_messages(state, messages.drop_last()).after_message(messages.last())
    }
}

/// A message that arrives twice has the effect of one that arrives once.
pub proof fn message_is_idempotent(state: StateView, message: JsonView)
    ensures
        state.after_message(message).after_message(message) == state.after_message(message),
{
}

/// No message changes the user's token.
pub proof fn messages_keep_token(state: StateView, messages: Seq<JsonView>)
    ensures
        after_messages(state, messages).user_token == state.user_token,
    decreases messages.len(),
{
    if messages.len() > 0 {
        messages_keep_token(state, messages.drop_last());
    }
}

/// The secret stays the same until the next visit begins.
pub proof fn secret_lasts_until_next_visit(state: StateView, messages: Seq<JsonView>)
    requires
        forall|i: int|
            0 <= i < messages.len() ==> message_kind(#[trigger] messages[i]) != "visit"@,
    ensures
        after_messages(state, messages).visit_secret == state.visit_secret,
    decreases messages.len(),
{
    if messages.len() > 0 {
        let before = messages.drop_last();
        assert(forall|i: int| 0 <= i < before.len() ==> before[i] == messages[i]);
        secret_lasts_until_next_visit(state, before);
    }
}

/// A list that has arrived stays there: neither mark is ever taken back.
pub proof fn arrivals_last(state: StateView, messages: Seq<JsonView>)
    ensures
        state.mods_sync ==> after_messages(state, messages).mods_sync,
        state.saves_sync ==> after_messages(state, messages).saves_sync,
    decreases messages.len(),
{
    if messages.len() > 0 {
        arrivals_last(state, messages.drop_last());
    }
}

/// The status after a message that says where the server is in its life is that status,
/// whatever was known before.
pub proof fn status_follows_message(state: StateView, message: JsonView)
    ensures
        message_kind(message) == "idle"@ ==> state.after_message(message).server_status
            == ServerStatus::OFFLINE,
        message_kind(message) == "starting"@ ==> state.after_message(message).server_status
            == ServerStatus::STARTING,
        message_kind(message) == "stopping"@ ==> state.after_message(message).server_status
            == ServerStatus::STOPPING,
        message_kind(message) == "running"@ ==> state.after_message(message).server_status
            == ServerStatus::RUNNING,
{
    lemma_kinds();
}

/// An idle server has no address and no launch.
pub proof fn idle_forgets(state: StateView, message: JsonView)
    requires
        message_kind(message) == "idle"@,
    ensures
        state.after_message(message).server_address is None,
        state.after_message(message).launch_id is None,
{
    lemma_kinds();
}

/// A log line that announces no address changes nothing.
pub proof fn silent_line_changes_nothing(state: StateView, message: JsonView)
    requires
        message_kind(message) == "info"@,
        message.member_text("line"@) matches Some(line) ==> announced_address(line) is None,
    ensures
        state.after_message(message) == state,
{
    lemma_kinds();
}

/// The list of mods changes by the messages about mods only, and the list of saves by those
/// about options only.
pub proof fn lists_change_by_their_messages(state: StateView, message: JsonView)
    ensures
        message_kind(message) != "mods"@ ==> state.after_message(message).mods == state.mods
            && state.after_message(message).mods_sync == state.mods_sync,
        message_kind(message) != "options"@ ==> state.after_message(message).saves == state.saves
            && state.after_message(message).saves_sync == state.saves_sync,
{
}

/// An answer to a login touches the token only, one to a start the launch and the status, and
/// one to a stop the status.
pub proof fn answers_touch_little(
    state: StateView,
    body: JsonView,
    start: Option<LauncherResponse>,
    stop: Option<StopperResponse>,
)
    ensures
        state.after_login(body) == (StateView {
            user_token: state.after_login(body).user_token,
            ..state
        }),
        state.after_start(start) == (StateView {
            launch_id: state.after_start(start).launch_id,
            server_status: state.after_start(start).server_status,
            ..state
        }),
        state.after_stop(stop) == (StateView {
            server_status: state.after_stop(stop).server_status,
            ..state
        }),
{
}

/// No request has two fields with the same name.
pub proof fn fields_are_named_once(
    state: StateView,
    mod_id: int,
    enabled: bool,
    save: Seq<char>,
    region: Seq<char>,
    version: Seq<char>,
)
    ensures
        state.login_request().names_differ(),
        state.toggle_request(mod_id, enabled).names_differ(),
        state.download_request(save).names_differ(),
        state.start_request(region, version, save).names_differ(),
        state.stop_request().names_differ(),
{
    reveal_strlit("userToken");
    reveal_strlit("visitSecret");
    reveal_strlit("reconnected");
    reveal_strlit("modId");
    reveal_strlit("enabled");
    reveal_strlit("save");
    reveal_strlit("region");
    reveal_strlit("version");
    reveal_strlit("options");
    reveal_strlit("launchId");
    assert("userToken"@.len() == 9 && "visitSecret"@.len() == 11 && "reconnected"@.len() == 11);
    assert("modId"@.len() == 5 && "enabled"@.len() == 7 && "launchId"@.len() == 8);
    assert("save"@.len() == 4 && "region"@.len() == 6);
    assert("version"@.len() == 7 && "options"@.len() == 7);
    assert("visitSecret"@[0] != "reconnected"@[0]);
    assert("version"@[0] != "options"@[0]);
}

/// Every request carries the secret of the visit.
pub proof fn requests_carry_secret(
    state: StateView,
    mod_id: int,
    enabled: bool,
    slot: Seq<char>,
    region: Seq<char>,
    version: Seq<char>,
)
    ensures
        state.login_request().has("visitSecret"@, state.secret()),
        state.toggle_request(mod_id, enabled).has("visitSecret"@, state.secret()),
        state.download_request(slot).has("visitSecret"@, state.secret()),
        state.start_request(region, version, slot).has("visitSecret"@, state.secret()),
        state.stop_request().has("visitSecret"@, state.secret()),
{
    let field = ("visitSecret"@, state.secret());
    assert(state.login_request().fields[1] == field);
    assert(state.toggle_request(mod_id, enabled).fields[0] == field);
    assert(state.download_request(slot).fields[0] == field);
    assert(state.start_request(region, version, slot).fields[0] == field);
    assert(state.stop_request().fields[0] == field);
}

/// The login that follows the start of a visit carries that visit's secret.
pub proof fn visit_is_logged_in(state: StateView, message: JsonView, secret: Seq<char>)
    requires
        message_kind(message) == "visit"@,
        message.member_text("secret"@) == Some(secret),
    ensures
        state.after_message(message).login_request().has("visitSecret"@, secret),
        state.after_message(message).login_request().has("userToken"@, state.user_token),
{
    let fields = state.after_message(message).login_request().fields;
    assert(fields[1] == ("visitSecret"@, secret));
    assert(fields[0] == ("userToken"@, state.user_token));
}

/// The token of an answer to a login is the one with which the next login is made.
pub proof fn token_is_used(state: StateView, body: JsonView, token: Seq<char>)
    requires
        body.member_text("userToken"@) == Some(token),
    ensures
        state.after_login(body).login_request().has("userToken"@, token),
{
    assert(state.after_login(body).login_request().fields[0] == ("userToken"@, token));
}

/// A server that was started is stopped under the launch that the zone gave it.
pub proof fn start_is_stopped_by_its_launch(state: StateView, reply: LauncherResponse)
    requires
        reply.status_code == GRANTED,
    ensures
        state.after_start(Some(reply)).stop_request().has(
            "launchId"@,
            decimal(reply.launch_id as nat),
        ),
{
    assert(state.after_start(Some(reply)).stop_request().fields[1] == (
        "launchId"@,
        decimal(reply.launch_id as nat),
    ));
}

/// An answer that does not grant the request changes nothing.
pub proof fn refusal_changes_nothing(
    state: StateView,
    start: Option<LauncherResponse>,
    stop: Option<StopperResponse>,
)
    ensures
        !(start matches Some(reply) && reply.status_code == GRANTED) ==> state.after_start(start)
            == state,
        !(stop matches Some(reply) && reply.status_code == GRANTED) ==> state.after_stop(stop)
            == state,
{
}

proof fn lemma_decimal(n: nat)
    ensures
        decimal(n).len() > 0,
        decimal(n).last() == digit_char(n % 10),
        n < 10 <==> decimal(n).len() == 1,
        n >= 10 ==> decimal(n).drop_last() == decimal(n / 10),
        forall|i: int| 0 <= i < decimal(n).len() ==> #[trigger] decimal(n)[i] != '-',
    decreases n,
{
    if n >= 10 {
        lemma_decimal(n / 10);
        assert(decimal(n).drop_last() =~= decimal(n / 10));
    }
}

proof fn lemma_decimal_tells_apart(a: nat, b: nat)
    requires
        decimal(a) == decimal(b),
    ensures
        a == b,
    decreases a,
{
    lemma_decimal(a);
    lemma_decimal(b);
    if a >= 10 {
        lemma_decimal_tells_apart(a / 10, b / 10);
    }
}

/// Two numbers that are written alike are the same: a text names one launch and one mod.
pub proof fn notation_tells_apart(a: int, b: int)
    requires
        signed_decimal(a) == signed_decimal(b),
    ensures
        a == b,
{
    if a < 0 {
        assert(signed_decimal(a)[0] == '-');
    } else {
        lemma_decimal(a as nat);
    }
    if b < 0 {
        assert(signed_decimal(b)[0] == '-');
    } else {
        lemma_decimal(b as nat);
    }
    if a < 0 {
        assert(signed_decimal(a).drop_first() =~= decimal((-a) as nat));
        assert(signed_decimal(b).drop_first() =~= decimal((-b) as nat));
        lemma_decimal_tells_apart((-a) as nat, (-b) as nat);
    } else {
        lemma_decimal_tells_apart(a as nat, b as nat);
    }
}

/// Where no key occurs twice, the member with a key is the one that has it, wherever it stands.
pub proof fn member_has_its_key(members: Seq<(Seq<char>, JsonView)>, key: Seq<char>, i: int)
    requires
        keys_differ(members),
        0 <= i < members.len(),
        members[i].0 == key,
    ensures
        JsonView::Object(members).member(key) == Some(members[i].1),
    decreases members.len(),
{
    if i > 0 {
        let rest = members.drop_first();
        assert(forall|k: int| 0 <= k < rest.len() ==> rest[k] == members[k + 1]);
        assert(members[0].0 != members[i].0);
        member_has_its_key(rest, key, i - 1);
        assert(first_member(members, key) == first_member(rest, key));
    }
}

} // verus!
