//! What each request asks the zone for: exactly what the caller asked for, at the right page,
//! in the name of the current visit.

use crate::api::{start_options, StateView};
use crate::request::{page_url, FACTORIO_ZONE_ENDPOINT};
use crate::text::signed_decimal;
use vstd::prelude::*;

verus! {

/// The secret that the zone is told in this state: the one of the visit, or nothing.
pub open spec fn told_secret(state: StateView, secret: Seq<char>) -> bool {
    match state.visit_secret {
        Some(s) => secret == s,
        None => secret.len() == 0,
    }
}

/// All pages are on factorio.zone and are fetched over TLS.
pub proof fn pages_are_on_the_zone(path: Seq<char>)
    ensures
        FACTORIO_ZONE_ENDPOINT@ == "factorio.zone"@,
        page_url(path) == "https://factorio.zone"@ + path,
{
    reveal_strlit("https://");
    reveal_strlit("factorio.zone");
    reveal_strlit("https://factorio.zone");
    assert("https://"@ + "factorio.zone"@ =~= "https://factorio.zone"@);
}

proof fn lemma_pages()
    ensures
        page_url("/api/user/login"@) == "https://factorio.zone/api/user/login"@,
        page_url("/api/mod/toggle"@) == "https://factorio.zone/api/mod/toggle"@,
        page_url("/api/save/download"@) == "https://factorio.zone/api/save/download"@,
        page_url("/api/instance/start"@) == "https://factorio.zone/api/instance/start"@,
        page_url("/api/instance/stop"@) == "https://factorio.zone/api/instance/stop"@,
{
    reveal_strlit("https://");
    reveal_strlit("factorio.zone");
    reveal_strlit("/api/user/login");
    reveal_strlit("/api/mod/toggle");
    reveal_strlit("/api/save/download");
    reveal_strlit("/api/instance/start");
    reveal_strlit("/api/instance/stop");
    reveal_strlit("https://factorio.zone/api/user/login");
    reveal_strlit("https://factorio.zone/api/mod/toggle");
    reveal_strlit("https://factorio.zone/api/save/download");
    reveal_strlit("https://factorio.zone/api/instance/start");
    reveal_strlit("https://factorio.zone/api/instance/stop");
    assert(page_url("/api/user/login"@) =~= "https://factorio.zone/api/user/login"@);
    assert(page_url("/api/mod/toggle"@) =~= "https://factorio.zone/api/mod/toggle"@);
    assert(page_url("/api/save/download"@) =~= "https://factorio.zone/api/save/download"@);
    assert(page_url("/api/instance/start"@) =~= "https://factorio.zone/api/instance/start"@);
    assert(page_url("/api/instance/stop"@) =~= "https://factorio.zone/api/instance/stop"@);
}

/// A login names the user's token and the visit, and is not a reconnection.
pub proof fn login_names_user_and_visit(state: StateView, secret: Seq<char>)
    requires
        told_secret(state, secret),
    ensures
        state.login_request().url == "https://factorio.zone/api/user/login"@,
        state.login_request().fields.len() == 3,
        state.login_request().has("userToken"@, state.user_token),
        state.login_request().has("visitSecret"@, secret),
        state.login_request().has("reconnected"@, "false"@),
        state.login_request().timeout_secs is None,
{
    lemma_pages();
    assert(state.secret() =~= secret);
    assert(state.login_request().fields[0] == ("userToken"@, state.user_token));
    assert(state.login_request().fields[1] == ("visitSecret"@, secret));
    assert(state.login_request().fields[2] == ("reconnected"@, "false"@));
}

/// A toggle names the mod and says whether it is to be on.
pub proof fn toggle_names_mod_and_switch(
    state: StateView,
    secret: Seq<char>,
    mod_id: int,
    enabled: bool,
)
    requires
        told_secret(state, secret),
    ensures
        state.toggle_request(mod_id, enabled).url == "https://factorio.zone/api/mod/toggle"@,
        state.toggle_request(mod_id, enabled).fields.len() == 3,
        state.toggle_request(mod_id, enabled).has("visitSecret"@, secret),
        state.toggle_request(mod_id, enabled).has("modId"@, signed_decimal(mod_id)),
        enabled ==> state.toggle_request(mod_id, enabled).has("enabled"@, "true"@),
        !enabled ==> state.toggle_request(mod_id, enabled).has("enabled"@, "false"@),
        state.toggle_request(mod_id, enabled).timeout_secs is None,
{
    lemma_pages();
    assert(state.secret() =~= secret);
    let r = state.toggle_request(mod_id, enabled);
    assert(r.fields[0] == ("visitSecret"@, secret));
    assert(r.fields[1] == ("modId"@, signed_decimal(mod_id)));
    assert(enabled ==> r.fields[2] == ("enabled"@, "true"@));
    assert(!enabled ==> r.fields[2] == ("enabled"@, "false"@));
}

/// A toggle that switches a mod on differs from the one that switches it off, and toggles of
/// different mods differ.
pub proof fn toggles_differ(state: StateView, a: int, b: int, on: bool, off: bool)
    requires
        state.toggle_request(a, on) == state.toggle_request(b, off),
    ensures
        a == b,
        on == off,
{
    reveal_strlit("true");
    reveal_strlit("false");
    assert("true"@.len() != "false"@.len());
    let x = state.toggle_request(a, on);
    let y = state.toggle_request(b, off);
    assert(x.fields[1].1 == y.fields[1].1);
    assert(x.fields[2].1 == y.fields[2].1);
    crate::client_laws::notation_tells_apart(a, b);
}

/// A download names the slot that was asked for.
pub proof fn download_names_its_slot(state: StateView, secret: Seq<char>, slot: Seq<char>)
    requires
        told_secret(state, secret),
    ensures
        state.download_request(slot).url == "https://factorio.zone/api/save/download"@,
        state.download_request(slot).fields.len() == 2,
        state.download_request(slot).has("visitSecret"@, secret),
        state.download_request(slot).has("save"@, slot),
        state.download_request(slot).timeout_secs is None,
{
    lemma_pages();
    assert(state.secret() =~= secret);
    assert(state.download_request(slot).fields[0] == ("visitSecret"@, secret));
    assert(state.download_request(slot).fields[1] == ("save"@, slot));
}

/// Downloads of different slots are different requests.
pub proof fn downloads_differ(state: StateView, a: Seq<char>, b: Seq<char>)
    requires
        state.download_request(a) == state.download_request(b),
    ensures
        a == b,
{
    assert(state.download_request(a).fields[1].1 == state.download_request(b).fields[1].1);
}

/// A start names the region, the version and the save that were asked for, and the mods of the
/// save: those of the expansion are on for the second slot and off for any other.
pub proof fn start_names_what_was_asked_for(
    state: StateView,
    secret: Seq<char>,
    region: Seq<char>,
    version: Seq<char>,
    save: Seq<char>,
)
    requires
        told_secret(state, secret),
    ensures
        state.start_request(region, version, save).url
            == "https://factorio.zone/api/instance/start"@,
        state.start_request(region, version, save).fields.len() == 5,
        state.start_request(region, version, save).has("visitSecret"@, secret),
        state.start_request(region, version, save).has("region"@, region),
        state.start_request(region, version, save).has("version"@, version),
        state.start_request(region, version, save).has("save"@, save),
        state.start_request(region, version, save).has("options"@, start_options(save)),
        save == "slot2"@ ==> state.start_request(region, version, save).has(
            "options"@,
            "{\"elevated-rails\":true,\"quality\":true,\"space-age\":true}"@,
        ),
        save != "slot2"@ ==> state.start_request(region, version, save).has(
            "options"@,
            "{\"elevated-rails\":false,\"quality\":false,\"space-age\":false}"@,
        ),
        state.start_request(region, version, save).timeout_secs is None,
{
    lemma_pages();
    assert(state.secret() =~= secret);
    let r = state.start_request(region, version, save);
    assert(r.fields[0] == ("visitSecret"@, secret));
    assert(r.fields[1] == ("region"@, region));
    assert(r.fields[2] == ("version"@, version));
    assert(r.fields[3] == ("save"@, save));
    assert(r.fields[4] == ("options"@, start_options(save)));
}

/// Starts that differ in the region, the version or the save are different requests.
pub proof fn starts_differ(
    state: StateView,
    a: (Seq<char>, Seq<char>, Seq<char>),
    b: (Seq<char>, Seq<char>, Seq<char>),
)
    requires
        state.start_request(a.0, a.1, a.2) == state.start_request(b.0, b.1, b.2),
    ensures
        a == b,
{
    let x = state.start_request(a.0, a.1, a.2).fields;
    let y = state.start_request(b.0, b.1, b.2).fields;
    assert(x[1].1 == y[1].1);
    assert(x[2].1 == y[2].1);
    assert(x[3].1 == y[3].1);
}

/// A stop names the launch that is known, or none, and gives the zone an hour.
pub proof fn stop_names_the_launch(state: StateView, secret: Seq<char>)
    requires
        told_secret(state, secret),
    ensures
        state.stop_request().url == "https://factorio.zone/api/instance/stop"@,
        state.stop_request().fields.len() == 2,
        state.stop_request().has("visitSecret"@, secret),
        state.launch_id matches Some(launch) ==> state.stop_request().has("launchId"@, launch),
        state.launch_id is None ==> state.stop_request().has("launchId"@, Seq::empty()),
        state.stop_request().timeout_secs == Some(3600u64),
{
    lemma_pages();
    assert(state.secret() =~= secret);
    let r = state.stop_request();
    assert(r.fields[0] == ("visitSecret"@, secret));
    if state.launch_id is Some {
        assert(r.fields[1] == ("launchId"@, state.launch_id->0));
    } else {
        assert(r.fields[1] == ("launchId"@, Seq::<char>::empty()));
    }
}

} // verus!
