//! What holds of the bot as a whole.

use crate::api::{start_options, StateView};
use crate::bot::{
    callback_of, mapped_slot, message_action, part_after, picture_in, picture_of, reaction,
    CallbackView, MessageActionView,
};
use crate::flow::{first_step, next_step, opening, ActionView, EventView, StepView, Target};
use crate::json::{json_of_bytes, JsonView};
use crate::menu::{back_menu, main_menu, saves_menu, status_reply, ButtonView, ReplyView};
use crate::pattern::post_of;
use crate::status::ServerStatus;
use crate::text::{begins_with, decimal, position_from};
use crate::text_laws::{links_have_three_forms, prefix_is_followed_by_rest};
use crate::vote::{majority, outcome_of, vote_reply, VoteOutcome};
use vstd::prelude::*;

verus! {

/// Whether the bot knows what every button of the keyboard asks for.
pub open spec fn keyboard_known(keyboard: Seq<Seq<ButtonView>>) -> bool {
    forall|row: int, column: int|
        0 <= row < keyboard.len() && 0 <= column < keyboard[row].len() ==> callback_of(
            #[trigger] keyboard[row][column].data,
        ) !is Unknown
}

/// Whether the bot knows what every button below the message asks for.
pub open spec fn buttons_known(reply: ReplyView) -> bool {
    reply.keyboard matches Some(keyboard) ==> keyboard_known(keyboard)
}

/// Whether the bot knows what every button asks for that the action shows.
pub open spec fn action_known(action: ActionView) -> bool {
    match action {
        ActionView::Edit { reply, .. } => buttons_known(reply),
        ActionView::Send { reply } => buttons_known(reply),
        _ => true,
    }
}

proof fn lemma_prefix(prefix: Seq<char>, rest: Seq<char>)
    ensures
        begins_with(prefix + rest, prefix),
{
    assert((prefix + rest).subrange(0, prefix.len() as int) =~= prefix);
}

proof fn lemma_menus_known()
    ensures
        keyboard_known(main_menu()),
        keyboard_known(back_menu()),
        keyboard_known(saves_menu("start_save:1"@, "start_save:2"@)),
        keyboard_known(saves_menu("download_save:1"@, "download_save:2"@)),
{
    reveal_strlit("start_save:");
    reveal_strlit("start_save:1");
    reveal_strlit("start_save:2");
    reveal_strlit("download_save:");
    reveal_strlit("download_save:1");
    reveal_strlit("download_save:2");
    lemma_prefix("start_save:"@, seq!['1']);
    lemma_prefix("start_save:"@, seq!['2']);
    lemma_prefix("download_save:"@, seq!['1']);
    lemma_prefix("download_save:"@, seq!['2']);
    assert("start_save:1"@ =~= "start_save:"@ + seq!['1']);
    assert("start_save:2"@ =~= "start_save:"@ + seq!['2']);
    assert("download_save:1"@ =~= "download_save:"@ + seq!['1']);
    assert("download_save:2"@ =~= "download_save:"@ + seq!['2']);
}

/// Every button that the bot ever shows is one that it knows.
pub proof fn shown_buttons_are_known(
    callback: CallbackView,
    step: StepView,
    event: EventView,
    text: Seq<char>,
    state: StateView,
)
    ensures
        action_known(first_step(callback, state).1),
        action_known(next_step(step, event, state).1),
        message_action(text, state) matches MessageActionView::Send { reply } ==> buttons_known(
            reply,
        ),
{
    lemma_menus_known();
}

proof fn lemma_position(s: Seq<char>, c: char, from: int, to: int)
    requires
        0 <= from <= to <= s.len(),
        forall|i: int| from <= i < to ==> s[i] != c,
        to == s.len() || s[to] == c,
    ensures
        position_from(s, c, from) == to,
    decreases to - from,
{
    if from < to {
        lemma_position(s, c, from + 1, to);
    }
}

/// A slot is read back as it was written into a button, with or without more behind a colon.
pub proof fn slot_is_read_back(slot: Seq<char>, more: Seq<char>)
    requires
        !slot.contains(':'),
        more.len() > 0 ==> more[0] == ':',
    ensures
        callback_of("start_save:"@ + slot + more) == (CallbackView::StartSave { slot }),
        callback_of("download_save:"@ + slot + more) == (CallbackView::DownloadSave { slot }),
{
    lemma_callback_names();
    lemma_part("start_save:"@, slot, more);
    lemma_part("download_save:"@, slot, more);
    let start = "start_save:"@ + slot + more;
    let download = "download_save:"@ + slot + more;
    assert(start[0] == 's' && start[2] == 'a');
    assert(download[0] == 'd');
    assert("start_save:"@.len() <= download.len() ==> download.subrange(
        0,
        "start_save:"@.len() as int,
    )[0] == 'd');
}

proof fn lemma_part(prefix: Seq<char>, slot: Seq<char>, more: Seq<char>)
    requires
        !slot.contains(':'),
        more.len() > 0 ==> more[0] == ':',
    ensures
        begins_with(prefix + slot + more, prefix),
        part_after(prefix + slot + more, prefix) == slot,
{
    let data = prefix + slot + more;
    let start = prefix.len() as int;
    let end = start + slot.len();
    assert(data =~= prefix + (slot + more));
    lemma_prefix(prefix, slot + more);
    assert forall|i: int| start <= i < end implies data[i] != ':' by {
        assert(data[i] == slot[i - start]);
    }
    lemma_position(data, ':', start, end);
    assert(data.subrange(start, end) =~= slot);
}

proof fn lemma_callback_names()
    ensures
        "main_menu"@.len() == 9,
        "main_menu"@[0] == 'm',
        "choose_save"@[0] == 'c',
        "stop_server"@[0] == 's',
        "stop_server"@[2] == 'o',
        "manage_saves"@[0] == 'm',
        "start_save:"@.len() == 11,
        "start_save:"@[0] == 's',
        "start_save:"@[2] == 'a',
        "download_save:"@.len() == 14,
        "download_save:"@[0] == 'd',
        "stop_server"@.len() == 11,
        "choose_save"@.len() == 11,
        "manage_saves"@.len() == 12,
{
    reveal_strlit("main_menu");
    reveal_strlit("choose_save");
    reveal_strlit("stop_server");
    reveal_strlit("manage_saves");
    reveal_strlit("start_save:");
    reveal_strlit("download_save:");
}

/// A conversation: the step and the action after `n` events, the event and the state of the
/// client that step `i` was given being `events[i]` and `states[i]`.
pub open spec fn conversation(
    callback: CallbackView,
    begin: StateView,
    events: Seq<EventView>,
    states: Seq<StateView>,
    n: nat,
) -> (StepView, ActionView)
    decreases n,
{
    if n == 0 {
        first_step(callback, begin)
    } else {
        next_step(
            conversation(callback, begin, events, states, (n - 1) as nat).0,
            events[n - 1],
            states[n - 1],
        )
    }
}

/// Whether each of the first `n` events is one that the step expects that is given it.
pub open spec fn orderly(
    callback: CallbackView,
    begin: StateView,
    events: Seq<EventView>,
    states: Seq<StateView>,
    n: nat,
) -> bool {
    forall|i: int|
        0 <= i < n ==> conversation(callback, begin, events, states, i as nat).0.expects(
            #[trigger] events[i],
        )
}

/// Whether the votes that were counted at the end of the poll win the vote.
pub open spec fn vote_won(event: EventView) -> bool {
    event matches EventView::PollClosed { yes, total } && outcome_of(yes as int, total as int) == (
    VoteOutcome::Decided { run: true })
}

/// Whether a conversation that began with `callback` can be at `step` after `n` events.
spec fn in_place(callback: CallbackView, events: Seq<EventView>, n: nat, step: StepView) -> bool {
    match step {
        StepView::Answering { slot } => n == 0 && callback == (CallbackView::StartSave { slot }),
        StepView::PollOpening { slot } => n == 1 && callback == (CallbackView::StartSave { slot }),
        StepView::Voting { slot } => n == 2 && callback == (CallbackView::StartSave { slot }),
        StepView::PollClosing { slot } => n == 3 && callback == (CallbackView::StartSave { slot }),
        StepView::PollDeleting { slot, yes, total } => n == 4 && callback == (
        CallbackView::StartSave { slot }) && events[3] == (EventView::PollClosed { yes, total }),
        StepView::VoteWon { slot } => n == 5 && callback == (CallbackView::StartSave { slot })
            && vote_won(events[3]),
        StepView::Starting => n == 6 && callback is StartSave && vote_won(events[3]),
        StepView::StartAnnounced => n == 7 && callback is StartSave && vote_won(events[3]),
        StepView::StartWatch => n >= 8 && callback is StartSave && vote_won(events[3]),
        StepView::StopAnnounced | StepView::Stopping | StepView::StopWatch => callback
            is StopServer,
        StepView::DownloadAnnounced { slot } => callback == (CallbackView::DownloadSave { slot }),
        StepView::Downloading { slot } => callback == (CallbackView::DownloadSave { slot }),
        _ => true,
    }
}

proof fn lemma_next_place(
    callback: CallbackView,
    events: Seq<EventView>,
    states: Seq<StateView>,
    n: nat,
    step: StepView,
)
    requires
        in_place(callback, events, n, step),
        step.expects(events[n as int]),
    ensures
        in_place(
            callback,
            events,
            n + 1,
            next_step(step, events[n as int], states[n as int]).0,
        ),
{
}

proof fn lemma_place(
    callback: CallbackView,
    begin: StateView,
    events: Seq<EventView>,
    states: Seq<StateView>,
    n: nat,
)
    requires
        orderly(callback, begin, events, states, n),
    ensures
        in_place(
            callback,
            events,
            n,
            conversation(callback, begin, events, states, n).0,
        ),
    decreases n,
{
    if n > 0 {
        let m = (n - 1) as nat;
        lemma_place(callback, begin, events, states, m);
        let step = conversation(callback, begin, events, states, m).0;
        assert(step.expects(events[m as int]));
        lemma_next_place(callback, events, states, m, step);
    }
}

/// A server is asked for after six events only, the fourth of which is the count of a vote that
/// was won, and with the save whose button was pressed.
pub proof fn server_starts_only_after_won_vote(
    callback: CallbackView,
    begin: StateView,
    events: Seq<EventView>,
    states: Seq<StateView>,
    n: nat,
)
    requires
        orderly(callback, begin, events, states, n),
        conversation(callback, begin, events, states, n).1 is StartInstance,
    ensures
        n == 6,
        vote_won(events[3]),
        callback matches CallbackView::StartSave { slot } && conversation(
            callback,
            begin,
            events,
            states,
            n,
        ).1->StartInstance_save == mapped_slot(slot),
{
    if n > 0 {
        lemma_place(callback, begin, events, states, (n - 1) as nat);
    }
}

/// The server is stopped only for the button that says so.
pub proof fn server_stops_only_on_request(
    callback: CallbackView,
    begin: StateView,
    events: Seq<EventView>,
    states: Seq<StateView>,
    n: nat,
)
    requires
        orderly(callback, begin, events, states, n),
        conversation(callback, begin, events, states, n).1 is StopInstance,
    ensures
        callback is StopServer,
{
    if n > 0 {
        lemma_place(callback, begin, events, states, (n - 1) as nat);
    }
}

/// A conversation is over exactly when its action says so.
pub proof fn end_is_said(
    callback: CallbackView,
    step: StepView,
    event: EventView,
    state: StateView,
)
    ensures
        first_step(callback, state).0 is Over <==> first_step(callback, state).1 is Finish,
        first_step(callback, state).1 !is Fail,
        next_step(step, event, state).0 is Over <==> (next_step(step, event, state).1 is Finish
            || next_step(step, event, state).1 is Fail),
{
}

/// A failed action ends the conversation with that failure, unless it was the request to stop
/// or to start a server or the deletion of the poll; those are passed over.
pub proof fn failure_ends_or_is_passed_over(step: StepView, state: StateView)
    requires
        step.expects(EventView::Failed),
    ensures
        next_step(step, EventView::Failed, state) == (if step is Stopping || step is PollDeleting
            || step is Starting {
            next_step(step, EventView::Succeeded, state)
        } else {
            (StepView::Over, ActionView::Fail)
        }),
{
}

/// The watch over a server that is to stop ends when it is seen to be offline, and the watch
/// over one that is to run when it is seen to run.
pub proof fn watch_ends_when_seen(step: StepView, state: StateView)
    ensures
        step is Stopping || step is StopWatch ==> (next_step(
            step,
            EventView::Succeeded,
            state,
        ).0 is StopWatch <==> state.server_status != ServerStatus::OFFLINE),
        step is StartAnnounced || step is StartWatch ==> (next_step(
            step,
            EventView::Succeeded,
            state,
        ).0 is StartWatch <==> state.server_status != ServerStatus::RUNNING),
{
}

/// The bot asks the zone for its two save slots only.
pub proof fn two_slots_only(step: StepView, event: EventView, state: StateView)
    ensures
        next_step(step, event, state).1 matches ActionView::StartInstance { save, .. } ==> save
            == "slot1"@ || save == "slot2"@,
        next_step(step, event, state).1 matches ActionView::Download { save } ==> save == "slot1"@
            || save == "slot2"@,
{
}

/// The expansion is switched on for the save that the menus call the second, and for no other.
pub proof fn expansion_belongs_to_second_save(slot: Seq<char>)
    ensures
        start_options(mapped_slot(slot)) == (if slot == "2"@ {
            "{\"elevated-rails\":true,\"quality\":true,\"space-age\":true}"@
        } else {
            "{\"elevated-rails\":false,\"quality\":false,\"space-age\":false}"@
        }),
{
    reveal_strlit("slot1");
    reveal_strlit("slot2");
    assert("slot1"@[4] != "slot2"@[4]);
}

/// One more vote for the start, in place of one against it, never loses a vote that was won.
pub proof fn more_votes_win(yes: int, more: int, total: int)
    requires
        yes <= more,
        outcome_of(yes, total) == (VoteOutcome::Decided { run: true }),
    ensures
        outcome_of(more, total) == (VoteOutcome::Decided { run: true }),
{
}

/// A vote in which all are for the start is won, and one in which nobody is for it is not,
/// unless nobody or only two voted.
pub proof fn unanimous_votes(total: int)
    requires
        total > 0,
        total != 2,
    ensures
        outcome_of(total, total) == (VoteOutcome::Decided { run: true }),
        outcome_of(0, total) == (VoteOutcome::Decided { run: false }),
{
}

/// The three ways to write the link of a post lead to that post.
pub proof fn links_lead_to_post(post: Seq<char>)
    requires
        post.len() > 0,
        !post.contains('\n'),
    ensures
        post_of("factoriobin.com/post/"@ + post) == Some(post),
        post_of("http://"@ + ("factoriobin.com/post/"@ + post)) == Some(post),
        post_of("https://"@ + ("factoriobin.com/post/"@ + post)) == Some(post),
{
    reveal_strlit("http://");
    reveal_strlit("https://");
    reveal_strlit("factoriobin.com/post/");
    let bare = "factoriobin.com/post/"@ + post;
    lemma_prefix("factoriobin.com/post/"@, post);
    lemma_prefix("http://"@, bare);
    lemma_prefix("https://"@, bare);
    assert(bare[0] == 'f');
    assert(("http://"@ + bare)[4] == ':');
    assert(("http://"@ + bare).subrange(0, 8)[4] == ':');
    assert(bare.subrange(0, 8)[0] == 'f');
    assert(bare.subrange(0, 7)[0] == 'f');
    assert(bare.skip("factoriobin.com/post/"@.len() as int) =~= post);
    assert(("http://"@ + bare).skip("http://"@.len() as int) =~= bare);
    assert(("https://"@ + bare).skip("https://"@.len() as int) =~= bare);
}

/// Every way to write a post's link shows that post.
pub proof fn links_show_their_post(post: Seq<char>, state: StateView)
    requires
        post.len() > 0,
        !post.contains('\n'),
    ensures
        ({
            let shown = MessageActionView::ShowPost {
                info_url: "https://factoriobin.com/post/"@ + post + "/info.json"@,
            };
            &&& message_action("factoriobin.com/post/"@ + post, state) == shown
            &&& message_action("http://"@ + ("factoriobin.com/post/"@ + post), state) == shown
            &&& message_action("https://"@ + ("factoriobin.com/post/"@ + post), state) == shown
        }),
{
    links_lead_to_post(post);
    reveal_strlit("/start");
    reveal_strlit("http://");
    reveal_strlit("https://");
    reveal_strlit("factoriobin.com/post/");
    assert("/start"@[0] == '/');
    assert(("factoriobin.com/post/"@ + post)[0] == 'f');
    assert(("http://"@ + ("factoriobin.com/post/"@ + post))[0] == 'h');
    assert(("https://"@ + ("factoriobin.com/post/"@ + post))[0] == 'h');
}

/// A post is shown only for a message that is its link, and nothing is said but to `/start`.
pub proof fn only_links_show_posts(text: Seq<char>, state: StateView)
    ensures
        message_action(text, state) is Send <==> text == "/start"@,
        message_action(text, state) is ShowPost ==> exists|post: Seq<char>|
            {
                &&& post.len() > 0 && !post.contains('\n')
                &&& #[trigger] ("factoriobin.com/post/"@ + post) == text || "http://"@ + (
                "factoriobin.com/post/"@ + post) == text || "https://"@ + (
                "factoriobin.com/post/"@ + post) == text
                &&& message_action(text, state)->info_url == "https://factoriobin.com/post/"@
                    + post + "/info.json"@
            },
{
    if message_action(text, state) is ShowPost {
        let post = post_of(text)->0;
        links_have_three_forms(text, post);
        assert("factoriobin.com/post/"@ + post == "factoriobin.com/post/"@ + post);
    }
}

/// A message with text is answered by its text, and one without text is passed over.
pub proof fn messages_without_text_are_passed_over(text: Seq<char>, state: StateView)
    ensures
        reaction(Some(text), state) == message_action(text, state),
        reaction(None, state) is Ignore,
{
    reveal_strlit("");
    reveal_strlit("/start");
    reveal_strlit("factoriobin.com/post/");
    assert(""@.len() == 0 && "/start"@.len() == 6);
    if post_of(""@) is Some {
        links_have_three_forms(""@, post_of(""@)->0);
    }
}

/// A button that tells the bot something begins its conversation where its message is there;
/// without the one or the other nothing is done.
pub proof fn buttons_need_data_and_message(data: Seq<char>, has_message: bool, state: StateView)
    ensures
        opening(Some(data), true, state) == first_step(callback_of(data), state),
        opening(Some(data), false, state) == (StepView::Over, ActionView::Finish),
        opening(None, has_message, state) == (StepView::Over, ActionView::Finish),
{
}

/// The picture of a post is the string at `renderImageUrl` in the object at `node`, and there is
/// none where there is no such string.
pub proof fn picture_is_in_the_node(info: JsonView)
    ensures
        match info.member("node"@) {
            Some(node) => match node.member("renderImageUrl"@) {
                Some(JsonView::Str(url)) => picture_of(info) == Some(url),
                _ => picture_of(info) is None,
            },
            None => picture_of(info) is None,
        },
{
}

/// The picture in the body of an answer is the one in its document, and there is none where the
/// body is not JSON.
pub proof fn picture_is_in_the_document(body: Seq<u8>)
    ensures
        json_of_bytes(body) matches Some(info) ==> picture_in(body) == picture_of(info),
        json_of_bytes(body) is None ==> picture_in(body) is None,
{
}

/// The status message names the status and the address, `N/A` where none is known, and has the
/// main menu. It is what `/start` and the button of the main menu show.
pub proof fn status_message_shows_the_state(state: StateView)
    ensures
        message_action("/start"@, state) == (MessageActionView::Send {
            reply: status_reply(state),
        }),
        first_step(CallbackView::MainMenu, state).1 == (ActionView::Edit {
            target: Target::Menu,
            reply: status_reply(state),
        }),
        status_reply(state).html,
        status_reply(state).keyboard == Some(main_menu()),
        ({
            let name = match state.server_status {
                ServerStatus::OFFLINE => "OFFLINE"@,
                ServerStatus::STARTING => "STARTING"@,
                ServerStatus::STOPPING => "STOPPING"@,
                ServerStatus::RUNNING => "RUNNING"@,
            };
            let head = "Статус сервера: <code>"@ + name + "</code>\nIP: <code>"@;
            match state.server_address {
                Some(address) => status_reply(state).text == head + address + "</code>"@,
                None => status_reply(state).text == head + "N/A</code>"@,
            }
        }),
{
    reveal_strlit("N/A");
    reveal_strlit("</code>");
    reveal_strlit("N/A</code>");
    assert("N/A"@ + "</code>"@ =~= "N/A</code>"@);
    let head = "Статус сервера: <code>"@ + state.server_status.name() + "</code>\nIP: <code>"@;
    assert(head + "N/A"@ + "</code>"@ =~= head + ("N/A"@ + "</code>"@));
}

/// The four plain buttons ask for what they are named after, and what is neither one of them nor
/// a save is unknown.
pub proof fn callbacks_are_named(data: Seq<char>)
    ensures
        callback_of(data) is MainMenu <==> data == "main_menu"@,
        callback_of(data) is ChooseSave <==> data == "choose_save"@,
        callback_of(data) is StopServer <==> data == "stop_server"@,
        callback_of(data) is ManageSaves <==> data == "manage_saves"@,
        callback_of(data) is StartSave ==> exists|rest: Seq<char>| #[trigger]
            ("start_save:"@ + rest) == data,
        callback_of(data) is DownloadSave ==> exists|rest: Seq<char>| #[trigger]
            ("download_save:"@ + rest) == data,
        callback_of(data) is Unknown ==> (forall|rest: Seq<char>| #[trigger]
            ("start_save:"@ + rest) != data) && (forall|rest: Seq<char>| #[trigger]
            ("download_save:"@ + rest) != data),
{
    lemma_callback_names();
    prefix_is_followed_by_rest(data, "start_save:"@);
    prefix_is_followed_by_rest(data, "download_save:"@);
}

/// The second slot of the menus is the zone's second slot, and every other one is the first.
pub proof fn slots_are_mapped(slot: Seq<char>)
    ensures
        slot == "2"@ ==> mapped_slot(slot) == "slot2"@,
        slot != "2"@ ==> mapped_slot(slot) == "slot1"@,
{
}

/// Where the buttons lead: from the main menu to the choice of a save, to the stop and to the
/// saves; from the choices to the two slots and back; and from the way back to the main menu.
pub proof fn buttons_lead_on()
    ensures
        main_menu().len() == 2 && main_menu()[0].len() == 2 && main_menu()[1].len() == 1,
        callback_of(main_menu()[0][0].data) is ChooseSave,
        callback_of(main_menu()[0][1].data) is StopServer,
        callback_of(main_menu()[1][0].data) is ManageSaves,
        main_menu()[0][0].label == "Старт"@,
        main_menu()[0][1].label == "Стоп"@,
        main_menu()[1][0].label == "Сохранения"@,
        back_menu().len() == 1 && back_menu()[0].len() == 1,
        callback_of(back_menu()[0][0].data) is MainMenu,
        back_menu()[0][0].label == "◀"@,
{
    lemma_callback_names();
}

/// Of the choice between the saves the first button is for the vanilla game, the second for the
/// expansion, and the third leads back; the first two tell the bot what they were made with.
pub proof fn choices_lead_to_their_slots(first: Seq<char>, second: Seq<char>)
    ensures
        ({
            let menu = saves_menu(first, second);
            &&& menu.len() == 3 && menu[0].len() == 1 && menu[1].len() == 1 && menu[2].len() == 1
            &&& menu[0][0] == (ButtonView { label: "Vanilla"@, data: first })
            &&& menu[1][0] == (ButtonView { label: "Space Age"@, data: second })
            &&& menu[2][0].label == "Назад"@ && callback_of(menu[2][0].data) is MainMenu
        }),
        callback_of("start_save:1"@) == (CallbackView::StartSave { slot: "1"@ }),
        callback_of("start_save:2"@) == (CallbackView::StartSave { slot: "2"@ }),
        callback_of("download_save:1"@) == (CallbackView::DownloadSave { slot: "1"@ }),
        callback_of("download_save:2"@) == (CallbackView::DownloadSave { slot: "2"@ }),
{
    reveal_strlit("1");
    reveal_strlit("2");
    reveal_strlit("start_save:");
    reveal_strlit("start_save:1");
    reveal_strlit("start_save:2");
    reveal_strlit("download_save:");
    reveal_strlit("download_save:1");
    reveal_strlit("download_save:2");
    slot_is_read_back("1"@, Seq::empty());
    slot_is_read_back("2"@, Seq::empty());
    assert("start_save:1"@ =~= "start_save:"@ + "1"@ + Seq::<char>::empty());
    assert("start_save:2"@ =~= "start_save:"@ + "2"@ + Seq::<char>::empty());
    assert("download_save:1"@ =~= "download_save:"@ + "1"@ + Seq::<char>::empty());
    assert("download_save:2"@ =~= "download_save:"@ + "2"@ + Seq::<char>::empty());
}

/// What a vote comes to: nothing where nobody or just two voted, and else a start exactly where
/// more than 60 of 100 are for it.
pub proof fn votes_are_counted(yes: int, total: int)
    requires
        0 <= yes,
        0 <= total,
    ensures
        outcome_of(yes, total) is NobodyCame <==> total == 0,
        outcome_of(yes, total) is TooFew <==> total == 2,
        outcome_of(yes, total) == (VoteOutcome::Decided { run: true }) <==> total != 0 && total
            != 2 && 5 * yes > 3 * total,
        majority(yes, total) <==> 5 * yes > 3 * total,
{
}

/// The message after a vote that counts gives both numbers, and says that the server will be
/// started exactly where the vote was won.
pub proof fn vote_message_tells_the_result(yes: nat, total: nat)
    requires
        total != 0,
        total != 2,
    ensures
        vote_reply(yes as int, total as int).html,
        vote_reply(yes as int, total as int).keyboard is None,
        ({
            let counts = "Голосование окончено.\n\n<blockquote>Всего голосов: "@ + decimal(total)
                + "\nГолосов за <code>Да</code>: "@ + decimal(yes) + "</blockquote>\n\n"@;
            vote_reply(yes as int, total as int).text == counts + (if 5 * yes > 3 * total {
                "Сервер будет запущен."@
            } else {
                "Сервер не будет запущен."@
            })
        }),
{
    reveal_strlit("</blockquote>\n\nСервер");
    reveal_strlit("</blockquote>\n\n");
    reveal_strlit("");
    reveal_strlit(" не");
    reveal_strlit(" будет запущен.");
    reveal_strlit("Сервер будет запущен.");
    reveal_strlit("Сервер не будет запущен.");
    let head = "Голосование окончено.\n\n<blockquote>Всего голосов: "@ + decimal(total)
        + "\nГолосов за <code>Да</code>: "@ + decimal(yes);
    let won = "</blockquote>\n\n"@ + "Сервер будет запущен."@;
    let lost = "</blockquote>\n\n"@ + "Сервер не будет запущен."@;
    assert("</blockquote>\n\nСервер"@ + ""@ + " будет запущен."@ =~= won);
    assert("</blockquote>\n\nСервер"@ + " не"@ + " будет запущен."@ =~= lost);
    let tail = "</blockquote>\n\nСервер"@;
    assert(head + tail + ""@ + " будет запущен."@ =~= head + (tail + ""@ + " будет запущен."@));
    assert(head + tail + " не"@ + " будет запущен."@ =~= head + (tail + " не"@
        + " будет запущен."@));
    assert(head + "</blockquote>\n\n"@ + "Сервер будет запущен."@ =~= head + won);
    assert(head + "</blockquote>\n\n"@ + "Сервер не будет запущен."@ =~= head + lost);
}

/// A vote that does not count is told as such: nobody came, or fewer than three voted.
pub proof fn void_votes_are_told(yes: int)
    ensures
        vote_reply(yes, 0) == (ReplyView {
            text: "<i>но никто не пришел...</i>\nГолосование окончено."@,
            html: true,
            keyboard: None,
        }),
        vote_reply(yes, 2) == (ReplyView {
            text: "Проголосовало меньше 3 человек.\nГолосование окончено."@,
            html: false,
            keyboard: None,
        }),
{
}

/// A post that a message links to has a name on one line, and the message ends with it.
pub proof fn post_ends_message(message: Seq<char>)
    ensures
        post_of(message) matches Some(post) ==> post.len() > 0 && !post.contains('\n')
            && post.is_suffix_of(message),
{
    if let Some(post) = post_of(message) {
        assert(post =~= message.subrange(message.len() - post.len(), message.len() as int));
    }
}

} // verus!
