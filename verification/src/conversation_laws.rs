//! How the conversations go from the pressed button to their end.
//!
//! `conversation(callback, begin, events, states, n)` is where a conversation is after `n`
//! events, and the action that it then asks for.

use crate::api::StateView;
use crate::bot::CallbackView;
use crate::bot_laws::conversation;
use crate::flow::{first_step, next_step, ActionView, EventView, StepView, Target};
use crate::menu::{back_menu, main_menu, saves_menu, ReplyView};
use crate::status::ServerStatus;
use crate::vote::{outcome_of, vote_reply, VoteOutcome};
use vstd::prelude::*;

verus! {

/// Whether the votes win: somebody voted, not just two, and more than 60 percent are for it.
pub open spec fn counts_win(yes: u32, total: u32) -> bool {
    total != 0 && total != 2 && 100 * yes > 60 * total
}

/// Whether the action after which the conversation goes on in any case was performed or failed.
pub open spec fn tried(event: EventView) -> bool {
    event is Succeeded || event is Failed
}

/// Whether these are the events of a vote up to the message that tells its result: every action
/// succeeds but perhaps the deletion of the poll, and the poll closes with these votes.
pub open spec fn voted(events: Seq<EventView>, yes: u32, total: u32) -> bool {
    &&& events.len() >= 6
    &&& events[0] is Succeeded
    &&& events[1] is Succeeded
    &&& events[2] is Succeeded
    &&& events[3] == (EventView::PollClosed { yes, total })
    &&& tried(events[4])
    &&& events[5] is Succeeded
}

/// The save slot of the zone for a slot of the menus.
pub open spec fn is_save_of(save: Seq<char>, slot: Seq<char>) -> bool {
    &&& slot == "2"@ ==> save == "slot2"@
    &&& slot != "2"@ ==> save == "slot1"@
}

/// How a vote goes: the press is confirmed, a poll is shown for a minute, its votes are counted,
/// it is deleted, and the result is told.
pub proof fn vote_is_held(
    slot: Seq<char>,
    begin: StateView,
    events: Seq<EventView>,
    states: Seq<StateView>,
    yes: u32,
    total: u32,
)
    requires
        voted(events, yes, total),
    ensures
        ({
            let c = CallbackView::StartSave { slot };
            &&& conversation(c, begin, events, states, 0).1 is Answer
            &&& conversation(c, begin, events, states, 1).1 == (ActionView::OpenPoll {
                question: "Запускаем сервер?"@,
                yes: "Да"@,
                no: "Нет"@,
                anonymous: false,
                open_secs: 62,
            })
            &&& conversation(c, begin, events, states, 2).1 == (ActionView::Wait { secs: 60 })
            &&& conversation(c, begin, events, states, 3).1 is ClosePoll
            &&& conversation(c, begin, events, states, 4).1 is DeletePoll
            &&& conversation(c, begin, events, states, 5).1 == (ActionView::Send {
                reply: vote_reply(yes as int, total as int),
            })
            &&& conversation(c, begin, events, states, 5).0 == (if counts_win(yes, total) {
                StepView::VoteWon { slot }
            } else {
                StepView::Closing
            })
        }),
{
    let c = CallbackView::StartSave { slot };
    assert(conversation(c, begin, events, states, 0).0 == (StepView::Answering { slot }));
    assert(conversation(c, begin, events, states, 1).0 == (StepView::PollOpening { slot }));
    assert(conversation(c, begin, events, states, 2).0 == (StepView::Voting { slot }));
    assert(conversation(c, begin, events, states, 3).0 == (StepView::PollClosing { slot }));
    assert(conversation(c, begin, events, states, 4).0 == (StepView::PollDeleting {
        slot,
        yes,
        total,
    }));
    assert(counts_win(yes, total) <==> outcome_of(yes as int, total as int) == (
    VoteOutcome::Decided { run: true }));
    assert(conversation(c, begin, events, states, 5) == next_step(
        StepView::PollDeleting { slot, yes, total },
        events[4],
        states[4],
    ));
}

/// A vote that is won leads to the start of the save whose button was pressed, in the region and
/// with the version of the bot.
pub proof fn won_vote_starts_the_server(
    slot: Seq<char>,
    begin: StateView,
    events: Seq<EventView>,
    states: Seq<StateView>,
    yes: u32,
    total: u32,
)
    requires
        voted(events, yes, total),
        counts_win(yes, total),
    ensures
        conversation(
            CallbackView::StartSave { slot },
            begin,
            events,
            states,
            6,
        ).1 matches ActionView::StartInstance { region, version, save } && region == "eu-north-1"@
            && version == "2.0.55"@ && is_save_of(save, slot),
        conversation(CallbackView::StartSave { slot }, begin, events, states, 6).0 is Starting,
{
    vote_is_held(slot, begin, events, states, yes, total);
    assert(conversation(CallbackView::StartSave { slot }, begin, events, states, 6) == next_step(
        StepView::VoteWon { slot },
        events[5],
        states[5],
    ));
}

/// With a vote that is not won the conversation ends, and no server is asked for.
pub proof fn lost_vote_ends_the_conversation(
    slot: Seq<char>,
    begin: StateView,
    events: Seq<EventView>,
    states: Seq<StateView>,
    yes: u32,
    total: u32,
)
    requires
        voted(events, yes, total),
        !counts_win(yes, total),
    ensures
        conversation(CallbackView::StartSave { slot }, begin, events, states, 6) == (
            StepView::Over,
            ActionView::Finish,
        ),
{
    vote_is_held(slot, begin, events, states, yes, total);
    assert(conversation(CallbackView::StartSave { slot }, begin, events, states, 6) == next_step(
        StepView::Closing,
        events[5],
        states[5],
    ));
}

/// The text that shows an address to connect to; empty markup where none is known.
pub open spec fn shows_address(text: Seq<char>, address: Option<Seq<char>>) -> bool {
    match address {
        Some(address) => text == "<code>"@ + address + "</code>"@,
        None => text == "<code></code>"@,
    }
}

/// After the request to start a server, granted or not, it is said that the server starts. Then
/// the bot looks at the status at once and every five seconds, until it sees the server run; the
/// message that was sent last is then replaced by the address, with the way back below it.
pub proof fn start_is_watched_until_running(
    slot: Seq<char>,
    begin: StateView,
    events: Seq<EventView>,
    states: Seq<StateView>,
    yes: u32,
    total: u32,
    n: nat,
)
    requires
        voted(events, yes, total),
        counts_win(yes, total),
        8 <= n <= events.len(),
        tried(events[6]),
        forall|i: int| 7 <= i < n ==> #[trigger] events[i] is Succeeded,
        forall|i: int|
            7 <= i < n - 1 ==> (#[trigger] states[i]).server_status != ServerStatus::RUNNING,
    ensures
        ({
            let c = CallbackView::StartSave { slot };
            let now = states[n - 1];
            &&& conversation(c, begin, events, states, 7).1 == (ActionView::Send {
                reply: ReplyView {
                    text: "Сервер запускается..."@,
                    html: false,
                    keyboard: None,
                },
            })
            &&& now.server_status != ServerStatus::RUNNING ==> conversation(
                c,
                begin,
                events,
                states,
                n,
            ) == (StepView::StartWatch, ActionView::Wait { secs: 5 })
            &&& now.server_status == ServerStatus::RUNNING ==> {
                &&& conversation(c, begin, events, states, n).0 is Closing
                &&& conversation(c, begin, events, states, n).1 matches ActionView::Edit {
                    target,
                    reply,
                } && target == Target::LastSent && shows_address(reply.text, now.server_address)
                    && reply.html && reply.keyboard == Some(back_menu())
            }
        }),
    decreases n,
{
    let c = CallbackView::StartSave { slot };
    won_vote_starts_the_server(slot, begin, events, states, yes, total);
    assert(conversation(c, begin, events, states, 7) == next_step(
        StepView::Starting,
        events[6],
        states[6],
    ));
    let m = (n - 1) as nat;
    if n > 8 {
        start_is_watched_until_running(slot, begin, events, states, yes, total, m);
        assert(states[m - 1].server_status != ServerStatus::RUNNING);
    }
    let step = conversation(c, begin, events, states, m).0;
    assert(step is StartAnnounced || step is StartWatch);
    assert(events[m as int] is Succeeded);
    assert(conversation(c, begin, events, states, n) == next_step(
        step,
        events[m as int],
        states[m as int],
    ));
    reveal_strlit("<code>");
    reveal_strlit("</code>");
    reveal_strlit("<code></code>");
    assert("<code>"@ + Seq::<char>::empty() + "</code>"@ =~= "<code></code>"@);
}

/// The button for stopping says so, asks the zone to stop the server, and looks at the status at
/// once and every five seconds, until it sees the server offline; the message with the button is
/// then replaced, with the way back below it. Whether the zone granted the request makes no
/// difference to the watch.
pub proof fn stop_is_watched_until_offline(
    begin: StateView,
    events: Seq<EventView>,
    states: Seq<StateView>,
    n: nat,
)
    requires
        2 <= n <= events.len(),
        events[0] is Succeeded,
        tried(events[1]),
        forall|i: int| 2 <= i < n ==> #[trigger] events[i] is Succeeded,
        forall|i: int|
            1 <= i < n - 1 ==> (#[trigger] states[i]).server_status != ServerStatus::OFFLINE,
    ensures
        ({
            let c = CallbackView::StopServer;
            let now = states[n - 1];
            &&& conversation(c, begin, events, states, 0).1 == (ActionView::Edit {
                target: Target::Menu,
                reply: ReplyView { text: "Останавливаем..."@, html: false, keyboard: None },
            })
            &&& conversation(c, begin, events, states, 1).1 is StopInstance
            &&& now.server_status != ServerStatus::OFFLINE ==> conversation(
                c,
                begin,
                events,
                states,
                n,
            ) == (StepView::StopWatch, ActionView::Wait { secs: 5 })
            &&& now.server_status == ServerStatus::OFFLINE ==> conversation(
                c,
                begin,
                events,
                states,
                n,
            ) == (
                StepView::Closing,
                ActionView::Edit {
                    target: Target::Menu,
                    reply: ReplyView {
                        text: "Сервер остановлен."@,
                        html: false,
                        keyboard: Some(back_menu()),
                    },
                },
            )
        }),
    decreases n,
{
    let c = CallbackView::StopServer;
    assert(conversation(c, begin, events, states, 0).0 is StopAnnounced);
    assert(conversation(c, begin, events, states, 1) == next_step(
        StepView::StopAnnounced,
        events[0],
        states[0],
    ));
    let m = (n - 1) as nat;
    if n > 2 {
        stop_is_watched_until_offline(begin, events, states, m);
        assert(states[m - 1].server_status != ServerStatus::OFFLINE);
        assert(events[m as int] is Succeeded);
    }
    let step = conversation(c, begin, events, states, m).0;
    assert(step is Stopping || step is StopWatch);
    assert(conversation(c, begin, events, states, n) == next_step(
        step,
        events[m as int],
        states[m as int],
    ));
}

/// The button of a download says that it begins and asks for the save of that slot. What comes
/// is sent as a file under the slot's name; a failure is shown with its reason.
pub proof fn download_is_sent_or_explained(
    slot: Seq<char>,
    error: Seq<char>,
    begin: StateView,
    events: Seq<EventView>,
    states: Seq<StateView>,
)
    requires
        events.len() >= 2,
        events[0] is Succeeded,
    ensures
        ({
            let c = CallbackView::DownloadSave { slot };
            &&& conversation(c, begin, events, states, 0).1 == (ActionView::Edit {
                target: Target::Menu,
                reply: ReplyView {
                    text: "Загрузка сейва "@ + slot + "..."@,
                    html: false,
                    keyboard: None,
                },
            })
            &&& conversation(c, begin, events, states, 1).1 matches ActionView::Download { save }
                && is_save_of(save, slot)
            &&& events[1] is Succeeded ==> conversation(c, begin, events, states, 2).1 == (
            ActionView::SendFile { file_name: slot + ".zip"@, caption: "Сейв "@ + slot })
            &&& events[1] == (EventView::DownloadFailed { error }) ==> conversation(
                c,
                begin,
                events,
                states,
                2,
            ).1 == (ActionView::Edit {
                target: Target::Menu,
                reply: ReplyView {
                    text: "Ошибка загрузки: "@ + error,
                    html: false,
                    keyboard: None,
                },
            })
            &&& events[1] is Succeeded || events[1] is DownloadFailed ==> conversation(
                c,
                begin,
                events,
                states,
                2,
            ).0 is Closing
        }),
{
    let c = CallbackView::DownloadSave { slot };
    assert(conversation(c, begin, events, states, 0).0 == (StepView::DownloadAnnounced { slot }));
    assert(conversation(c, begin, events, states, 1) == next_step(
        StepView::DownloadAnnounced { slot },
        events[0],
        states[0],
    ));
    assert(conversation(c, begin, events, states, 2) == next_step(
        StepView::Downloading { slot },
        events[1],
        states[1],
    ));
}

/// A conversation that has come to its last message is over when that has been sent.
pub proof fn last_message_ends_the_conversation(state: StateView)
    ensures
        next_step(StepView::Closing, EventView::Succeeded, state) == (
            StepView::Over,
            ActionView::Finish,
        ),
{
}

/// The other buttons change the message with the button into a menu, and are done.
pub proof fn menus_replace_menus(state: StateView)
    ensures
        first_step(CallbackView::MainMenu, state).0 is Closing,
        first_step(CallbackView::MainMenu, state).1 matches ActionView::Edit { target, reply }
            && target == Target::Menu && reply.html && reply.keyboard == Some(main_menu()),
        first_step(CallbackView::ChooseSave, state) == (
            StepView::Closing,
            ActionView::Edit {
                target: Target::Menu,
                reply: ReplyView {
                    text: "Выберите сохранение для запуска:"@,
                    html: false,
                    keyboard: Some(saves_menu("start_save:1"@, "start_save:2"@)),
                },
            },
        ),
        first_step(CallbackView::ManageSaves, state) == (
            StepView::Closing,
            ActionView::Edit {
                target: Target::Menu,
                reply: ReplyView {
                    text: "Выберите сохранение для скачивания:"@,
                    html: false,
                    keyboard: Some(saves_menu("download_save:1"@, "download_save:2"@)),
                },
            },
        ),
        first_step(CallbackView::Unknown, state) == (StepView::Over, ActionView::Finish),
{
}

/// Every step but the last takes any way in which its action can go: closing the poll may give
/// any counts of votes or fail, a download may give a file or fail for any reason, and all else
/// may succeed or fail.
pub proof fn steps_take_every_outcome(step: StepView, event: EventView)
    requires
        step !is Over,
    ensures
        step is PollClosing ==> (step.expects(event) <==> event is PollClosed || event is Failed),
        step is Downloading ==> (step.expects(event) <==> event is Succeeded || event
            is DownloadFailed),
        step !is PollClosing && step !is Downloading ==> (step.expects(event) <==> event
            is Succeeded || event is Failed),
{
}

} // verus!
