//! The conversation that a pressed button sets off, step by step.
//!
//! Each step asks for one action. When the action has been performed, the step that waited for
//! it is told how it went, and gives the next step with its action.

use crate::api::{FZClientState, StateView};
use crate::bot::{callback_of, map_slot, mapped_slot, parse_callback, Callback, CallbackView};
use crate::menu::{
    back_menu, get_back_menu, get_saves_menu, make_status_reply, plain, plain_view, saves_menu,
    status_reply, Reply, ReplyView,
};
use crate::status::ServerStatus;
use crate::text::{or_empty, text_or_empty};
use crate::vote::{make_vote_reply, outcome_of, vote_outcome, vote_reply, VoteOutcome};
use vstd::prelude::*;

verus! {

/// The region in which servers are started.
pub const REGION: &'static str = "eu-north-1";

/// The version of the game that servers run.
pub const VERSION: &'static str = "2.0.55";

/// How many seconds a vote lasts.
pub const VOTE_SECS: u64 = 60;

/// After how many seconds a poll closes by itself.
pub const POLL_OPEN_SECS: u16 = 62;

/// How many seconds pass between two looks at the server's status.
pub const WATCH_SECS: u64 = 5;

/// The message that is edited.
#[derive(Debug, Clone, Copy, PartialEq, Eq, Structural)]
pub enum Target {
    /// The message with the pressed button.
    Menu,
    /// The message that was sent last.
    LastSent,
}

/// What is to be done next.
pub enum Action {
    /// The conversation is over.
    Finish,
    /// The conversation is over, by the failure of the last action.
    Fail,
    /// Change the text and the keyboard of a message.
    Edit { target: Target, reply: Reply },
    /// Send a message.
    Send { reply: Reply },
    /// Confirm to the user that the button was pressed.
    Answer,
    /// Send a poll with two answers.
    OpenPoll { question: String, yes: String, no: String, anonymous: bool, open_secs: u16 },
    /// Let time pass.
    Wait { secs: u64 },
    /// Close the poll and count the votes.
    ClosePoll,
    /// Delete the poll.
    DeletePoll,
    /// Ask the zone to start a server.
    StartInstance { region: String, version: String, save: String },
    /// Ask the zone to stop the server.
    StopInstance,
    /// Ask the zone for the contents of a save slot.
    Download { save: String },
    /// Send what was downloaded, as a file.
    SendFile { file_name: String, caption: String },
}

/// What an [`Action`] says.
pub enum ActionView {
    Finish,
    Fail,
    Edit { target: Target, reply: ReplyView },
    Send { reply: ReplyView },
    Answer,
    OpenPoll {
        question: Seq<char>,
        yes: Seq<char>,
        no: Seq<char>,
        anonymous: bool,
        open_secs: u16,
    },
    Wait { secs: u64 },
    ClosePoll,
    DeletePoll,
    StartInstance { region: Seq<char>, version: Seq<char>, save: Seq<char> },
    StopInstance,
    Download { save: Seq<char> },
    SendFile { file_name: Seq<char>, caption: Seq<char> },
}

impl View for Action {
    type V = ActionView;

    open spec fn view(&self) -> ActionView {
        match self {
            Action::Finish => ActionView::Finish,
            Action::Fail => ActionView::Fail,
            Action::Edit { target, reply } => ActionView::Edit { target: *target, reply: reply@ },
            Action::Send { reply } => ActionView::Send { reply: reply@ },
            Action::Answer => ActionView::Answer,
            Action::OpenPoll { question, yes, no, anonymous, open_secs } => ActionView::OpenPoll {
                question: question@,
                yes: yes@,
                no: no@,
                anonymous: *anonymous,
                open_secs: *open_secs,
            },
            Action::Wait { secs } => ActionView::Wait { secs: *secs },
            Action::ClosePoll => ActionView::ClosePoll,
            Action::DeletePoll => ActionView::DeletePoll,
            Action::StartInstance { region, version, save } => ActionView::StartInstance {
                region: region@,
                version: version@,
                save: save@,
            },
            Action::StopInstance => ActionView::StopInstance,
            Action::Download { save } => ActionView::Download { save: save@ },
            Action::SendFile { file_name, caption } => ActionView::SendFile {
                file_name: file_name@,
                caption: caption@,
            },
        }
    }
}

/// Where a conversation is: the action that it waits for.
pub enum Step {
    /// None; the conversation is over.
    Over,
    /// The last message.
    Closing,
    /// The message that the server is being stopped.
    StopAnnounced,
    /// The request to stop the server.
    Stopping,
    /// The time until the next look at a server that is to stop.
    StopWatch,
    /// The confirmation that the button of a save was pressed.
    Answering { slot: String },
    /// The poll's appearance.
    PollOpening { slot: String },
    /// The time of the vote.
    Voting { slot: String },
    /// The count of the votes.
    PollClosing { slot: String },
    /// The poll's deletion.
    PollDeleting { slot: String, yes: u32, total: u32 },
    /// The message that the vote was won.
    VoteWon { slot: String },
    /// The request to start a server.
    Starting,
    /// The message that the server is being started.
    StartAnnounced,
    /// The time until the next look at a server that is to run.
    StartWatch,
    /// The message that a save is being downloaded.
    DownloadAnnounced { slot: String },
    /// The download.
    Downloading { slot: String },
}

/// What a [`Step`] says.
pub enum StepView {
    Over,
    Closing,
    StopAnnounced,
    Stopping,
    StopWatch,
    Answering { slot: Seq<char> },
    PollOpening { slot: Seq<char> },
    Voting { slot: Seq<char> },
    PollClosing { slot: Seq<char> },
    PollDeleting { slot: Seq<char>, yes: u32, total: u32 },
    VoteWon { slot: Seq<char> },
    Starting,
    StartAnnounced,
    StartWatch,
    DownloadAnnounced { slot: Seq<char> },
    Downloading { slot: Seq<char> },
}

impl View for Step {
    type V = StepView;

    open spec fn view(&self) -> StepView {
        match self {
            Step::Over => StepView::Over,
            Step::Closing => StepView::Closing,
            Step::StopAnnounced => StepView::StopAnnounced,
            Step::Stopping => StepView::Stopping,
            Step::StopWatch => StepView::StopWatch,
            Step::Answering { slot } => StepView::Answering { slot: slot@ },
            Step::PollOpening { slot } => StepView::PollOpening { slot: slot@ },
            Step::Voting { slot } => StepView::Voting { slot: slot@ },
            Step::PollClosing { slot } => StepView::PollClosing { slot: slot@ },
            Step::PollDeleting { slot, yes, total } => StepView::PollDeleting {
                slot: slot@,
                yes: *yes,
                total: *total,
            },
            Step::VoteWon { slot } => StepView::VoteWon { slot: slot@ },
            Step::Starting => StepView::Starting,
            Step::StartAnnounced => StepView::StartAnnounced,
            Step::StartWatch => StepView::StartWatch,
            Step::DownloadAnnounced { slot } => StepView::DownloadAnnounced { slot: slot@ },
            Step::Downloading { slot } => StepView::Downloading { slot: slot@ },
        }
    }
}

/// How an action went.
pub enum Event {
    /// It was performed.
    Succeeded,
    /// It failed.
    Failed,
    /// The poll was closed with these numbers of votes.
    PollClosed { yes: u32, total: u32 },
    /// The download failed for this reason.
    DownloadFailed { error: String },
}

/// What an [`Event`] says.
pub enum EventView {
    Succeeded,
    Failed,
    PollClosed { yes: u32, total: u32 },
    DownloadFailed { error: Seq<char> },
}

impl View for Event {
    type V = EventView;

    open spec fn view(&self) -> EventView {
        match self {
            Event::Succeeded => EventView::Succeeded,
            Event::Failed => EventView::Failed,
            Event::PollClosed { yes, total } => EventView::PollClosed { yes: *yes, total: *total },
            Event::DownloadFailed { error } => EventView::DownloadFailed { error: error@ },
        }
    }
}

impl StepView {
    /// Whether the action that the step waits for can go this way: closing a poll counts votes
    /// or fails, a download that fails says why, and everything else succeeds or fails.
    pub open spec fn expects(self, event: EventView) -> bool {
        match self {
            StepView::Over => false,
            StepView::PollClosing { .. } => event is PollClosed || event is Failed,
            StepView::Downloading { .. } => event is Succeeded || event is DownloadFailed,
            _ => event is Succeeded || event is Failed,
        }
    }

    /// Whether the conversation goes on when the action that the step waits for has failed.
    pub open spec fn forgives(self) -> bool {
        self is Stopping || self is PollDeleting || self is Starting
    }
}

/// The poll on whether to start the server.
pub open spec fn poll_view() -> ActionView {
    ActionView::OpenPoll {
        question: "Запускаем сервер?"@,
        yes: "Да"@,
        no: "Нет"@,
        anonymous: false,
        open_secs: POLL_OPEN_SECS,
    }
}

/// The message that tells how the vote ended, with which the conversation ends too unless the
/// vote was won.
pub open spec fn vote_told(slot: Seq<char>, yes: u32, total: u32) -> (StepView, ActionView) {
    (
        if outcome_of(yes as int, total as int) == (VoteOutcome::Decided { run: true }) {
            StepView::VoteWon { slot }
        } else {
            StepView::Closing
        },
        ActionView::Send { reply: vote_reply(yes as int, total as int) },
    )
}

/// The look at a server that is to stop.
pub open spec fn stop_look(state: StateView) -> (StepView, ActionView) {
    if state.server_status == ServerStatus::OFFLINE {
        (
            StepView::Closing,
            ActionView::Edit {
                target: Target::Menu,
                reply: ReplyView {
                    text: "Сервер остановлен."@,
                    html: false,
                    keyboard: Some(back_menu()),
                },
            },
        )
    } else {
        (StepView::StopWatch, ActionView::Wait { secs: WATCH_SECS })
    }
}

/// The look at a server that is to run.
pub open spec fn start_look(state: StateView) -> (StepView, ActionView) {
    if state.server_status == ServerStatus::RUNNING {
        (
            StepView::Closing,
            ActionView::Edit {
                target: Target::LastSent,
                reply: ReplyView {
                    text: "<code>"@ + or_empty(state.server_address) + "</code>"@,
                    html: true,
                    keyboard: Some(back_menu()),
                },
            },
        )
    } else {
        (StepView::StartWatch, ActionView::Wait { secs: WATCH_SECS })
    }
}

/// How the conversation begins that a button sets off.
pub open spec fn first_step(callback: CallbackView, state: StateView) -> (StepView, ActionView) {
    match callback {
        CallbackView::MainMenu => (
            StepView::Closing,
            ActionView::Edit { target: Target::Menu, reply: status_reply(state) },
        ),
        CallbackView::ChooseSave => (
            StepView::Closing,
            ActionView::Edit {
                target: Target::Menu,
                reply: ReplyView {
                    text: "Выберите сохранение для запуска:"@,
                    html: false,
                    keyboard: Some(saves_menu("start_save:1"@, "start_save:2"@)),
                },
            },
        ),
        CallbackView::StopServer => (
            StepView::StopAnnounced,
            ActionView::Edit { target: Target::Menu, reply: plain_view("Останавливаем..."@) },
        ),
        CallbackView::ManageSaves => (
            StepView::Closing,
            ActionView::Edit {
                target: Target::Menu,
                reply: ReplyView {
                    text: "Выберите сохранение для скачивания:"@,
                    html: false,
                    keyboard: Some(saves_menu("download_save:1"@, "download_save:2"@)),
                },
            },
        ),
        CallbackView::StartSave { slot } => (StepView::Answering { slot }, ActionView::Answer),
        CallbackView::DownloadSave { slot } => (
            StepView::DownloadAnnounced { slot },
            ActionView::Edit {
                target: Target::Menu,
                reply: plain_view("Загрузка сейва "@ + slot + "..."@),
            },
        ),
        CallbackView::Unknown => (StepView::Over, ActionView::Finish),
    }
}

/// How the conversation goes on from a step.
pub open spec fn next_step(step: StepView, event: EventView, state: StateView) -> (
    StepView,
    ActionView,
) {
    if event is Failed && !step.forgives() {
        (StepView::Over, ActionView::Fail)
    } else {
        match step {
            StepView::Over | StepView::Closing => (StepView::Over, ActionView::Finish),
            StepView::StopAnnounced => (StepView::Stopping, ActionView::StopInstance),
            StepView::Stopping | StepView::StopWatch => stop_look(state),
            StepView::Answering { slot } => (StepView::PollOpening { slot }, poll_view()),
            StepView::PollOpening { slot } => (
                StepView::Voting { slot },
                ActionView::Wait { secs: VOTE_SECS },
            ),
            StepView::Voting { slot } => (StepView::PollClosing { slot }, ActionView::ClosePoll),
            StepView::PollClosing { slot } => (
                StepView::PollDeleting { slot, yes: event->yes, total: event->total },
                ActionView::DeletePoll,
            ),
            StepView::PollDeleting { slot, yes, total } => vote_told(slot, yes, total),
            StepView::VoteWon { slot } => (
                StepView::Starting,
                ActionView::StartInstance {
                    region: REGION@,
                    version: VERSION@,
                    save: mapped_slot(slot),
                },
            ),
            StepView::Starting => (
                StepView::StartAnnounced,
                ActionView::Send { reply: plain_view("Сервер запускается..."@) },
            ),
            StepView::StartAnnounced | StepView::StartWatch => start_look(state),
            StepView::DownloadAnnounced { slot } => (
                StepView::Downloading { slot },
                ActionView::Download { save: mapped_slot(slot) },
            ),
            StepView::Downloading { slot } => (
                StepView::Closing,
                match event {
                    EventView::DownloadFailed { error } => ActionView::Edit {
                        target: Target::Menu,
                        reply: plain_view("Ошибка загрузки: "@ + error),
                    },
                    _ => ActionView::SendFile {
                        file_name: slot + ".zip"@,
                        caption: "Сейв "@ + slot,
                    },
                },
            ),
        }
    }
}

fn look_at_stop(state: &FZClientState) -> (r: (Step, Action))
    ensures
        (r.0@, r.1@) == stop_look(state@),
{
    if state.server_status == ServerStatus::OFFLINE {
        let reply = Reply {
            text: "Сервер остановлен.".to_owned(),
            html: false,
            keyboard: Some(get_back_menu()),
        };
        (Step::Closing, Action::Edit { target: Target::Menu, reply })
    } else {
        (Step::StopWatch, Action::Wait { secs: WATCH_SECS })
    }
}

fn look_at_start(state: &FZClientState) -> (r: (Step, Action))
    ensures
        (r.0@, r.1@) == start_look(state@),
{
    if state.server_status == ServerStatus::RUNNING {
        let address = text_or_empty(&state.server_address);
        let reply = Reply {
            text: "<code>".to_owned().concat(address.as_str()).concat("</code>"),
            html: true,
            keyboard: Some(get_back_menu()),
        };
        (Step::Closing, Action::Edit { target: Target::LastSent, reply })
    } else {
        (Step::StartWatch, Action::Wait { secs: WATCH_SECS })
    }
}

/// How a conversation begins for a button that may tell the bot nothing, and whose message may
/// be missing.
pub open spec fn opening(data: Option<Seq<char>>, has_message: bool, state: StateView) -> (
    StepView,
    ActionView,
) {
    match data {
        Some(data) if has_message => first_step(callback_of(data), state),
        _ => (StepView::Over, ActionView::Finish),
    }
}

/// Begins the conversation that a pressed button sets off. `data` is what the button tells the
/// bot; without it, or without the message that holds the button, there is nothing to do.
pub fn callback_handler(data: Option<&str>, has_message: bool, state: &FZClientState) -> (r: (
    Step,
    Action,
))
    ensures
        (r.0@, r.1@) == (match data {
            Some(data) if has_message => first_step(callback_of(data@), state@),
            _ => (StepView::Over, ActionView::Finish),
        }),
        (r.0@, r.1@) == opening(
            match data {
                Some(data) => Some(data@),
                None => None,
            },
            has_message,
            state@,
        ),
{
    let data: &str = match data {
        Some(data) => data,
        None => return (Step::Over, Action::Finish),
    };
    if !has_message {
        return (Step::Over, Action::Finish);
    }
    match parse_callback(data) {
        Callback::MainMenu => (
            Step::Closing,
            Action::Edit { target: Target::Menu, reply: make_status_reply(state) },
        ),
        Callback::ChooseSave => {
            let reply = Reply {
                text: "Выберите сохранение для запуска:".to_owned(),
                html: false,
                keyboard: Some(get_saves_menu("start_save:1", "start_save:2")),
            };
            (Step::Closing, Action::Edit { target: Target::Menu, reply })
        },
        Callback::StopServer => (
            Step::StopAnnounced,
            Action::Edit { target: Target::Menu, reply: plain("Останавливаем...") },
        ),
        Callback::ManageSaves => {
            let reply = Reply {
                text: "Выберите сохранение для скачивания:".to_owned(),
                html: false,
                keyboard: Some(get_saves_menu("download_save:1", "download_save:2")),
            };
            (Step::Closing, Action::Edit { target: Target::Menu, reply })
        },
        Callback::StartSave { slot } => (Step::Answering { slot }, Action::Answer),
        Callback::DownloadSave { slot } => {
            let text = "Загрузка сейва ".to_owned().concat(slot.as_str()).concat("...");
            (
                Step::DownloadAnnounced { slot },
                Action::Edit { target: Target::Menu, reply: plain(text.as_str()) },
            )
        },
        Callback::Unknown => (Step::Over, Action::Finish),
    }
}

impl Step {
    /// Whether the action that the step waits for can go this way.
    pub fn expects(&self, event: &Event) -> (r: bool)
        ensures
            r == self@.expects(event@),
    {
        match self {
            Step::Over => false,
            Step::PollClosing { .. } => match event {
                Event::PollClosed { .. } | Event::Failed => true,
                _ => false,
            },
            Step::Downloading { .. } => match event {
                Event::Succeeded | Event::DownloadFailed { .. } => true,
                _ => false,
            },
            _ => match event {
                Event::Succeeded | Event::Failed => true,
                _ => false,
            },
        }
    }

    /// Goes on to the next step, given how the action went that this step waited for.
    pub fn next(self, event: Event, state: &FZClientState) -> (r: (Step, Action))
        requires
            self@.expects(event@),
        ensures
            (r.0@, r.1@) == next_step(self@, event@, state@),
    {
        match event {
            Event::Failed => match self {
                Step::Stopping => look_at_stop(state),
                Step::PollDeleting { slot, yes, total } => tell_vote(slot, yes, total),
                Step::Starting => tell_start(),
                _ => (Step::Over, Action::Fail),
            },
            Event::PollClosed { yes, total } => match self {
                Step::PollClosing { slot } => (
                    Step::PollDeleting { slot, yes, total },
                    Action::DeletePoll,
                ),
                _ => (Step::Over, Action::Finish),
            },
            Event::DownloadFailed { error } => {
                let text = "Ошибка загрузки: ".to_owned().concat(error.as_str());
                (
                    Step::Closing,
                    Action::Edit { target: Target::Menu, reply: plain(text.as_str()) },
                )
            },
            Event::Succeeded => match self {
                Step::Over | Step::Closing | Step::PollClosing { .. } => (
                    Step::Over,
                    Action::Finish,
                ),
                Step::StopAnnounced => (Step::Stopping, Action::StopInstance),
                Step::Stopping | Step::StopWatch => look_at_stop(state),
                Step::Answering { slot } => (
                    Step::PollOpening { slot },
                    Action::OpenPoll {
                        question: "Запускаем сервер?".to_owned(),
                        yes: "Да".to_owned(),
                        no: "Нет".to_owned(),
                        anonymous: false,
                        open_secs: POLL_OPEN_SECS,
                    },
                ),
                Step::PollOpening { slot } => (
                    Step::Voting { slot },
                    Action::Wait { secs: VOTE_SECS },
                ),
                Step::Voting { slot } => (Step::PollClosing { slot }, Action::ClosePoll),
                Step::PollDeleting { slot, yes, total } => tell_vote(slot, yes, total),
                Step::VoteWon { slot } => (
                    Step::Starting,
                    Action::StartInstance {
                        region: REGION.to_owned(),
                        version: VERSION.to_owned(),
                        save: map_slot(slot.as_str()),
                    },
                ),
                Step::Starting => tell_start(),
                Step::StartAnnounced | Step::StartWatch => look_at_start(state),
                Step::DownloadAnnounced { slot } => {
                    let save = map_slot(slot.as_str());
                    (Step::Downloading { slot }, Action::Download { save })
                },
                Step::Downloading { slot } => {
                    let caption = "Сейв ".to_owned().concat(slot.as_str());
                    (Step::Closing, Action::SendFile { file_name: slot.concat(".zip"), caption })
                },
            },
        }
    }
}

fn tell_vote(slot: String, yes: u32, total: u32) -> (r: (Step, Action))
    ensures
        (r.0@, r.1@) == vote_told(slot@, yes, total),
{
    let reply = make_vote_reply(yes, total);
    let step = match vote_outcome(yes, total) {
        VoteOutcome::Decided { run: true } => Step::VoteWon { slot },
        _ => Step::Closing,
    };
    (step, Action::Send { reply })
}

fn tell_start() -> (r: (Step, Action))
    ensures
        r.0@ == StepView::StartAnnounced,
        r.1@ == (ActionView::Send { reply: plain_view("Сервер запускается..."@) }),
{
    (Step::StartAnnounced, Action::Send { reply: plain("Сервер запускается...") })
}

} // verus!
