//! What a value says is what it holds: the views lose nothing and change nothing.

use crate::api::FZClientState;
use crate::bot::{Callback, CallbackView, MessageAction, MessageActionView};
use crate::flow::{Action, ActionView, Event, EventView, Step, StepView};
use crate::json::{Json, JsonView};
use crate::menu::{Keyboard, Reply};
use crate::request::FormRequest;
use vstd::prelude::*;

verus! {

/// An optional string says what the string holds, and says nothing where there is none.
pub open spec fn says_text(view: Option<Seq<char>>, s: Option<String>) -> bool {
    &&& view is Some <==> s is Some
    &&& s matches Some(s) ==> view == Some(s@)
}

/// A state says what its fields hold.
pub proof fn state_says_its_fields(state: FZClientState)
    ensures
        says_text(state@.visit_secret, state.visit_secret),
        state@.user_token == state.user_token@,
        state@.server_status == state.server_status,
        says_text(state@.server_address, state.server_address),
        says_text(state@.launch_id, state.launch_id),
        state@.mods.len() == state.mods@.len(),
        forall|i: int|
            0 <= i < state.mods@.len() ==> #[trigger] state@.mods[i] == state.mods@[i]@,
        state@.saves == state.saves@,
        state@.mods_sync == state.mods_sync,
        state@.saves_sync == state.saves_sync,
{
    reveal_with_fuel(crate::json::json_view, 2);
}

/// A request says its address, its fields in their order, and its limit of time.
pub proof fn request_says_its_fields(request: FormRequest)
    ensures
        request@.url == request.url@,
        request@.fields.len() == request.fields@.len(),
        forall|i: int|
            0 <= i < request.fields@.len() ==> #[trigger] request@.fields[i] == (
                request.fields@[i].0@,
                request.fields@[i].1@,
            ),
        request@.timeout_secs == request.timeout_secs,
{
}

/// A document says its parts, each at its place.
pub proof fn json_says_its_parts(j: Json)
    ensures
        match j {
            Json::Null => j@ is Null,
            Json::Bool(b) => j@ == JsonView::Bool(b),
            Json::Number { integer, text } => j@ == (JsonView::Number { integer, text: text@ }),
            Json::Str(s) => j@ == JsonView::Str(s@),
            Json::Array(items) => {
                &&& j@ is Array
                &&& j@->Array_0.len() == items@.len()
                &&& forall|i: int|
                    0 <= i < items@.len() ==> #[trigger] j@->Array_0[i] == items@[i]@
            },
            Json::Object(members) => {
                &&& j@ is Object
                &&& j@->Object_0.len() == members@.len()
                &&& forall|i: int|
                    0 <= i < members@.len() ==> #[trigger] j@->Object_0[i] == (
                        members@[i].0@,
                        members@[i].1@,
                    )
            },
        },
{
    reveal_with_fuel(crate::json::json_view, 2);
}

/// A keyboard says its buttons, each at its place.
pub proof fn keyboard_says_its_buttons(keyboard: Keyboard, row: int, column: int)
    requires
        0 <= row < keyboard.rows@.len(),
        0 <= column < keyboard.rows@[row]@.len(),
    ensures
        keyboard@.len() == keyboard.rows@.len(),
        keyboard@[row].len() == keyboard.rows@[row]@.len(),
        keyboard@[row][column].label == keyboard.rows@[row]@[column].label@,
        keyboard@[row][column].data == keyboard.rows@[row]@[column].data@,
{
}

/// A message says its text, its markup and its keyboard.
pub proof fn reply_says_its_fields(reply: Reply)
    ensures
        reply@.text == reply.text@,
        reply@.html == reply.html,
        reply@.keyboard is Some <==> reply.keyboard is Some,
        reply.keyboard matches Some(keyboard) ==> reply@.keyboard == Some(keyboard@),
{
}

/// The reaction to a message says what it holds.
pub proof fn message_action_says_its_fields(action: MessageAction)
    ensures
        match action {
            MessageAction::Ignore => action@ is Ignore,
            MessageAction::Send { reply } => action@ == (MessageActionView::Send { reply: reply@ }),
            MessageAction::ShowPost { info_url } => action@ == (MessageActionView::ShowPost {
                info_url: info_url@,
            }),
        },
{
}

/// A callback says what it asks for, and for which slot.
pub proof fn callback_says_its_fields(callback: Callback)
    ensures
        match callback {
            Callback::MainMenu => callback@ is MainMenu,
            Callback::ChooseSave => callback@ is ChooseSave,
            Callback::StopServer => callback@ is StopServer,
            Callback::ManageSaves => callback@ is ManageSaves,
            Callback::StartSave { slot } => callback@ == (CallbackView::StartSave { slot: slot@ }),
            Callback::DownloadSave { slot } => callback@ == (CallbackView::DownloadSave {
                slot: slot@,
            }),
            Callback::Unknown => callback@ is Unknown,
        },
{
}

/// An action says what is to be done, and with what.
pub proof fn action_says_its_fields(action: Action)
    ensures
        match action {
            Action::Finish => action@ is Finish,
            Action::Fail => action@ is Fail,
            Action::Edit { target, reply } => action@ == (ActionView::Edit {
                target,
                reply: reply@,
            }),
            Action::Send { reply } => action@ == (ActionView::Send { reply: reply@ }),
            Action::Answer => action@ is Answer,
            Action::OpenPoll { question, yes, no, anonymous, open_secs } => action@ == (
            ActionView::OpenPoll {
                question: question@,
                yes: yes@,
                no: no@,
                anonymous,
                open_secs,
            }),
            Action::Wait { secs } => action@ == (ActionView::Wait { secs }),
            Action::ClosePoll => action@ is ClosePoll,
            Action::DeletePoll => action@ is DeletePoll,
            Action::StartInstance { region, version, save } => action@ == (
            ActionView::StartInstance { region: region@, version: version@, save: save@ }),
            Action::StopInstance => action@ is StopInstance,
            Action::Download { save } => action@ == (ActionView::Download { save: save@ }),
            Action::SendFile { file_name, caption } => action@ == (ActionView::SendFile {
                file_name: file_name@,
                caption: caption@,
            }),
        },
{
}

/// An event says how the action went.
pub proof fn event_says_its_fields(event: Event)
    ensures
        match event {
            Event::Succeeded => event@ is Succeeded,
            Event::Failed => event@ is Failed,
            Event::PollClosed { yes, total } => event@ == (EventView::PollClosed { yes, total }),
            Event::DownloadFailed { error } => event@ == (EventView::DownloadFailed {
                error: error@,
            }),
        },
{
}

/// A step says where the conversation is, and about which slot.
pub proof fn step_says_its_fields(step: Step)
    ensures
        match step {
            Step::Over => step@ is Over,
            Step::Closing => step@ is Closing,
            Step::StopAnnounced => step@ is StopAnnounced,
            Step::Stopping => step@ is Stopping,
            Step::StopWatch => step@ is StopWatch,
            Step::Answering { slot } => step@ == (StepView::Answering { slot: slot@ }),
            Step::PollOpening { slot } => step@ == (StepView::PollOpening { slot: slot@ }),
            Step::Voting { slot } => step@ == (StepView::Voting { slot: slot@ }),
            Step::PollClosing { slot } => step@ == (StepView::PollClosing { slot: slot@ }),
            Step::PollDeleting { slot, yes, total } => step@ == (StepView::PollDeleting {
                slot: slot@,
                yes,
                total,
            }),
            Step::VoteWon { slot } => step@ == (StepView::VoteWon { slot: slot@ }),
            Step::Starting => step@ is Starting,
            Step::StartAnnounced => step@ is StartAnnounced,
            Step::StartWatch => step@ is StartWatch,
            Step::DownloadAnnounced { slot } => step@ == (StepView::DownloadAnnounced {
                slot: slot@,
            }),
            Step::Downloading { slot } => step@ == (StepView::Downloading { slot: slot@ }),
        },
{
}

} // verus!
