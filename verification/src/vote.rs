//! The vote on whether to start the server.

use crate::menu::{Reply, ReplyView};
use crate::text::{decimal, u64_text};
use vstd::prelude::*;

verus! {

/// What a vote comes to.
#[derive(Debug, Clone, Copy, PartialEq, Eq, Structural)]
pub enum VoteOutcome {
    /// Nobody voted.
    NobodyCame,
    /// Two voted, and two do not decide.
    TooFew,
    /// The vote counts, and the server is to run or not.
    Decided { run: bool },
}

/// Whether more than 60 percent of the votes are for the start.
pub open spec fn majority(yes: int, total: int) -> bool {
    100 * yes > 60 * total
}

/// What a vote comes to in which `total` voted, `yes` of them for the start.
pub open spec fn outcome_of(yes: int, total: int) -> VoteOutcome {
    if total == 0 {
        VoteOutcome::NobodyCame
    } else if total == 2 {
        VoteOutcome::TooFew
    } else {
        VoteOutcome::Decided { run: majority(yes, total) }
    }
}

/// Counts a vote.
pub fn vote_outcome(yes: u32, total: u32) -> (r: VoteOutcome)
    ensures
        r == outcome_of(yes as int, total as int),
{
    if total == 0 {
        return VoteOutcome::NobodyCame;
    }
    if total < 3 && total > 1 {
        return VoteOutcome::TooFew;
    }
    VoteOutcome::Decided { run: 100 * (yes as u64) > 60 * (total as u64) }
}

/// The message that tells how a vote ended.
pub open spec fn vote_reply(yes: int, total: int) -> ReplyView {
    match outcome_of(yes, total) {
        VoteOutcome::NobodyCame => ReplyView {
            text: "<i>но никто не пришел...</i>\nГолосование окончено."@,
            html: true,
            keyboard: None,
        },
        VoteOutcome::TooFew => ReplyView {
            text: "Проголосовало меньше 3 человек.\nГолосование окончено."@,
            html: false,
            keyboard: None,
        },
        VoteOutcome::Decided { run } => ReplyView {
            text: "Голосование окончено.\n\n<blockquote>Всего голосов: "@ + decimal(total as nat)
                + "\nГолосов за <code>Да</code>: "@ + decimal(yes as nat)
                + "</blockquote>\n\nСервер"@ + (if run {
                ""@
            } else {
                " не"@
            }) + " будет запущен."@,
            html: true,
            keyboard: None,
        },
    }
}

/// Makes the message that tells how a vote ended.
pub fn make_vote_reply(yes: u32, total: u32) -> (r: Reply)
    ensures
        r@ == vote_reply(yes as int, total as int),
{
    match vote_outcome(yes, total) {
        VoteOutcome::NobodyCame => Reply {
            text: "<i>но никто не пришел...</i>\nГолосование окончено.".to_owned(),
            html: true,
            keyboard: None,
        },
        VoteOutcome::TooFew => Reply {
            text: "Проголосовало меньше 3 человек.\nГолосование окончено.".to_owned(),
            html: false,
            keyboard: None,
        },
        VoteOutcome::Decided { run } => {
            let all = u64_text(total as u64);
            let in_favour = u64_text(yes as u64);
            let negation: &str = if run {
                ""
            } else {
                " не"
            };
            let text = "Голосование окончено.\n\n<blockquote>Всего голосов: ".to_owned().concat(
                all.as_str(),
            ).concat("\nГолосов за <code>Да</code>: ").concat(in_favour.as_str()).concat(
                "</blockquote>\n\nСервер",
            ).concat(negation).concat(" будет запущен.");
            Reply { text, html: true, keyboard: None }
        },
    }
}

} // verus!
