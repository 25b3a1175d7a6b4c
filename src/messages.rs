use vstd::prelude::*;
use vstd::string::*;
use crate::span::Span;

verus! {

pub const INFO_OPENING: &'static str = "HELLVENTS | INFO\n\nThe mini game MELEE MANIA will start in ";

pub const INFO_MIDDLE: &'static str = ". For a period of ";

pub const ALLOWED_CLOSING: &'static str = ", only melee weapons will be allowed.\n\n";

pub const STARTED_AND_ENDED: &'static str = "You will receive a message when the mini game has started and ended.\n\n";

pub const ENDED_ONLY: &'static str = "You will receive a message when the mini game has ended.\n\n";

pub const PENALTY_TABLE: &'static str = "Invalid kills result in penalities!\n1 & 2 Invalid Kills: Forced Redeploy\n3+ Invalid Kills: Kick";

pub const START_OPENING: &'static str = "HELLVENTS | START\n\nThe mini game MELEE MANIA has started. For a period of ";

pub const RUNNING_OPENING: &'static str = "HELLVENTS | RUNNING\n            \nThe mini game MELEE MANIA is currently running.\n\nFor a period of ";

pub const END_OPENING: &'static str = "HELLVENTS | END\n\nThe mini game MELEE MANIA has ended.\n\nThanks for participating.\n\n-----\n\n";

pub const DISCLAIMER: &'static str = "Hellvents is open source and freely available for use, from the community for it!\n\nGitHub:\nhttps://github.com/Lelleck/hellvents";

pub const MESSAGE_VERB: &'static str = "Message ";

pub const SPACE: &'static str = " ";

pub open spec fn info_text(delay: Seq<char>, duration: Seq<char>) -> Seq<char> {
    INFO_OPENING@ + delay + INFO_MIDDLE@ + duration + ALLOWED_CLOSING@ + STARTED_AND_ENDED@
        + PENALTY_TABLE@
}

pub open spec fn start_text(duration: Seq<char>) -> Seq<char> {
    START_OPENING@ + duration + ALLOWED_CLOSING@ + ENDED_ONLY@ + PENALTY_TABLE@
}

pub open spec fn running_text(remaining: Seq<char>) -> Seq<char> {
    RUNNING_OPENING@ + remaining + ALLOWED_CLOSING@ + ENDED_ONLY@ + PENALTY_TABLE@
}

pub open spec fn end_text() -> Seq<char> {
    END_OPENING@ + DISCLAIMER@
}

/// The server command that sends `text` to the player `id` as a private message.
pub open spec fn message_command_text(id: Seq<char>, text: Seq<char>) -> Seq<char> {
    MESSAGE_VERB@ + id + SPACE@ + text
}

/// Announces the melee-only mini-game before it starts.
pub fn info_message(delay: &Span, duration: &Span) -> (r: String)
    requires
        delay.wf(),
        duration.wf(),
    ensures
        r@ == info_text(delay.text(), duration.text()),
{
    let mut s = String::from_str(INFO_OPENING);
    s.append(delay.format().as_str());
    s.append(INFO_MIDDLE);
    s.append(duration.format().as_str());
    s.append(ALLOWED_CLOSING);
    s.append(STARTED_AND_ENDED);
    s.append(PENALTY_TABLE);
    s
}

/// Announces that enforcement has begun.
pub fn start_message(duration: &Span) -> (r: String)
    requires
        duration.wf(),
    ensures
        r@ == start_text(duration.text()),
{
    let mut s = String::from_str(START_OPENING);
    s.append(duration.format().as_str());
    s.append(ALLOWED_CLOSING);
    s.append(ENDED_ONLY);
    s.append(PENALTY_TABLE);
    s
}

/// Tells a player who joins mid-game that it is running, and for how much longer.
pub fn running_message(remaining: &Span) -> (r: String)
    requires
        remaining.wf(),
    ensures
        r@ == running_text(remaining.text()),
{
    let mut s = String::from_str(RUNNING_OPENING);
    s.append(remaining.format().as_str());
    s.append(ALLOWED_CLOSING);
    s.append(ENDED_ONLY);
    s.append(PENALTY_TABLE);
    s
}

/// Announces the end of the mini-game.
pub fn end_message() -> (r: String)
    ensures
        r@ == end_text(),
{
    let mut s = String::from_str(END_OPENING);
    s.append(open_source_disclaimer());
    s
}

pub fn open_source_disclaimer() -> (r: &'static str)
    ensures
        r@ == DISCLAIMER@,
{
    DISCLAIMER
}

/// The server command that delivers `text` to one player.
pub fn message_command(id: &str, text: &str) -> (r: String)
    ensures
        r@ == message_command_text(id@, text@),
{
    let mut s = String::from_str(MESSAGE_VERB);
    s.append(id);
    s.append(SPACE);
    s.append(text);
    s
}

} // verus!
