//! Dialogue state machine: per-conversation state and the routing of
//! inbound events to the single-asset or pack export pipelines.
//!
//! The machine is a pure function from state and event to a transition:
//! the next state, at most one reply, and at most one export to launch.
//! The surrounding application performs the replies and the export work.

use vstd::prelude::*;
use crate::export::AssetRef;

verus! {

/// Per-conversation dialogue state. A conversation starts in `Start`,
/// enters an export mode via an explicit command, and returns to `Start`
/// on cancel or when an export reaches a terminal outcome.
#[derive(Clone, Copy, Debug, PartialEq, Eq, Structural)]
pub enum State {
    Start,
    SingleExport,
    PackExport,
}

impl Default for State {
    /// A conversation's state defaults to `Start` on first contact.
    fn default() -> (s: State)
        ensures
            s == State::Start,
    {
        State::Start
    }
}

/// The command tokens a conversation in `Start` may issue.
#[derive(Clone, Copy, Debug, PartialEq, Eq, Structural)]
pub enum BasicCommand {
    /// Ask for the introduction.
    Start,
    /// Enter single sticker export mode.
    SingleExport,
    /// Enter pack export mode.
    PackExport,
}

/// An inbound message that may carry a sticker.
#[derive(Debug)]
pub struct AssetMessage {
    pub sticker: Option<AssetRef>,
}

/// One inbound conversation event.
#[derive(Debug)]
pub enum Event {
    /// A command, recognized only while in `Start`.
    Command(BasicCommand),
    /// The cancel command, honoured in every state.
    Cancel,
    /// An ordinary message, with or without a sticker.
    Message(AssetMessage),
}

/// The replies the state machine can ask for; the application renders
/// [`reply_text`] and sends it.
#[derive(Clone, Copy, Debug, PartialEq, Eq, Structural)]
pub enum Reply {
    /// Introduction to the service and its commands.
    Intro,
    /// Prompt to send stickers for single export.
    SinglePrompt,
    /// Prompt to send a sticker out of the pack to export.
    PackPrompt,
    /// Acknowledgement of a cancel.
    Canceled,
    /// Hint that a sticker is expected.
    SendSticker,
    /// Hint that the sticker must belong to a pack.
    NeedPackSticker,
    /// Placeholder shown while an export runs.
    Processing,
    /// The request was not admitted by the rate limiter.
    RateLimited,
}

/// An export to launch: one asset, or the pack a given asset belongs to.
#[derive(Debug)]
pub enum ExportRequest {
    Single(AssetRef),
    Pack(AssetRef),
}

/// The outcome of routing one event: the next state, at most one reply,
/// and at most one export to launch.
#[derive(Debug)]
pub struct Transition {
    pub next: State,
    pub reply: Option<Reply>,
    pub request: Option<ExportRequest>,
}

/// How an asset-bearing message is handled in a given state: a missing
/// sticker is reprompted in the two export modes; in single mode any
/// sticker starts a single export; in pack mode a sticker without a
/// pack is rejected with guidance and one with a pack starts a pack
/// export; in `Start` the message is ignored, sticker or not. No such
/// message changes the state.
pub open spec fn export_sticker_transition(state: State, msg: AssetMessage) -> Transition {
    match msg.sticker {
        None => match state {
            State::Start => Transition { next: state, reply: None, request: None },
            State::SingleExport | State::PackExport => Transition {
                next: state,
                reply: Some(Reply::SendSticker),
                request: None,
            },
        },
        Some(asset) => match state {
            State::SingleExport => Transition {
                next: state,
                reply: Some(Reply::Processing),
                request: Some(ExportRequest::Single(asset)),
            },
            State::PackExport => if asset.set_name is Some {
                Transition {
                    next: state,
                    reply: Some(Reply::Processing),
                    request: Some(ExportRequest::Pack(asset)),
                }
            } else {
                Transition { next: state, reply: Some(Reply::NeedPackSticker), request: None }
            },
            State::Start => Transition { next: state, reply: None, request: None },
        },
    }
}

/// The whole routing decision for one inbound event. Group-originated
/// events are ignored; an event denied admission is answered with a
/// rate-limit notice; cancel resets unconditionally from every state;
/// commands are honoured in `Start` and reprompted elsewhere; messages
/// go to [`export_sticker_transition`].
pub open spec fn update_transition(
    state: State,
    is_private: bool,
    admitted: bool,
    event: Event,
) -> Transition {
    if !is_private {
        Transition { next: state, reply: None, request: None }
    } else if !admitted {
        Transition { next: state, reply: Some(Reply::RateLimited), request: None }
    } else {
        match event {
            Event::Cancel => Transition {
                next: State::Start,
                reply: Some(Reply::Canceled),
                request: None,
            },
            Event::Command(c) => if state is Start {
                match c {
                    BasicCommand::Start => Transition {
                        next: State::Start,
                        reply: Some(Reply::Intro),
                        request: None,
                    },
                    BasicCommand::SingleExport => Transition {
                        next: State::SingleExport,
                        reply: Some(Reply::SinglePrompt),
                        request: None,
                    },
                    BasicCommand::PackExport => Transition {
                        next: State::PackExport,
                        reply: Some(Reply::PackPrompt),
                        request: None,
                    },
                }
            } else {
                Transition { next: state, reply: Some(Reply::SendSticker), request: None }
            },
            Event::Message(msg) => export_sticker_transition(state, msg),
        }
    }
}

/// Handle the start command: introduce the service, stay in `Start`.
pub fn handle_start() -> (t: Transition)
    ensures
        t.next == State::Start,
        t.reply == Some(Reply::Intro),
        t.request is None,
{
    Transition { next: State::Start, reply: Some(Reply::Intro), request: None }
}

/// Handle a cancel: reset to `Start` from any state and acknowledge.
pub fn handle_cancel() -> (t: Transition)
    ensures
        t.next == State::Start,
        t.reply == Some(Reply::Canceled),
        t.request is None,
{
    Transition { next: State::Start, reply: Some(Reply::Canceled), request: None }
}

/// Handle the single-export command: enter single mode and prompt.
pub fn handle_single_export() -> (t: Transition)
    ensures
        t.next == State::SingleExport,
        t.reply == Some(Reply::SinglePrompt),
        t.request is None,
{
    Transition { next: State::SingleExport, reply: Some(Reply::SinglePrompt), request: None }
}

/// Handle the pack-export command: enter pack mode and prompt.
pub fn handle_pack_export() -> (t: Transition)
    ensures
        t.next == State::PackExport,
        t.reply == Some(Reply::PackPrompt),
        t.request is None,
{
    Transition { next: State::PackExport, reply: Some(Reply::PackPrompt), request: None }
}

/// Handle an asset-bearing message in the current state.
pub fn handle_export_sticker(state: State, msg: AssetMessage) -> (t: Transition)
    ensures
        t == export_sticker_transition(state, msg),
{
    match msg.sticker {
        None => match state {
            State::Start => Transition { next: state, reply: None, request: None },
            State::SingleExport | State::PackExport => Transition {
                next: state,
                reply: Some(Reply::SendSticker),
                request: None,
            },
        },
        Some(asset) => match state {
            State::SingleExport => Transition {
                next: state,
                reply: Some(Reply::Processing),
                request: Some(ExportRequest::Single(asset)),
            },
            State::PackExport => if asset.set_name.is_some() {
                Transition {
                    next: state,
                    reply: Some(Reply::Processing),
                    request: Some(ExportRequest::Pack(asset)),
                }
            } else {
                Transition { next: state, reply: Some(Reply::NeedPackSticker), request: None }
            },
            State::Start => Transition { next: state, reply: None, request: None },
        },
    }
}

/// Route one inbound event: the single entry point of the state machine.
pub fn handle_update(state: State, is_private: bool, admitted: bool, event: Event) -> (t:
    Transition)
    ensures
        t == update_transition(state, is_private, admitted, event),
{
    if !is_private {
        Transition { next: state, reply: None, request: None }
    } else if !admitted {
        Transition { next: state, reply: Some(Reply::RateLimited), request: None }
    } else {
        match event {
            Event::Cancel => handle_cancel(),
            Event::Command(c) => if matches!(state, State::Start) {
                match c {
                    BasicCommand::Start => handle_start(),
                    BasicCommand::SingleExport => handle_single_export(),
                    BasicCommand::PackExport => handle_pack_export(),
                }
            } else {
                Transition { next: state, reply: Some(Reply::SendSticker), request: None }
            },
            Event::Message(msg) => handle_export_sticker(state, msg),
        }
    }
}

/// The state after an export reached a terminal outcome, success or
/// failure: deterministically back to `Start`.
pub fn handle_export_finished() -> (s: State)
    ensures
        s == State::Start,
{
    State::Start
}

/// The exact text sent for each reply.
pub fn reply_text(r: Reply) -> (s: String)
    ensures
        s@ == reply_text_spec(r),
{
    match r {
        Reply::Intro => intro_text(),
        Reply::SinglePrompt => "Single export mode, please send me stickers.".to_owned(),
        Reply::PackPrompt =>
            "Pack export mode, please send me stickers from the sticker pack you want to export.".to_owned(),
        Reply::Canceled => "Operation canceled.".to_owned(),
        Reply::SendSticker => "Please send me a sticker.".to_owned(),
        Reply::NeedPackSticker => "Please send me a sticker from a sticker pack.".to_owned(),
        Reply::Processing => "Processing...".to_owned(),
        Reply::RateLimited => "Too many requests, please wait a moment and try again.".to_owned(),
    }
}

/// The introduction text.
fn intro_text() -> (s: String)
    ensures
        s@ == intro_text_spec(),
{
    "I can export a sticker or an entire sticker pack.\nUse these commands to enter an export mode:\n\n/single - Export a single sticker\n/pack - Export an entire sticker pack\n\nUse /cancel to cancel the current operation.".to_owned()
}

/// The introduction text, as specification.
pub open spec fn intro_text_spec() -> Seq<char> {
    "I can export a sticker or an entire sticker pack.\nUse these commands to enter an export mode:\n\n/single - Export a single sticker\n/pack - Export an entire sticker pack\n\nUse /cancel to cancel the current operation."@
}

/// The text of each reply, as specification.
pub open spec fn reply_text_spec(r: Reply) -> Seq<char> {
    match r {
        Reply::Intro => intro_text_spec(),
        Reply::SinglePrompt => "Single export mode, please send me stickers."@,
        Reply::PackPrompt =>
            "Pack export mode, please send me stickers from the sticker pack you want to export."@,
        Reply::Canceled => "Operation canceled."@,
        Reply::SendSticker => "Please send me a sticker."@,
        Reply::NeedPackSticker => "Please send me a sticker from a sticker pack."@,
        Reply::Processing => "Processing..."@,
        Reply::RateLimited => "Too many requests, please wait a moment and try again."@,
    }
}

} // verus!
