//! The requests that the bridge sends to the chat service.

use vstd::prelude::*;
use crate::decoder::{DecoderState, DecoderView, StreamDecoder};
use crate::model::{ChatRequest, Config, Message, MessageView, RequestView, Role};

verus! {

/// The request that asks the configured model to answer a prompt: the prompt
/// as the user's one message, with the answer streamed.
pub open spec fn completion_of(model: Seq<char>, prompt: Seq<char>) -> RequestView {
    RequestView {
        model,
        messages: seq![MessageView { role: Role::User, content: prompt }],
        stream: true,
    }
}

/// Builds the request for one turn of a conversation.
pub fn completion_request(config: &Config, prompt: String) -> (request: ChatRequest)
    ensures
        request@ == completion_of(config@.model, prompt@),
{
    let mut messages: Vec<Message> = Vec::new();
    messages.push(Message { role: Role::User, content: prompt });
    assert(messages.deep_view() =~= seq![MessageView { role: Role::User, content: prompt@ }]);
    ChatRequest { model: config.model.clone(), messages, stream: true }
}

/// The model that is asked for conversation titles.
pub open spec fn title_model() -> Seq<char> {
    "llama3.2"@
}

/// The instruction that asks for a title for a conversation that opens with
/// `prompt`.
pub open spec fn title_instruction(prompt: Seq<char>) -> Seq<char> {
    "Respond with only a conversation title for: "@ + prompt + ". Keep it succinct"@
}

/// The request that asks for a conversation title: the instruction as one
/// system message, with the answer streamed.
pub open spec fn title_request_of(prompt: Seq<char>) -> RequestView {
    RequestView {
        model: title_model(),
        messages: seq![MessageView { role: Role::System, content: title_instruction(prompt) }],
        stream: true,
    }
}

/// Builds the request that asks the chat service to name a new conversation.
pub fn title_request(prompt: &str) -> (request: ChatRequest)
    ensures
        request@ == title_request_of(prompt@),
{
    let mut instruction = String::from_str("Respond with only a conversation title for: ");
    instruction.append(prompt);
    instruction.append(". Keep it succinct");
    let ghost content = instruction@;
    let mut messages: Vec<Message> = Vec::new();
    messages.push(Message { role: Role::System, content: instruction });
    assert(messages.deep_view() =~= seq![MessageView { role: Role::System, content }]);
    ChatRequest { model: String::from_str("llama3.2"), messages, stream: true }
}

/// How asking for a conversation title ended.
#[derive(Clone, Debug, PartialEq, Eq)]
pub enum TitleOutcome {
    /// The service gave this title.
    Titled(String),
    /// The stream ended before the end of the title. The request fails, and
    /// nothing is created.
    Unfinished,
    /// The stream failed or broke off. The request fails, and nothing is
    /// created.
    Failed,
}

/// A title outcome as a mathematical value.
pub enum TitleView {
    Titled(Seq<char>),
    Unfinished,
    Failed,
}

impl View for TitleOutcome {
    type V = TitleView;

    open spec fn view(&self) -> TitleView {
        match self {
            TitleOutcome::Titled(title) => TitleView::Titled(title@),
            TitleOutcome::Unfinished => TitleView::Unfinished,
            TitleOutcome::Failed => TitleView::Failed,
        }
    }
}

/// What a decoder says of the title once its stream has ended.
pub open spec fn title_of(decoder: DecoderView) -> TitleView {
    match decoder.state {
        DecoderState::Done => TitleView::Titled(decoder.text),
        DecoderState::AwaitingChunk => TitleView::Unfinished,
        DecoderState::Error => TitleView::Failed,
    }
}

/// Decides how a request for a title ended, once the stream has: with the
/// whole reply as the title, where the decoder is done, and with no title
/// otherwise. What had arrived of a title that was not finished is not used.
pub fn title_outcome(decoder: &StreamDecoder) -> (outcome: TitleOutcome)
    ensures
        outcome@ == title_of(decoder@),
{
    match decoder.state() {
        DecoderState::Done => TitleOutcome::Titled(decoder.text().to_owned()),
        DecoderState::AwaitingChunk => TitleOutcome::Unfinished,
        DecoderState::Error => TitleOutcome::Failed,
    }
}

} // verus!
