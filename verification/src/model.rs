//! The data that travels between the user interface, the chat service and the
//! conversation records.

use vstd::prelude::*;
use crate::text::same_text;

verus! {

/// Who wrote a message.
#[derive(Clone, Copy, Debug, PartialEq, Eq, Structural)]
pub enum Role {
    User,
    Assistant,
    System,
}

/// The name under which a role is written in requests, records and transcripts.
pub open spec fn role_name(role: Role) -> Seq<char> {
    match role {
        Role::User => "user"@,
        Role::Assistant => "assistant"@,
        Role::System => "system"@,
    }
}

/// The role that a written name stands for, if it is the name of one.
pub open spec fn role_named(name: Seq<char>) -> Option<Role> {
    if name == "user"@ {
        Some(Role::User)
    } else if name == "assistant"@ {
        Some(Role::Assistant)
    } else if name == "system"@ {
        Some(Role::System)
    } else {
        None
    }
}

impl Role {
    /// The role's written name.
    pub fn name(&self) -> (name: &'static str)
        ensures
            name@ == role_name(*self),
    {
        match self {
            Role::User => "user",
            Role::Assistant => "assistant",
            Role::System => "system",
        }
    }

    /// The role with the given written name. No other spelling is a role's
    /// name.
    pub fn from_name(name: &str) -> (role: Option<Role>)
        ensures
            role == role_named(name@),
    {
        if same_text(name, "user") {
            Some(Role::User)
        } else if same_text(name, "assistant") {
            Some(Role::Assistant)
        } else if same_text(name, "system") {
            Some(Role::System)
        } else {
            None
        }
    }
}

/// Every role is found again by its written name.
pub proof fn law_role_names_are_distinct(role: Role)
    ensures
        role_named(role_name(role)) == Some(role),
{
    reveal_strlit("user");
    reveal_strlit("assistant");
    reveal_strlit("system");
    assert("assistant"@.len() == 9);
    assert("system"@.len() == 6);
}

/// One entry of a conversation. The order of messages within a conversation is
/// the order in which they were said.
#[derive(Clone, Debug, PartialEq, Eq)]
pub struct Message {
    pub role: Role,
    pub content: String,
}

/// A message as a mathematical value.
pub struct MessageView {
    pub role: Role,
    pub content: Seq<char>,
}

impl View for Message {
    type V = MessageView;

    open spec fn view(&self) -> MessageView {
        MessageView { role: self.role, content: self.content@ }
    }
}

impl DeepView for Message {
    type V = MessageView;

    open spec fn deep_view(&self) -> MessageView {
        self@
    }
}

impl Message {
    /// A message with the given author and text.
    pub fn new(role: Role, content: String) -> (message: Message)
        ensures
            message@ == (MessageView { role, content: content@ }),
    {
        Message { role, content }
    }
}

/// One decoded piece of a streamed reply. A fragment that is not final carries
/// the text of one chunk; the final one carries the whole reply.
#[derive(Clone, Debug, PartialEq, Eq)]
pub struct StreamFragment {
    pub text: String,
    pub is_final: bool,
}

/// A fragment as a mathematical value.
pub struct FragmentView {
    pub text: Seq<char>,
    pub is_final: bool,
}

impl View for StreamFragment {
    type V = FragmentView;

    open spec fn view(&self) -> FragmentView {
        FragmentView { text: self.text@, is_final: self.is_final }
    }
}

impl DeepView for StreamFragment {
    type V = FragmentView;

    open spec fn deep_view(&self) -> FragmentView {
        self@
    }
}

/// What the decoder reads in one chunk of a streamed reply: the text under
/// `message.content`, if the chunk has one, and whether the chunk marks the
/// end of the reply.
#[derive(Clone, Debug, PartialEq, Eq)]
pub struct ChunkFields {
    pub content: Option<String>,
    pub done: bool,
}

/// A chunk's fields as a mathematical value.
pub struct ChunkView {
    pub content: Option<Seq<char>>,
    pub done: bool,
}

impl View for ChunkFields {
    type V = ChunkView;

    open spec fn view(&self) -> ChunkView {
        ChunkView {
            content: match self.content {
                Some(text) => Some(text@),
                None => None,
            },
            done: self.done,
        }
    }
}

/// The message of one chunk as the chat service writes it.
#[derive(Clone, Debug, PartialEq, Eq)]
pub struct ChatResponseContent {
    pub role: String,
    pub content: String,
    pub images: Option<Vec<String>>,
}

/// One chunk of a streamed reply as the chat service writes it.
#[derive(Clone, Debug, PartialEq, Eq)]
pub struct ChatResponsePartial {
    pub model: String,
    pub created_at: String,
    pub message: ChatResponseContent,
    pub done: bool,
}

impl ChatResponsePartial {
    /// What the decoder reads in this chunk: the message's text, and whether
    /// the chunk marks the end of the reply.
    pub fn fields(&self) -> (fields: ChunkFields)
        ensures
            fields@ == (ChunkView { content: Some(self.message.content@), done: self.done }),
    {
        ChunkFields { content: Some(self.message.content.clone()), done: self.done }
    }
}

/// The body of a request to the chat service.
#[derive(Clone, Debug, PartialEq, Eq)]
pub struct ChatRequest {
    pub model: String,
    pub messages: Vec<Message>,
    pub stream: bool,
}

/// A request as a mathematical value.
pub struct RequestView {
    pub model: Seq<char>,
    pub messages: Seq<MessageView>,
    pub stream: bool,
}

impl View for ChatRequest {
    type V = RequestView;

    open spec fn view(&self) -> RequestView {
        RequestView {
            model: self.model@,
            messages: self.messages.deep_view(),
            stream: self.stream,
        }
    }
}

/// Where the chat service is reached, and the model that answers.
#[derive(Clone, Debug, PartialEq, Eq)]
pub struct Config {
    pub endpoint: String,
    pub model: String,
}

/// A configuration as a mathematical value.
pub struct ConfigView {
    pub endpoint: Seq<char>,
    pub model: Seq<char>,
}

impl View for Config {
    type V = ConfigView;

    open spec fn view(&self) -> ConfigView {
        ConfigView { endpoint: self.endpoint@, model: self.model@ }
    }
}

/// The configuration of a chat service on this machine.
pub open spec fn local_service() -> ConfigView {
    ConfigView { endpoint: "http://localhost:11434/api/chat"@, model: "BOLT5:latest"@ }
}

impl Default for Config {
    fn default() -> (config: Config)
        ensures
            config@ == local_service(),
    {
        Config {
            endpoint: String::from_str("http://localhost:11434/api/chat"),
            model: String::from_str("BOLT5:latest"),
        }
    }
}

} // verus!
