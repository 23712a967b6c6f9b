//! The messages of a chat and the reply to a completion request.

use vstd::prelude::*;

verus! {

/// Who speaks in a message.
#[derive(Debug, Clone, Copy, PartialEq, Eq)]
pub enum MessageRole {
    User,
    System,
    Assistant,
}

/// One message of a chat.
#[derive(Debug, Clone, PartialEq, Eq)]
pub struct Message {
    role: MessageRole,
    content: String,
}

impl Message {
    /// Who speaks in the message.
    pub closed spec fn spec_role(&self) -> MessageRole {
        self.role
    }

    /// The text of the message.
    pub closed spec fn spec_content(&self) -> Seq<char> {
        self.content@
    }

    /// The message in which `role` says `content`.
    pub fn new(role: MessageRole, content: String) -> (message: Self)
        ensures
            message.spec_role() == role,
            message.spec_content() == content@,
    {
        Self { role, content }
    }

    /// The text of the message.
    pub fn content(&self) -> (content: &str)
        ensures
            content@ == self.spec_content(),
    {
        self.content.as_str()
    }

    /// Who speaks in the message.
    pub fn role(&self) -> (role: MessageRole)
        ensures
            role == self.spec_role(),
    {
        self.role
    }
}

/// A request for a completion: the model that is asked and the messages so
/// far.
#[derive(Debug)]
pub struct CompletionRequest<'a> {
    model: &'a str,
    messages: &'a [Message],
}

impl<'a> CompletionRequest<'a> {
    /// The name of the model.
    pub closed spec fn spec_model(&self) -> Seq<char> {
        self.model@
    }

    /// The messages so far.
    pub closed spec fn spec_messages(&self) -> Seq<Message> {
        self.messages@
    }

    /// The request that asks `model` to continue `messages`.
    pub fn new(model: &'a str, messages: &'a [Message]) -> (request: Self)
        ensures
            request.spec_model() == model@,
            request.spec_messages() == messages@,
    {
        Self { model, messages }
    }

    /// The name of the model.
    pub fn model(&self) -> (model: &'a str)
        ensures
            model@ == self.spec_model(),
    {
        self.model
    }

    /// The messages so far.
    pub fn messages(&self) -> (messages: &'a [Message])
        ensures
            messages@ == self.spec_messages(),
    {
        self.messages
    }
}

/// The reply to a completion request.
#[derive(Debug, Clone, PartialEq, Eq)]
pub struct CompletionResponse {
    pub id: String,
    pub object: String,
    pub created: u64,
    pub model: String,
    pub choices: Vec<Choice>,
    pub usage: Usage,
    pub system_fingerprint: String,
}

/// One of the continuations that the model offers.
#[derive(Debug, Clone, PartialEq, Eq)]
pub struct Choice {
    pub index: i32,
    pub message: Message,
    pub finish_reason: String,
}

/// What a request has cost, in tokens.
#[derive(Debug, Clone, Copy, PartialEq, Eq)]
pub struct Usage {
    pub prompt_tokens: u32,
    pub completion_tokens: u32,
    pub total_tokens: u32,
}

/// The two messages that open a chat: the system says `system_prompt`, then
/// the user says `message`.
pub fn opening(system_prompt: String, message: String) -> (messages: Vec<Message>)
    ensures
        messages@.len() == 2,
        messages@[0].spec_role() == MessageRole::System,
        messages@[0].spec_content() == system_prompt@,
        messages@[1].spec_role() == MessageRole::User,
        messages@[1].spec_content() == message@,
{
    let mut messages: Vec<Message> = Vec::new();
    messages.push(Message::new(MessageRole::System, system_prompt));
    messages.push(Message::new(MessageRole::User, message));
    messages
}

/// The text of the first choice of a reply; `None` where the reply offers no
/// choice.
pub fn first_reply(response: &CompletionResponse) -> (reply: Option<String>)
    ensures
        match reply {
            Some(text) => response.choices@.len() > 0 && text@
                == response.choices@[0].message.spec_content(),
            None => response.choices@.len() == 0,
        },
{
    if response.choices.len() == 0 {
        None
    } else {
        Some(response.choices[0].message.content().to_owned())
    }
}

} // verus!
