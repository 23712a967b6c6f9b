//! A conversation with a model that transpiles and repairs what it wrote: the
//! history, the prompts, and the decision to ask again.

use crate::llm::chatgpt::Message;
use crate::llm::chatgpt::MessageRole;
use vstd::prelude::*;
use vstd::string::StringExecFns;

verus! {

/// The reply of the service: the text it made, or a message that says why
/// there is none.
#[derive(Debug, Clone, PartialEq, Eq)]
pub struct CompletionResponse {
    code: i32,
    msg: String,
    data: Option<String>,
}

impl CompletionResponse {
    /// The status that the service gave.
    pub closed spec fn spec_code(&self) -> i32 {
        self.code
    }

    /// The message that the service gave.
    pub closed spec fn spec_msg(&self) -> Seq<char> {
        self.msg@
    }

    /// The text that the service made, where it made one.
    pub closed spec fn spec_data(&self) -> Option<Seq<char>> {
        match self.data {
            Some(data) => Some(data@),
            None => None,
        }
    }

    /// The reply with the status `code`, the message `msg` and the text
    /// `data`.
    pub fn new(code: i32, msg: String, data: Option<String>) -> (response: Self)
        ensures
            response.spec_code() == code,
            response.spec_msg() == msg@,
            response.spec_data() == match data {
                Some(data) => Some(data@),
                None => None,
            },
    {
        Self { code, msg, data }
    }

    /// The text that the service made; where it made none, the failure is
    /// the service's message.
    pub fn data(&self) -> (r: Result<&str, String>)
        ensures
            match r {
                Ok(data) => self.spec_data() == Some(data@),
                Err(msg) => self.spec_data() is None && msg@ == self.spec_msg(),
            },
    {
        match &self.data {
            Some(data) => Ok(data.as_str()),
            None => Err(self.msg.clone()),
        }
    }
}

/// The messages of a conversation so far. The first is the system's and is
/// never taken away.
#[derive(Debug, Clone, PartialEq, Eq)]
pub struct History {
    messages: Vec<Message>,
}

impl View for History {
    type V = Seq<Message>;

    closed spec fn view(&self) -> Seq<Message> {
        self.messages@
    }
}

impl History {
    /// Whether the history begins with a message of the system.
    pub open spec fn wf(&self) -> bool {
        self@.len() >= 1 && self@[0].spec_role() == MessageRole::System
    }

    /// The history of a conversation that the system opens with
    /// `system_prompt`.
    pub fn init(system_prompt: String) -> (history: Self)
        ensures
            history.wf(),
            history@.len() == 1,
            history@[0].spec_content() == system_prompt@,
    {
        let mut messages: Vec<Message> = Vec::new();
        messages.push(Message::new(MessageRole::System, system_prompt));
        Self { messages }
    }

    /// The messages so far, which are what the model is sent.
    pub fn messages(&self) -> (messages: &[Message])
        ensures
            messages@ == self@,
    {
        self.messages.as_slice()
    }

    /// Adds what is asked next.
    pub fn ask(&mut self, message: Message)
        ensures
            final(self)@ == old(self)@.push(message),
            old(self).wf() ==> final(self).wf(),
    {
        self.messages.push(message);
    }

    /// Adds the model's answer `reply` as a message of the assistant.
    pub fn answered(&mut self, reply: String)
        ensures
            old(self).wf() ==> final(self).wf(),
            final(self)@.len() == old(self)@.len() + 1,
            final(self)@.drop_last() == old(self)@,
            final(self)@.last().spec_role() == MessageRole::Assistant,
            final(self)@.last().spec_content() == reply@,
    {
        self.messages.push(Message::new(MessageRole::Assistant, reply));
        assert(self@.drop_last() =~= old(self)@);
    }

    /// Forgets the conversation: only the first message stays, which is the
    /// system's.
    pub fn clear_history(&mut self)
        ensures
            final(self)@ == old(self)@.take(
                if old(self)@.len() >= 1 {
                    1
                } else {
                    0
                },
            ),
            old(self).wf() ==> final(self).wf(),
    {
        self.messages.truncate(1);
        assert(self@ =~= old(self)@.take(
            if old(self)@.len() >= 1 {
                1
            } else {
                0
            },
        ));
    }
}

/// What the model is asked. Without an error message it is asked to
/// transpile `source_code`, which is C or C++; with one it is asked to repair
/// `source_code`, which is Rust, so that the error goes away.
pub open spec fn prompt_of(source_code: Seq<char>, error_msg: Option<Seq<char>>) -> Seq<char> {
    match error_msg {
        Some(error_msg) => "Here is Rust code: ```rust\n"@ + source_code
            + "\n```. Here is compiler error from rustc: ```\n"@ + error_msg
            + "\n```. Try to fix the error"@,
        None => "```cpp\n"@ + source_code + "\n```"@,
    }
}

/// The prompt for `source_code` and, where there is one, the compiler's
/// error message.
pub fn suggestion_prompt(source_code: &str, error_msg: Option<&str>) -> (prompt: String)
    ensures
        prompt@ == prompt_of(
            source_code@,
            match error_msg {
                Some(error_msg) => Some(error_msg@),
                None => None,
            },
        ),
{
    match error_msg {
        Some(error_msg) => {
            let mut prompt = "Here is Rust code: ```rust\n".to_owned();
            prompt.append(source_code);
            prompt.append("\n```. Here is compiler error from rustc: ```\n");
            prompt.append(error_msg);
            prompt.append("\n```. Try to fix the error");
            prompt
        },
        None => {
            let mut prompt = "```cpp\n".to_owned();
            prompt.append(source_code);
            prompt.append("\n```");
            prompt
        },
    }
}

/// How often the model is asked to repair its code at most.
pub const MAX_TRIES: u32 = 3;

/// The state of the repair of one piece of code: how often the model may
/// still be asked.
#[derive(Debug, Clone, Copy, PartialEq, Eq)]
pub struct Repair {
    tries_left: u32,
}

/// What is done with code once the compiler has judged it.
#[derive(Debug, Clone, PartialEq, Eq)]
pub enum Verdict {
    /// The code is the result.
    Accept,
    /// The model is asked again, with this prompt and a cleared history.
    Retry(String),
}

impl Repair {
    /// How often the model may still be asked.
    pub closed spec fn spec_tries_left(&self) -> u32 {
        self.tries_left
    }

    /// The state before the first judgement: all tries are left.
    pub fn new() -> (repair: Self)
        ensures
            repair.spec_tries_left() == MAX_TRIES,
    {
        Self { tries_left: MAX_TRIES }
    }

    /// How often the model may still be asked.
    pub fn tries_left(&self) -> (n: u32)
        ensures
            n == self.spec_tries_left(),
    {
        self.tries_left
    }

    /// Decides what follows the compiler's judgement of `code`. Code that
    /// compiles without a message is accepted, and so is any code when no
    /// try is left. Else one try is spent and the model is asked to repair
    /// `code`, given the compiler's message.
    pub fn judge(&mut self, code: &str, error_message: &str) -> (verdict: Verdict)
        ensures
            match verdict {
                Verdict::Accept => (error_message@.len() == 0 || old(self).spec_tries_left() == 0)
                    && final(self).spec_tries_left() == old(self).spec_tries_left(),
                Verdict::Retry(prompt) => error_message@.len() > 0 && old(self).spec_tries_left()
                    > 0 && final(self).spec_tries_left() == old(self).spec_tries_left() - 1
                    && prompt@ == prompt_of(code@, Some(error_message@)),
            },
    {
        if error_message.is_empty() || self.tries_left == 0 {
            Verdict::Accept
        } else {
            self.tries_left = self.tries_left - 1;
            Verdict::Retry(suggestion_prompt(code, Some(error_message)))
        }
    }
}

/// The error of `regex`. Nothing is said of what it holds.
#[verifier::external_type_specification]
#[verifier::external_body]
pub struct ExRegexError(regex::Error);

/// What the crate `regex` finds for the pattern `pattern` in `text`: `None`
/// where it does not take the pattern; else the text of the group `group` in
/// the first match, where there is a match and the group took part in it.
pub uninterp spec fn captured(pattern: Seq<char>, text: Seq<char>, group: nat) -> Option<
    Option<Seq<char>>,
>;

/// `Regex::new`, `Regex::captures`, `Captures::get` and `Match::as_str`: the
/// text of one group of the first match of `pattern` in `text`.
#[verifier::external_body]
fn capture(pattern: &str, text: &str, group: usize) -> (r: Result<Option<String>, regex::Error>)
    ensures
        match r {
            Ok(Some(found)) => captured(pattern@, text@, group as nat) == Some(Some(found@)),
            Ok(None) => captured(pattern@, text@, group as nat) == Some(None::<Seq<char>>),
            Err(_) => captured(pattern@, text@, group as nat) is None,
        },
{
    let regex = regex::Regex::new(pattern)?;
    match regex.captures(text) {
        Some(captures) => match captures.get(group) {
            Some(part) => Ok(Some(part.as_str().to_string())),
            None => Ok(None),
        },
        None => Ok(None),
    }
}

/// Why no code is found in a reply.
#[derive(Debug)]
pub enum ExtractError {
    /// The pattern for a block of code is not taken.
    Pattern(regex::Error),
    /// The reply, which holds no block of Rust code.
    NoCodeBlock(String),
}

/// What stands in the first block of a reply that is fenced as Rust code,
/// without the white space round it: the group 1 of the first match of
/// ```` (?s)```rust\s+(.*?)\s+``` ````.
pub open spec fn rust_block(text: Seq<char>) -> Option<Option<Seq<char>>> {
    captured("(?s)```rust\\s+(.*?)\\s+```"@, text, 1)
}

/// What is made of a search for a block of code in `resp_text`: the code
/// that was found; where none was found, the failure holds the reply.
pub fn code_or_failure(found: Result<Option<String>, regex::Error>, resp_text: &str) -> (r: Result<
    String,
    ExtractError,
>)
    ensures
        match r {
            Ok(code) => found == Ok::<Option<String>, regex::Error>(Some(code)),
            Err(ExtractError::NoCodeBlock(text)) => found == Ok::<Option<String>, regex::Error>(
                None,
            ) && text@ == resp_text@,
            Err(ExtractError::Pattern(e)) => found == Err::<Option<String>, regex::Error>(e),
        },
{
    match found {
        Ok(Some(code)) => Ok(code),
        Ok(None) => Err(ExtractError::NoCodeBlock(resp_text.to_owned())),
        Err(e) => Err(ExtractError::Pattern(e)),
    }
}

/// The code of the first block of `resp_text` that is fenced as Rust code.
pub fn extract_rust_code_block(resp_text: &str) -> (r: Result<String, ExtractError>)
    ensures
        match r {
            Ok(code) => rust_block(resp_text@) == Some(Some(code@)),
            Err(ExtractError::NoCodeBlock(text)) => rust_block(resp_text@) == Some(
                None::<Seq<char>>,
            ) && text@ == resp_text@,
            Err(ExtractError::Pattern(_)) => rust_block(resp_text@) is None,
        },
{
    code_or_failure(capture("(?s)```rust\\s+(.*?)\\s+```", resp_text, 1), resp_text)
}

} // verus!
