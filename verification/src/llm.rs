//! What is said to and heard from a language model that is asked to
//! transpile: the messages, the replies, and the decisions round them. The
//! calls to the model are made elsewhere.

pub mod chatgpt;
pub mod code_interpreter;

pub use chatgpt::Message;
