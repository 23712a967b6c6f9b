use cpp_ast::llm::chatgpt::first_reply;
use cpp_ast::llm::chatgpt::opening;
use cpp_ast::llm::chatgpt::Choice;
use cpp_ast::llm::chatgpt::CompletionRequest;
use cpp_ast::llm::chatgpt::CompletionResponse;
use cpp_ast::llm::chatgpt::MessageRole;
use cpp_ast::llm::chatgpt::Usage;
use cpp_ast::llm::code_interpreter::code_or_failure;
use cpp_ast::llm::code_interpreter::extract_rust_code_block;
use cpp_ast::llm::code_interpreter::suggestion_prompt;
use cpp_ast::llm::code_interpreter::ExtractError;
use cpp_ast::llm::code_interpreter::History;
use cpp_ast::llm::code_interpreter::Repair;
use cpp_ast::llm::code_interpreter::Verdict;
use cpp_ast::llm::code_interpreter::MAX_TRIES;
use cpp_ast::llm::Message;

fn response(choices: Vec<Choice>) -> CompletionResponse {
    CompletionResponse {
        id: "id".to_string(),
        object: "chat.completion".to_string(),
        created: 1,
        model: "m".to_string(),
        choices,
        usage: Usage { prompt_tokens: 1, completion_tokens: 2, total_tokens: 3 },
        system_fingerprint: "fp".to_string(),
    }
}

fn choice(index: i32, text: &str) -> Choice {
    Choice {
        index,
        message: Message::new(MessageRole::Assistant, text.to_string()),
        finish_reason: "stop".to_string(),
    }
}

#[test]
fn message_keeps_role_and_content() {
    let m = Message::new(MessageRole::User, "hello".to_string());
    assert_eq!(m.content(), "hello");
    assert_eq!(m.role(), MessageRole::User);
    assert_eq!(Message::new(MessageRole::System, String::new()).content(), "");
}

#[test]
fn opening_is_system_then_user() {
    let messages = opening("be exact".to_string(), "int x;".to_string());
    assert_eq!(
        messages,
        vec![
            Message::new(MessageRole::System, "be exact".to_string()),
            Message::new(MessageRole::User, "int x;".to_string()),
        ]
    );
}

#[test]
fn request_holds_model_and_messages() {
    let messages = opening("s".to_string(), "u".to_string());
    let request = CompletionRequest::new("gpt-4-turbo-preview", &messages);
    assert_eq!(request.model(), "gpt-4-turbo-preview");
    assert_eq!(request.messages(), &messages[..]);
}

#[test]
fn first_reply_is_the_first_choice() {
    assert_eq!(first_reply(&response(vec![])), None);
    assert_eq!(
        first_reply(&response(vec![choice(0, "fn main() {}"), choice(1, "other")])),
        Some("fn main() {}".to_string())
    );
}

#[test]
fn service_reply_gives_data_or_message() {
    let ok = cpp_ast::llm::code_interpreter::CompletionResponse::new(0, "fine".to_string(), Some("code".to_string()));
    assert_eq!(ok.data(), Ok("code"));
    let failed = cpp_ast::llm::code_interpreter::CompletionResponse::new(1, "busy".to_string(), None);
    assert_eq!(failed.data(), Err("busy".to_string()));
}

#[test]
fn history_grows_and_is_cleared_to_the_system_prompt() {
    let system = Message::new(MessageRole::System, "rules".to_string());
    let mut history = History::init("rules".to_string());
    assert_eq!(history.messages(), &[system.clone()][..]);
    history.ask(Message::new(MessageRole::User, "q".to_string()));
    history.answered("a".to_string());
    assert_eq!(
        history.messages(),
        &[
            system.clone(),
            Message::new(MessageRole::User, "q".to_string()),
            Message::new(MessageRole::Assistant, "a".to_string()),
        ][..]
    );
    history.clear_history();
    assert_eq!(history.messages(), &[system.clone()][..]);
    history.clear_history();
    assert_eq!(history.messages(), &[system][..]);
}

#[test]
fn prompts_are_exact() {
    assert_eq!(suggestion_prompt("int x;", None), "```cpp\nint x;\n```");
    assert_eq!(
        suggestion_prompt("let x = 1", Some("expected `;`")),
        "Here is Rust code: ```rust\nlet x = 1\n```. Here is compiler error from rustc: ```\nexpected `;`\n```. Try to fix the error"
    );
    assert_eq!(suggestion_prompt("", None), "```cpp\n\n```");
}

#[test]
fn repair_retries_three_times_at_most() {
    let mut repair = Repair::new();
    assert_eq!(MAX_TRIES, 3);
    assert_eq!(repair.tries_left(), 3);
    for left in [2u32, 1, 0] {
        assert_eq!(
            repair.judge("code", "error"),
            Verdict::Retry(suggestion_prompt("code", Some("error")))
        );
        assert_eq!(repair.tries_left(), left);
    }
    assert_eq!(repair.judge("code", "error"), Verdict::Accept);
    assert_eq!(repair.tries_left(), 0);
}

#[test]
fn repair_accepts_code_without_error() {
    let mut repair = Repair::new();
    assert_eq!(repair.judge("code", ""), Verdict::Accept);
    assert_eq!(repair.tries_left(), 3);
    assert_eq!(repair.judge("code", "e"), Verdict::Retry(suggestion_prompt("code", Some("e"))));
    assert_eq!(repair.judge("code2", ""), Verdict::Accept);
    assert_eq!(repair.tries_left(), 2);
}

#[test]
fn rust_block_is_extracted() {
    let reply = "Sure:\n```rust\nfn main() {\n    let x = 1;\n}\n```\nand\n```rust\nsecond\n```";
    assert_eq!(
        extract_rust_code_block(reply).unwrap(),
        "fn main() {\n    let x = 1;\n}"
    );
    assert_eq!(extract_rust_code_block("```rust  a  ```").unwrap(), "a");
}

#[test]
fn reply_without_rust_block_fails() {
    for reply in ["", "fn main() {}", "```cpp\nint x;\n```", "```rust\n```", "```rustfn a\n```"] {
        match extract_rust_code_block(reply) {
            Err(ExtractError::NoCodeBlock(text)) => assert_eq!(text, reply),
            other => panic!("expected no code block, got {:?}", other),
        }
    }
}

#[test]
fn a_search_that_failed_is_told_apart() {
    let error = regex::Regex::new("(").unwrap_err();
    assert!(matches!(code_or_failure(Err(error), "reply"), Err(ExtractError::Pattern(_))));
    assert!(matches!(
        code_or_failure(Ok(None), "reply"),
        Err(ExtractError::NoCodeBlock(text)) if text == "reply"
    ));
    assert_eq!(code_or_failure(Ok(Some("code".to_string())), "reply").unwrap(), "code");
}

#[test]
fn transpile_info_holds_the_code_of_each_path() {
    let mut map = std::collections::HashMap::new();
    map.insert("/src/a.cpp".to_string(), "fn a () -> () { }".to_string());
    let info = cpp_ast::transpiler::TranspileInfo::new(map.clone());
    assert_eq!(info.map(), &map);
}
