use deai_client::chat::{chat_prompt, prompt_messages, ChatMessage, Role};

#[test]
fn role_tags() {
    assert_eq!(Role::System.to_string(), "system");
    assert_eq!(Role::User.to_string(), "user");
    assert_eq!(Role::Assistant.to_string(), "assistant");
}

#[test]
fn message_is_framed() {
    let m = ChatMessage { role: Role::User, content: "Hi there".to_string() };
    assert_eq!(m.to_string(), "<|start_header_id|>user<|end_header_id|>Hi there<|eot_id|>");
}

#[test]
fn chat_prompt_frames_every_turn() {
    let messages = vec![
        ChatMessage { role: Role::System, content: "Be brief".to_string() },
        ChatMessage { role: Role::User, content: "Why?".to_string() },
        ChatMessage { role: Role::Assistant, content: "Because.".to_string() },
    ];
    assert_eq!(
        chat_prompt(&messages),
        "<|begin_of_text|><|start_header_id|>system<|end_header_id|>Be brief<|eot_id|>\
<|start_header_id|>user<|end_header_id|>Why?<|eot_id|>\
<|start_header_id|>assistant<|end_header_id|>Because.<|eot_id|>\
<|start_header_id|>assistant<|end_header_id|>"
    );
}

#[test]
fn chat_prompt_of_no_turns() {
    assert_eq!(
        chat_prompt(&vec![]),
        "<|begin_of_text|><|start_header_id|>assistant<|end_header_id|>"
    );
}

#[test]
fn bare_prompt_gets_system_instruction() {
    let m = prompt_messages("What is Rust?".to_string());
    assert_eq!(m.len(), 2);
    assert_eq!(m[0].role, Role::System);
    assert_eq!(m[0].content, "You are a helpful assistant. Respond using one sentence");
    assert_eq!(m[1].role, Role::User);
    assert_eq!(m[1].content, "What is Rust?");
}
