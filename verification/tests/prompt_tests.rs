use ai_api::api::{InferRequest, InferResponse, Message, Role};
use ai_api::prompt::build_prompt_from_messages;

fn msg(role: Role, content: &str) -> Message {
    Message { role, content: content.to_string() }
}

#[test]
fn prompt_rendering_determinism() {
    let history = vec![
        msg(Role::System, "You are helpful."),
        msg(Role::User, "What is 2+2?"),
        msg(Role::Assistant, "4"),
        msg(Role::User, "Why?"),
    ];
    let first = build_prompt_from_messages(&history);
    let second = build_prompt_from_messages(&history);
    assert_eq!(first, second);
}

#[test]
fn turn_ordering() {
    let history = vec![msg(Role::System, "S"), msg(Role::User, "U")];
    let prompt = build_prompt_from_messages(&history);
    assert_eq!(
        prompt,
        "<|im_start|>system\nS<|im_end|>\n<|im_start|>user\nU<|im_end|>\n<|im_start|>assistant\n"
    );
}

#[test]
fn empty_history_renders_only_the_cue() {
    let prompt = build_prompt_from_messages(&[]);
    assert_eq!(prompt, "<|im_start|>assistant\n");
}

#[test]
fn content_passes_through_verbatim() {
    let history = vec![msg(Role::User, "line1\nline2 <tags> & unicode: \u{00e9}\u{4e16}")];
    let prompt = build_prompt_from_messages(&history);
    assert_eq!(
        prompt,
        "<|im_start|>user\nline1\nline2 <tags> & unicode: \u{00e9}\u{4e16}<|im_end|>\n<|im_start|>assistant\n"
    );
}

#[test]
fn request_and_response_bodies_carry_plain_values() {
    let req = InferRequest { messages: vec![msg(Role::User, "hi")] };
    let prompt = build_prompt_from_messages(&req.messages);
    let resp = InferResponse { generated_text: prompt };
    assert!(resp.generated_text.starts_with("<|im_start|>user\nhi"));
}

#[test]
fn role_names_are_lowercase_tokens() {
    assert_eq!(Role::System.name(), "system");
    assert_eq!(Role::User.name(), "user");
    assert_eq!(Role::Assistant.name(), "assistant");
}
