//! Flattening a role-tagged conversation into the prompt text of a session.
use crate::text::append;
use vstd::prelude::*;

verus! {

/// Who speaks a turn of a conversation.
#[derive(Clone, Copy, Debug, PartialEq, Eq, Structural)]
pub enum Role {
    System,
    User,
    Assistant,
}

/// The tag of `role` in a prompt.
pub open spec fn role_tag(role: Role) -> Seq<char> {
    match role {
        Role::System => "system"@,
        Role::User => "user"@,
        Role::Assistant => "assistant"@,
    }
}

impl Role {
    /// The tag of this role in a prompt.
    pub fn to_string(&self) -> (r: String)
        ensures
            r@ == role_tag(*self),
    {
        match self {
            Role::System => "system".to_owned(),
            Role::User => "user".to_owned(),
            Role::Assistant => "assistant".to_owned(),
        }
    }
}

/// One turn of a conversation.
#[derive(Clone, Debug)]
pub struct ChatMessage {
    pub role: Role,
    pub content: String,
}

/// A turn as it stands in a prompt: header, content, terminator.
pub open spec fn message_text(role: Role, content: Seq<char>) -> Seq<char> {
    "<|start_header_id|>"@ + role_tag(role) + "<|end_header_id|>"@ + content + "<|eot_id|>"@
}

/// The turns of `messages`, in order, as they stand in a prompt.
pub open spec fn messages_text(messages: Seq<ChatMessage>) -> Seq<char>
    decreases messages.len(),
{
    if messages.len() == 0 {
        Seq::empty()
    } else {
        messages_text(messages.drop_last()) + message_text(
            messages.last().role,
            messages.last().content@,
        )
    }
}

/// The prompt of a conversation: the begin-of-text marker, every turn, and the
/// header of the assistant's turn to come.
pub open spec fn chat_prompt_text(messages: Seq<ChatMessage>) -> Seq<char> {
    "<|begin_of_text|>"@ + messages_text(messages) + "<|start_header_id|>assistant<|end_header_id|>"@
}

/// The instruction that a bare prompt is given as the system turn.
pub open spec fn system_instruction() -> Seq<char> {
    "You are a helpful assistant. Respond using one sentence"@
}

impl ChatMessage {
    /// This turn as it stands in a prompt.
    pub fn to_string(&self) -> (r: String)
        ensures
            r@ == message_text(self.role, self.content@),
    {
        let mut s = "<|start_header_id|>".to_owned();
        let role = self.role.to_string();
        append(&mut s, role.as_str());
        append(&mut s, "<|end_header_id|>");
        append(&mut s, self.content.as_str());
        append(&mut s, "<|eot_id|>");
        s
    }
}

/// The prompt text of the conversation `messages`.
pub fn chat_prompt(messages: &Vec<ChatMessage>) -> (r: String)
    ensures
        r@ == chat_prompt_text(messages@),
{
    let mut body = String::new();
    let mut i: usize = 0;
    while i < messages.len()
        invariant
            i <= messages.len(),
            body@ == messages_text(messages@.subrange(0, i as int)),
        decreases messages.len() - i,
    {
        let piece = messages[i].to_string();
        append(&mut body, piece.as_str());
        assert(messages@.subrange(0, i + 1).drop_last() =~= messages@.subrange(0, i as int));
        i = i + 1;
    }
    assert(messages@.subrange(0, messages.len() as int) =~= messages@);
    let mut s = "<|begin_of_text|>".to_owned();
    append(&mut s, body.as_str());
    append(&mut s, "<|start_header_id|>assistant<|end_header_id|>");
    s
}

/// The conversation that a bare prompt stands for: the system instruction,
/// then `prompt` as the user's turn.
pub fn prompt_messages(prompt: String) -> (r: Vec<ChatMessage>)
    ensures
        r@.len() == 2,
        r@[0].role == Role::System,
        r@[0].content@ == system_instruction(),
        r@[1].role == Role::User,
        r@[1].content == prompt,
{
    let system = ChatMessage {
        role: Role::System,
        content: "You are a helpful assistant. Respond using one sentence".to_owned(),
    };
    let user = ChatMessage { role: Role::User, content: prompt };
    let mut v: Vec<ChatMessage> = Vec::new();
    v.push(system);
    v.push(user);
    v
}

} // verus!
