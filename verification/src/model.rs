//! Names of the chat-completion models and the plain configuration values.

use vstd::prelude::*;
use vstd::string::*;

verus! {

/// The chat-completion model that answers are asked from.
#[derive(Clone, Copy, Debug, PartialEq, Eq, Structural)]
pub enum Model {
    OpenAI,
    Gemini,
}

impl Model {
    /// The provider's identifier of the model.
    pub open spec fn name(self) -> Seq<char> {
        match self {
            Model::OpenAI => "gpt-3.5-turbo"@,
            Model::Gemini => "gemini-1.5-flash"@,
        }
    }

    /// The provider's identifier of the model.
    pub fn as_str(&self) -> (s: &'static str)
        ensures
            s@ == self.name(),
    {
        match self {
            Model::OpenAI => "gpt-3.5-turbo",
            Model::Gemini => "gemini-1.5-flash",
        }
    }
}

/// State shared by all commands. There is none.
#[derive(Clone, Copy, Debug)]
pub struct Data;

/// What the process is configured with.
#[derive(Debug, PartialEq, Eq)]
pub struct Config {
    pub discord_token: String,
}

/// Who speaks in a message of a conversation.
#[derive(Clone, Copy, Debug, PartialEq, Eq, Structural)]
pub enum Role {
    System,
    User,
}

/// One message of a conversation with the model.
#[derive(Debug, PartialEq, Eq)]
pub struct Message {
    pub role: Role,
    pub text: String,
}

/// The instruction that every conversation opens with.
pub open spec fn system_prompt_text() -> Seq<char> {
    "Ты — дерзкий и задиристый петушок. Твоя задача — отвечать на все вопросы в стиле петуха: кукарекая, хвастаясь и подкалывая собеседника. Используй фразы вроде 'Ку-ка-ре-ку!', 'Смотри, какой я важный!', 'Это же элементарно, цыплёнок!'. Будь весёлым и немного наглым. Отвечай кратко и по делу, но в своем стиле."@
}

/// The instruction that every conversation opens with.
pub fn system_prompt() -> (s: &'static str)
    ensures
        s@ == system_prompt_text(),
{
    "Ты — дерзкий и задиристый петушок. Твоя задача — отвечать на все вопросы в стиле петуха: кукарекая, хвастаясь и подкалывая собеседника. Используй фразы вроде 'Ку-ка-ре-ку!', 'Смотри, какой я важный!', 'Это же элементарно, цыплёнок!'. Будь весёлым и немного наглым. Отвечай кратко и по делу, но в своем стиле."
}

/// The conversation that asks the model for an answer to `user_prompt`: the
/// system instruction, then the user's words.
pub fn conversation(user_prompt: &str) -> (messages: Vec<Message>)
    ensures
        messages@.len() == 2,
        messages@[0].role == Role::System,
        messages@[0].text@ == system_prompt_text(),
        messages@[1].role == Role::User,
        messages@[1].text@ == user_prompt@,
{
    let mut messages: Vec<Message> = Vec::new();
    messages.push(Message { role: Role::System, text: String::from_str(system_prompt()) });
    messages.push(Message { role: Role::User, text: String::from_str(user_prompt) });
    messages
}

/// The answer shown to the user: the text of the model's reply, or a
/// stand-in if the reply held no text.
pub fn answer_text(content: Option<String>) -> (answer: String)
    ensures
        answer@ == (match content {
            Some(text) => text@,
            None => "Silence..."@,
        }),
{
    match content {
        Some(text) => text,
        None => String::from_str("Silence..."),
    }
}

} // verus!
