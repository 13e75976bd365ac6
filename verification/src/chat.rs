//! Conversations: role-tagged messages assembled per call and handed to the
//! engine for rendering.

use vstd::prelude::*;

verus! {

/// The participant a message is attributed to.
#[derive(Clone, Copy, PartialEq, Eq, Structural, Debug)]
pub enum Role {
    System,
    User,
    Assistant,
}

/// Specification-level view of one message: its role and the text it
/// contributes to rendering.
pub struct SpecMessage {
    pub role: Role,
    pub text: Seq<char>,
}

/// Structured content of a system message. The model identity is the one
/// field the boundary fills; everything else of the engine's system format
/// stays at its default.
pub struct SystemContent {
    pub model_identity: Option<String>,
}

impl SystemContent {
    /// System content with every field at its default.
    pub fn new() -> (c: SystemContent)
        ensures
            c.model_identity is None,
    {
        SystemContent { model_identity: None }
    }

    /// The same content with the model identity set to `identity`.
    pub fn with_model_identity(self, identity: &str) -> (c: SystemContent)
        ensures
            c.model_identity matches Some(s) && s@ == identity@,
    {
        SystemContent { model_identity: Some(identity.to_owned()) }
    }
}

/// What a message carries: free text, or structured system content.
pub enum Content {
    Text(String),
    System(SystemContent),
}

/// The text a content value contributes to rendering; an absent model
/// identity contributes nothing.
pub open spec fn content_text(c: Content) -> Seq<char> {
    match c {
        Content::Text(s) => s@,
        Content::System(sc) => match sc.model_identity {
            Some(s) => s@,
            None => Seq::empty(),
        },
    }
}

/// One role-tagged message of a conversation.
pub struct Message {
    pub role: Role,
    pub content: Content,
}

impl View for Message {
    type V = SpecMessage;

    open spec fn view(&self) -> SpecMessage {
        SpecMessage { role: self.role, text: content_text(self.content) }
    }
}

impl Message {
    /// A message of the given role carrying the given content.
    pub fn from_role_and_content(role: Role, content: Content) -> (m: Message)
        ensures
            m.role == role,
            m.content == content,
    {
        Message { role, content }
    }

    /// The text this message contributes to rendering.
    pub fn content_str(&self) -> (s: &str)
        ensures
            s@ == self@.text,
    {
        match &self.content {
            Content::Text(s) => s.as_str(),
            Content::System(sc) => match &sc.model_identity {
                Some(s) => s.as_str(),
                None => {
                    proof {
                        reveal_strlit("");
                        assert(""@ =~= Seq::<char>::empty());
                    }
                    ""
                },
            },
        }
    }
}

/// The views of a sequence of messages.
pub open spec fn msgs_view(ms: Seq<Message>) -> Seq<SpecMessage> {
    ms.map_values(|m: Message| m@)
}

/// An ordered sequence of role-tagged messages, assembled per call and never
/// persisted past it.
pub struct Conversation {
    pub messages: Vec<Message>,
}

impl View for Conversation {
    type V = Seq<SpecMessage>;

    open spec fn view(&self) -> Seq<SpecMessage> {
        msgs_view(self.messages@)
    }
}

impl Conversation {
    /// A conversation holding exactly the given messages, in order.
    pub fn from_messages(messages: Vec<Message>) -> (c: Conversation)
        ensures
            c@ == msgs_view(messages@),
    {
        Conversation { messages }
    }
}

} // verus!
