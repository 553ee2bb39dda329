use vstd::prelude::*;
use crate::content::{ChatRole, ContentView, EncodedContent, MessageBody, BodyView, copy_strings};

verus! {

/// The tables of the persistence namespace.
#[derive(Clone, Copy, Debug, PartialEq, Eq, Structural)]
pub enum Table {
    User,
    Conversation,
    Message,
}

/// Stable handle to a stored record: a table name plus a key. A key is
/// allocated from a monotonic counter and is never reused after deletion.
#[derive(Clone, Copy, Debug, PartialEq, Eq, Structural)]
pub struct RecordId {
    pub table: Table,
    pub key: u64,
}

/// What a delete returns: the identifier of the removed record.
#[derive(Clone, Copy, Debug, PartialEq, Eq, Structural)]
pub struct Record {
    pub id: RecordId,
}

/// Public projection of a stored user, as returned to callers after a
/// successful login or lookup. It never carries the credential digest.
#[derive(Clone, Debug, PartialEq, Eq)]
pub struct User {
    pub first_name: String,
    pub last_name: String,
    pub username: String,
    pub email: String,
    pub created_at: u64,
    pub updated_at: u64,
}

/// Mathematical model of `User`.
pub struct UserView {
    pub first_name: Seq<char>,
    pub last_name: Seq<char>,
    pub username: Seq<char>,
    pub email: Seq<char>,
    pub created_at: u64,
    pub updated_at: u64,
}

impl View for User {
    type V = UserView;

    open spec fn view(&self) -> UserView {
        UserView {
            first_name: self.first_name@,
            last_name: self.last_name@,
            username: self.username@,
            email: self.email@,
            created_at: self.created_at,
            updated_at: self.updated_at,
        }
    }
}

/// A stored user row: the public attributes plus the credential digest.
#[derive(Clone, Debug, PartialEq, Eq)]
pub struct UserRecord {
    pub id: RecordId,
    pub first_name: String,
    pub last_name: String,
    pub username: String,
    pub email: String,
    pub pass_digest: Vec<u32>,
    pub created_at: u64,
    pub updated_at: u64,
}

/// Mathematical model of `UserRecord`.
pub struct UserRecordView {
    pub id: RecordId,
    pub first_name: Seq<char>,
    pub last_name: Seq<char>,
    pub username: Seq<char>,
    pub email: Seq<char>,
    pub pass_digest: Seq<u32>,
    pub created_at: u64,
    pub updated_at: u64,
}

impl View for UserRecord {
    type V = UserRecordView;

    open spec fn view(&self) -> UserRecordView {
        UserRecordView {
            id: self.id,
            first_name: self.first_name@,
            last_name: self.last_name@,
            username: self.username@,
            email: self.email@,
            pass_digest: self.pass_digest@,
            created_at: self.created_at,
            updated_at: self.updated_at,
        }
    }
}

impl UserRecordView {
    /// The public projection of a stored user: everything but the digest.
    pub open spec fn project(self) -> UserView {
        UserView {
            first_name: self.first_name,
            last_name: self.last_name,
            username: self.username,
            email: self.email,
            created_at: self.created_at,
            updated_at: self.updated_at,
        }
    }
}

/// A stored message: immutable once appended to a conversation.
#[derive(Clone, Debug, PartialEq, Eq)]
pub struct Message {
    pub message_id: String,
    pub role: ChatRole,
    pub content: EncodedContent,
    pub timestamp: u64,
}

/// Mathematical model of `Message`.
pub struct MessageView {
    pub message_id: Seq<char>,
    pub role: ChatRole,
    pub content: ContentView,
    pub timestamp: u64,
}

impl View for Message {
    type V = MessageView;

    open spec fn view(&self) -> MessageView {
        MessageView {
            message_id: self.message_id@,
            role: self.role,
            content: self.content@,
            timestamp: self.timestamp,
        }
    }
}

/// A message handed to `add_message_to_coversation`: the store assigns the
/// timestamp and encodes the body on insertion.
#[derive(Clone, Debug, PartialEq, Eq)]
pub struct MessageDraft {
    pub message_id: String,
    pub role: ChatRole,
    pub body: MessageBody,
}

/// Mathematical model of `MessageDraft`.
pub struct DraftView {
    pub message_id: Seq<char>,
    pub role: ChatRole,
    pub body: BodyView,
}

impl View for MessageDraft {
    type V = DraftView;

    open spec fn view(&self) -> DraftView {
        DraftView { message_id: self.message_id@, role: self.role, body: self.body@ }
    }
}

/// A stored message decoded back into its polymorphic shape, as returned by
/// `get_conversation_messages`.
#[derive(Clone, Debug, PartialEq, Eq)]
pub struct DecodedMessage {
    pub message_id: String,
    pub role: ChatRole,
    pub body: MessageBody,
    pub timestamp: u64,
}

/// Mathematical model of `DecodedMessage`.
pub struct DecodedMessageView {
    pub message_id: Seq<char>,
    pub role: ChatRole,
    pub body: BodyView,
    pub timestamp: u64,
}

impl View for DecodedMessage {
    type V = DecodedMessageView;

    open spec fn view(&self) -> DecodedMessageView {
        DecodedMessageView {
            message_id: self.message_id@,
            role: self.role,
            body: self.body@,
            timestamp: self.timestamp,
        }
    }
}

/// A stored conversation: owned by a user, carrying its messages inline.
#[derive(Clone, Debug, PartialEq, Eq)]
pub struct Conversation {
    pub id: RecordId,
    pub user_id: RecordId,
    pub title: String,
    pub messages: Vec<Message>,
    pub created_at: u64,
    pub updated_at: u64,
}

/// Mathematical model of `Conversation`.
pub struct ConversationView {
    pub id: RecordId,
    pub user_id: RecordId,
    pub title: Seq<char>,
    pub messages: Seq<MessageView>,
    pub created_at: u64,
    pub updated_at: u64,
}

impl View for Conversation {
    type V = ConversationView;

    open spec fn view(&self) -> ConversationView {
        ConversationView {
            id: self.id,
            user_id: self.user_id,
            title: self.title@,
            messages: self.messages@.map_values(|m: Message| m@),
            created_at: self.created_at,
            updated_at: self.updated_at,
        }
    }
}

/// Summary of a conversation without its messages.
#[derive(Clone, Debug, PartialEq, Eq)]
pub struct ConversationInfo {
    pub id: RecordId,
    pub user_id: RecordId,
    pub title: String,
    pub created_at: u64,
    pub updated_at: u64,
}

impl Conversation {
    /// The message-free summary of this conversation.
    pub fn info(&self) -> (r: ConversationInfo)
        ensures
            r.id == self.id,
            r.user_id == self.user_id,
            r.title@ == self.title@,
            r.created_at == self.created_at,
            r.updated_at == self.updated_at,
    {
        ConversationInfo {
            id: self.id,
            user_id: self.user_id,
            title: self.title.clone(),
            created_at: self.created_at,
            updated_at: self.updated_at,
        }
    }
}

/// Copies a stored content record without moving it out of the store.
pub fn copy_encoded(c: &EncodedContent) -> (r: EncodedContent)
    ensures
        r@ == c@,
{
    let r = EncodedContent {
        kind: c.kind.clone(),
        text: c.text.clone(),
        images: copy_strings(&c.images),
    };
    r
}

/// Copies a stored message.
pub fn copy_message(m: &Message) -> (r: Message)
    ensures
        r@ == m@,
{
    Message {
        message_id: m.message_id.clone(),
        role: m.role,
        content: copy_encoded(&m.content),
        timestamp: m.timestamp,
    }
}

/// Copies a conversation's message list.
pub fn copy_messages(v: &Vec<Message>) -> (r: Vec<Message>)
    ensures
        r@.map_values(|m: Message| m@) == v@.map_values(|m: Message| m@),
{
    let mut r: Vec<Message> = Vec::new();
    let mut i: usize = 0;
    while i < v.len()
        invariant
            i <= v@.len(),
            r@.len() == i,
            forall|j: int| 0 <= j < i ==> r@[j]@ == v@[j]@,
        decreases v@.len() - i,
    {
        r.push(copy_message(&v[i]));
        i = i + 1;
    }
    proof {
        assert(r@.map_values(|m: Message| m@) =~= v@.map_values(|m: Message| m@));
    }
    r
}

/// Copies a stored conversation record.
pub fn copy_conversation(c: &Conversation) -> (r: Conversation)
    ensures
        r@ == c@,
{
    let r = Conversation {
        id: c.id,
        user_id: c.user_id,
        title: c.title.clone(),
        messages: copy_messages(&c.messages),
        created_at: c.created_at,
        updated_at: c.updated_at,
    };
    r
}

/// Builds the public projection of a stored user.
pub fn project_user(u: &UserRecord) -> (r: User)
    ensures
        r@ == u@.project(),
{
    User {
        first_name: u.first_name.clone(),
        last_name: u.last_name.clone(),
        username: u.username.clone(),
        email: u.email.clone(),
        created_at: u.created_at,
        updated_at: u.updated_at,
    }
}

} // verus!
