use vstd::prelude::*;
use crate::conversations::ConversationDatabase;
use crate::db::Database;
use crate::errors::StoreError;
use crate::records::{Conversation, DecodedMessage, MessageDraft, Record, RecordId, User};
use crate::store::normalized_title;
use crate::users::UserDatabase;

verus! {

/// The boundary this core exposes to the command-dispatch layer: each
/// function takes the shared connection (here, the exclusive reference the
/// lock hands out) and one request, and returns plain values.
///
/// Registers a new user; fails with `DuplicateUsername` exactly when the
/// username is already taken, changing nothing in that case.
pub fn signup(
    db: &mut Database,
    first_name: String,
    last_name: String,
    username: String,
    password: String,
    email: String,
) -> (r: Result<(), StoreError>)
    requires
        old(db)@.store.wf(),
        old(db)@.users_ready(),
        username@.len() > 0,
        old(db)@.store.next_key < u64::MAX,
        old(db)@.store.clock < u64::MAX,
    ensures
        final(db)@.store.wf(),
        final(db)@.same_except_store(old(db)@),
        r is Ok <==> !old(db)@.store.username_taken(username@),
        r is Ok ==> final(db)@.store == old(db)@.store.with_user(
            first_name@,
            last_name@,
            username@,
            email@,
            password@,
        ),
        r is Err ==> final(db)@ == old(db)@ && r == Err::<(), StoreError>(
            StoreError::DuplicateUsername,
        ),
{
    UserDatabase::create_user(db, first_name, last_name, username, password, email)
}

/// Authenticates a user: returns the public projection on a credential
/// match and `InvalidCredentials` otherwise. An unknown username and a
/// wrong password produce the same error, so the caller cannot tell which
/// check failed.
pub fn login(db: &Database, username: &str, password: &str) -> (r: Result<User, StoreError>)
    requires
        db@.store.wf(),
        db@.users_ready(),
    ensures
        r is Ok <==> db@.store.login_spec(username@, password@) is Some,
        r matches Ok(u) ==> db@.store.login_spec(username@, password@) == Some(u@),
        r matches Err(e) ==> e == StoreError::InvalidCredentials,
{
    match UserDatabase::verify_password(db, username, password) {
        Ok(Some(u)) => Ok(u),
        Ok(None) => Err(StoreError::InvalidCredentials),
        Err(_) => Err(StoreError::InvalidCredentials),
    }
}

/// Creates a conversation owned by `user_id`; see
/// `ConversationDatabase::create_conversation`.
pub fn create_conversation(db: &mut Database, user_id: &RecordId, title: &str) -> (r: Result<
    Conversation,
    StoreError,
>)
    requires
        old(db)@.store.wf(),
        old(db)@.conversations_ready(),
        old(db)@.store.next_key < u64::MAX,
        old(db)@.store.clock < u64::MAX,
    ensures
        final(db)@.store.wf(),
        final(db)@.same_except_store(old(db)@),
        r is Ok <==> old(db)@.store.user_exists(*user_id),
        r matches Ok(c) ==> c@ == old(db)@.store.new_conversation_record(
            *user_id,
            normalized_title(title@),
        ) && final(db)@.store == old(db)@.store.with_conversation(
            *user_id,
            normalized_title(title@),
        ),
        r is Err ==> final(db)@ == old(db)@ && r == Err::<Conversation, StoreError>(
            StoreError::UserNotFound,
        ),
{
    ConversationDatabase::create_conversation(db, user_id, title)
}

/// The conversations owned by `user_id`, ascending by creation time; empty
/// — not an error — when none exist.
pub fn list_conversations(db: &Database, user_id: &RecordId) -> (r: Vec<Conversation>)
    requires
        db@.store.wf(),
        db@.conversations_ready(),
    ensures
        r@.map_values(|c: Conversation| c@) == db@.store.conversations_of(*user_id),
        forall|a: int, b: int|
            0 <= a < b < r@.len() ==> (#[trigger] r@[a])@.created_at < (#[trigger] r@[b])@.created_at,
        forall|a: int|
            0 <= a < r@.len() ==> (#[trigger] r@[a])@.user_id == *user_id && db@.store.user_exists(
                r@[a]@.user_id,
            ),
{
    match ConversationDatabase::get_user_conversations(db, user_id) {
        Ok(v) => v,
        Err(_) => Vec::new(),
    }
}

/// Appends messages to a conversation and returns its title; see
/// `ConversationDatabase::add_message_to_coversation`.
pub fn append_messages(
    db: &mut Database,
    conversation_id: &RecordId,
    messages: &Vec<MessageDraft>,
) -> (r: Result<String, StoreError>)
    requires
        old(db)@.store.wf(),
        old(db)@.conversations_ready(),
        old(db)@.store.clock + messages@.len() + 1 <= u64::MAX,
    ensures
        final(db)@.store.wf(),
        final(db)@.same_except_store(old(db)@),
        r is Ok <==> old(db)@.store.has_conversation(*conversation_id),
        r matches Ok(title) ==> title@ == old(db)@.store.conversation_at(*conversation_id).title
            && final(db)@.store == old(db)@.store.with_appended(
            *conversation_id,
            messages@.map_values(|m: MessageDraft| m@),
        ),
        r is Err ==> final(db)@ == old(db)@ && r == Err::<String, StoreError>(
            StoreError::ConversationNotFound,
        ),
{
    ConversationDatabase::add_message_to_coversation(db, conversation_id, messages)
}

/// The decoded messages of a conversation in ascending timestamp order; see
/// `ConversationDatabase::get_conversation_messages`.
pub fn list_messages(db: &Database, conversation_id: &RecordId) -> (r: Result<
    Vec<DecodedMessage>,
    StoreError,
>)
    requires
        db@.store.wf(),
        db@.conversations_ready(),
    ensures
        r is Ok <==> db@.store.has_conversation(*conversation_id)
            && crate::store::all_decodable(db@.store.conversation_at(*conversation_id)),
        !db@.store.has_conversation(*conversation_id) ==> r == Err::<Vec<DecodedMessage>, StoreError>(
            StoreError::ConversationNotFound,
        ),
        r matches Ok(v) ==> v@.map_values(|m: DecodedMessage| m@) == crate::store::decoded_messages(
            db@.store.conversation_at(*conversation_id),
        ),
{
    ConversationDatabase::get_conversation_messages(db, conversation_id)
}

/// Deletes a conversation together with its messages; see
/// `ConversationDatabase::delete_conversation`.
pub fn delete_conversation(db: &mut Database, conversation_id: &RecordId) -> (r: Result<
    Record,
    StoreError,
>)
    requires
        old(db)@.store.wf(),
        old(db)@.conversations_ready(),
    ensures
        final(db)@.store.wf(),
        final(db)@.same_except_store(old(db)@),
        r is Ok <==> old(db)@.store.has_conversation(*conversation_id),
        r matches Ok(rec) ==> rec.id == *conversation_id && final(db)@.store == old(
            db,
        )@.store.without_conversation(*conversation_id),
        r is Err ==> final(db)@ == old(db)@ && r == Err::<Record, StoreError>(StoreError::NotFound),
{
    ConversationDatabase::delete_conversation(db, conversation_id)
}

} // verus!
