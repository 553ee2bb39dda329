use novaflow::content::{ChatRole, EncodedContent, MessageBody};
use novaflow::conversations::ConversationDatabase;
use novaflow::db::Database;
use novaflow::errors::StoreError;
use novaflow::records::{Message, MessageDraft, RecordId, Table};
use novaflow::service;
use novaflow::users::UserDatabase;

fn ready_db() -> Database {
    let mut db = Database::new();
    UserDatabase::initialize(&mut db, "~/novaflow/db/test").unwrap();
    ConversationDatabase::initialize(&mut db, "~/novaflow/db/test").unwrap();
    db
}

fn ann(db: &mut Database) -> RecordId {
    service::signup(
        db,
        "Ann".to_string(),
        "Lee".to_string(),
        "ann".to_string(),
        "pw123".to_string(),
        "a@x.com".to_string(),
    )
    .unwrap();
    UserDatabase::get_user_id(db, "ann").unwrap()
}

fn draft(id: &str, role: ChatRole, body: MessageBody) -> MessageDraft {
    MessageDraft { message_id: id.to_string(), role, body }
}

fn text_body(t: &str) -> MessageBody {
    MessageBody::Text { text: t.to_string() }
}

#[test]
fn signup_then_login_scenario() {
    let mut db = ready_db();
    ann(&mut db);
    let user = service::login(&db, "ann", "pw123").unwrap();
    assert_eq!(user.username, "ann");
    assert_eq!(user.first_name, "Ann");
    assert_eq!(user.last_name, "Lee");
    assert_eq!(user.email, "a@x.com");
    assert_eq!(service::login(&db, "ann", "wrong"), Err(StoreError::InvalidCredentials));
}

#[test]
fn login_failures_are_indistinguishable() {
    let mut db = ready_db();
    ann(&mut db);
    let wrong_password = service::login(&db, "ann", "pw124");
    let unknown_user = service::login(&db, "bob", "pw123");
    assert_eq!(wrong_password, unknown_user);
    assert_eq!(wrong_password, Err(StoreError::InvalidCredentials));
}

#[test]
fn duplicate_username_rejected_and_first_record_kept() {
    let mut db = ready_db();
    ann(&mut db);
    let second = service::signup(
        &mut db,
        "Other".to_string(),
        "Person".to_string(),
        "ann".to_string(),
        "zzz".to_string(),
        "o@x.com".to_string(),
    );
    assert_eq!(second, Err(StoreError::DuplicateUsername));
    let kept = UserDatabase::get_user_by_username(&db, "ann").unwrap().unwrap();
    assert_eq!(kept.first_name, "Ann");
    assert_eq!(kept.email, "a@x.com");
    let again = service::login(&db, "ann", "pw123").unwrap();
    assert_eq!(again.username, "ann");
}

#[test]
fn lookup_missing_user_is_none() {
    let db = ready_db();
    assert_eq!(UserDatabase::get_user_by_username(&db, "ghost").unwrap(), None);
}

#[test]
fn conversation_info_summary() {
    let mut db = ready_db();
    let uid = ann(&mut db);
    let conv = service::create_conversation(&mut db, &uid, "summary me").unwrap();
    let info = conv.info();
    assert_eq!(info.id, conv.id);
    assert_eq!(info.user_id, uid);
    assert_eq!(info.title, "summary me");
    assert_eq!(info.created_at, conv.created_at);
    assert_eq!(info.updated_at, conv.updated_at);
}

#[test]
fn get_user_id_missing_user() {
    let db = ready_db();
    assert_eq!(UserDatabase::get_user_id(&db, "nobody"), Err(StoreError::NotFound));
}

#[test]
fn get_user_id_table_is_user() {
    let mut db = ready_db();
    let uid = ann(&mut db);
    assert_eq!(uid.table, Table::User);
}

#[test]
fn list_conversations_sorted_and_owned() {
    let mut db = ready_db();
    let uid = ann(&mut db);
    let c1 = service::create_conversation(&mut db, &uid, "first").unwrap();
    let c2 = service::create_conversation(&mut db, &uid, "second").unwrap();
    let c3 = service::create_conversation(&mut db, &uid, "third").unwrap();
    let listed = service::list_conversations(&db, &uid);
    assert_eq!(listed.len(), 3);
    assert_eq!(listed[0].title, "first");
    assert_eq!(listed[1].title, "second");
    assert_eq!(listed[2].title, "third");
    assert!(listed[0].created_at < listed[1].created_at);
    assert!(listed[1].created_at < listed[2].created_at);
    for c in &listed {
        assert_eq!(c.user_id, uid);
    }
    assert_eq!(c1.id, listed[0].id);
    assert_eq!(c2.id, listed[1].id);
    assert_eq!(c3.id, listed[2].id);
}

#[test]
fn list_conversations_of_unknown_user_is_empty() {
    let mut db = ready_db();
    ann(&mut db);
    let ghost_user = RecordId { table: Table::User, key: 999 };
    assert_eq!(service::list_conversations(&db, &ghost_user).len(), 0);
}

#[test]
fn create_conversation_unknown_user_fails() {
    let mut db = ready_db();
    let ghost_user = RecordId { table: Table::User, key: 7 };
    let r = service::create_conversation(&mut db, &ghost_user, "title");
    assert!(matches!(r, Err(StoreError::UserNotFound)));
}

#[test]
fn empty_title_normalized_to_default() {
    let mut db = ready_db();
    let uid = ann(&mut db);
    let c = service::create_conversation(&mut db, &uid, "").unwrap();
    assert_eq!(c.title, "Untitled");
}

#[test]
fn append_to_missing_conversation_writes_nothing() {
    let mut db = ready_db();
    let uid = ann(&mut db);
    service::create_conversation(&mut db, &uid, "kept").unwrap();
    let before = service::list_conversations(&db, &uid);
    let ghost_conv = RecordId { table: Table::Conversation, key: 424242 };
    let drafts = vec![draft("m1", ChatRole::User, text_body("hi"))];
    let r = service::append_messages(&mut db, &ghost_conv, &drafts);
    assert_eq!(r, Err(StoreError::ConversationNotFound));
    let after = service::list_conversations(&db, &uid);
    assert_eq!(before.len(), after.len());
    assert_eq!(before[0].messages.len(), after[0].messages.len());
    assert_eq!(before[0].updated_at, after[0].updated_at);
}

#[test]
fn append_and_read_back_in_order() {
    let mut db = ready_db();
    let uid = ann(&mut db);
    let conv = service::create_conversation(&mut db, &uid, "chat").unwrap();
    let drafts = vec![
        draft("m1", ChatRole::User, text_body("hello")),
        draft(
            "m2",
            ChatRole::Assistant,
            MessageBody::Mixed {
                text: "hello".to_string(),
                images: vec!["img-a".to_string(), "img-b".to_string()],
            },
        ),
    ];
    let title = service::append_messages(&mut db, &conv.id, &drafts).unwrap();
    assert_eq!(title, "chat");
    let msgs = service::list_messages(&db, &conv.id).unwrap();
    assert_eq!(msgs.len(), 2);
    assert_eq!(msgs[0].message_id, "m1");
    assert_eq!(msgs[0].role, ChatRole::User);
    assert_eq!(msgs[0].body, text_body("hello"));
    assert_eq!(msgs[1].message_id, "m2");
    assert_eq!(msgs[1].role, ChatRole::Assistant);
    match &msgs[1].body {
        MessageBody::Mixed { text, images } => {
            assert_eq!(text, "hello");
            assert_eq!(images, &vec!["img-a".to_string(), "img-b".to_string()]);
        }
        other => panic!("expected a mixed body, got {:?}", other),
    }
    assert!(msgs[0].timestamp < msgs[1].timestamp);
}

#[test]
fn two_appends_keep_both_batches() {
    let mut db = ready_db();
    let uid = ann(&mut db);
    let conv = service::create_conversation(&mut db, &uid, "busy").unwrap();
    let first = vec![
        draft("a1", ChatRole::User, text_body("first-1")),
        draft("a2", ChatRole::Assistant, text_body("first-2")),
    ];
    let second = vec![
        draft("b1", ChatRole::User, text_body("second-1")),
        draft("b2", ChatRole::Assistant, text_body("second-2")),
    ];
    service::append_messages(&mut db, &conv.id, &first).unwrap();
    service::append_messages(&mut db, &conv.id, &second).unwrap();
    let msgs = service::list_messages(&db, &conv.id).unwrap();
    let ids: Vec<&str> = msgs.iter().map(|m| m.message_id.as_str()).collect();
    assert_eq!(ids, vec!["a1", "a2", "b1", "b2"]);
    for w in msgs.windows(2) {
        assert!(w[0].timestamp < w[1].timestamp);
    }
}

#[test]
fn append_bumps_updated_at() {
    let mut db = ready_db();
    let uid = ann(&mut db);
    let conv = service::create_conversation(&mut db, &uid, "times").unwrap();
    let drafts = vec![draft("m", ChatRole::User, text_body("x"))];
    service::append_messages(&mut db, &conv.id, &drafts).unwrap();
    let listed = service::list_conversations(&db, &uid);
    assert!(listed[0].updated_at > conv.updated_at);
    assert_eq!(listed[0].created_at, conv.created_at);
}

#[test]
fn delete_cascades_and_is_terminal() {
    let mut db = ready_db();
    let uid = ann(&mut db);
    let keep = service::create_conversation(&mut db, &uid, "keep").unwrap();
    let gone = service::create_conversation(&mut db, &uid, "gone").unwrap();
    let drafts = vec![draft("m", ChatRole::User, text_body("bye"))];
    service::append_messages(&mut db, &gone.id, &drafts).unwrap();
    let rec = service::delete_conversation(&mut db, &gone.id).unwrap();
    assert_eq!(rec.id, gone.id);
    assert_eq!(service::list_messages(&db, &gone.id), Err(StoreError::ConversationNotFound));
    assert_eq!(service::delete_conversation(&mut db, &gone.id), Err(StoreError::NotFound));
    let listed = service::list_conversations(&db, &uid);
    assert_eq!(listed.len(), 1);
    assert_eq!(listed[0].id, keep.id);
}

#[test]
fn deleted_identifier_is_never_reused() {
    let mut db = ready_db();
    let uid = ann(&mut db);
    let gone = service::create_conversation(&mut db, &uid, "gone").unwrap();
    service::delete_conversation(&mut db, &gone.id).unwrap();
    let fresh = service::create_conversation(&mut db, &uid, "fresh").unwrap();
    assert_ne!(fresh.id, gone.id);
}

#[test]
fn malformed_stored_content_is_reported() {
    let mut db = ready_db();
    let uid = ann(&mut db);
    let conv = service::create_conversation(&mut db, &uid, "odd").unwrap();
    db.store.conversations[0].messages.push(Message {
        message_id: "m".to_string(),
        role: ChatRole::User,
        content: EncodedContent {
            kind: "blob".to_string(),
            text: String::new(),
            images: Vec::new(),
        },
        timestamp: 0,
    });
    assert_eq!(service::list_messages(&db, &conv.id), Err(StoreError::MalformedContent));
}

#[test]
fn initialize_is_idempotent() {
    let mut db = ready_db();
    let uid = ann(&mut db);
    service::create_conversation(&mut db, &uid, "kept across re-init").unwrap();
    let log_before = db.schema_log.len();
    let users_before = db.store.users.len();
    UserDatabase::initialize(&mut db, "~/novaflow/db/test").unwrap();
    ConversationDatabase::initialize(&mut db, "~/novaflow/db/test").unwrap();
    assert_eq!(db.schema_log.len(), log_before);
    assert_eq!(db.store.users.len(), users_before);
    assert!(db.opened);
    let user = service::login(&db, "ann", "pw123").unwrap();
    assert_eq!(user.username, "ann");
    assert_eq!(service::list_conversations(&db, &uid).len(), 1);
}

#[test]
fn get_connection_requires_initialized_manager() {
    let mut db = Database::new();
    assert!(!db.opened);
    db.initialize("~/novaflow/db/x", "novaflow", "users").unwrap();
    assert!(db.opened);
    let namespace = db.namespace.clone();
    let store = db.get_connection();
    assert_eq!(store.users.len(), 0);
    assert_eq!(namespace, "novaflow");
}
