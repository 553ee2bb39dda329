use vstd::prelude::*;
use crate::content::{decode_spec, encode_body};
use crate::db::Database;
use crate::errors::StoreError;
use crate::records::{
    Conversation, ConversationView, DecodedMessage, Message, MessageDraft, Record, RecordId, Table,
    copy_conversation,
};
use crate::schema::{conversation_plan, conversation_schema_plan};
use crate::store::{
    all_decodable, appended_conversation, decoded_message, decoded_messages,
    lemma_with_appended_wf, lemma_with_conversation_wf, lemma_without_conversation_wf,
    normalized_title, stamped_messages,
};

verus! {

/// Repository for the `conversation` table and its inline messages.
pub struct ConversationDatabase;

impl ConversationDatabase {
    /// Guarantees the connection is open and the `conversation` schema step
    /// has run; idempotent, and never alters stored data.
    pub fn initialize(db: &mut Database, db_path: &str) -> (r: Result<(), StoreError>)
        ensures
            r is Ok,
            final(db)@.opened,
            final(db)@.conversation_schema,
            final(db)@.store == old(db)@.store,
            final(db)@.user_schema == old(db)@.user_schema,
            old(db)@.opened && old(db)@.conversation_schema ==> final(db)@ == old(db)@,
            !old(db)@.conversation_schema ==> final(db)@.schema_log == old(db)@.schema_log
                + conversation_plan(),
            old(db)@.conversation_schema ==> final(db)@.schema_log == old(db)@.schema_log,
            !old(db)@.opened ==> final(db)@.path == db_path@ && final(db)@.namespace == "novaflow"@
                && final(db)@.database == "conversations"@,
    {
        db.initialize(db_path, "novaflow", "conversations")?;
        if !db.conversation_schema {
            let mut plan = conversation_schema_plan();
            db.schema_log.append(&mut plan);
            db.conversation_schema = true;
        }
        Ok(())
    }

    /// Creates a conversation owned by `user_id`: fails with `UserNotFound`
    /// exactly when the owner does not resolve, in which case nothing
    /// changes. An empty title is normalized to the default title rather
    /// than rejected; two conversations may share a title. Returns the
    /// fully populated record, fresh identifier and timestamps included.
    pub fn create_conversation(db: &mut Database, user_id: &RecordId, title: &str) -> (r: Result<
        Conversation,
        StoreError,
    >)
        requires
            old(db)@.store.wf(),
            old(db)@.conversations_ready(),
            old(db)@.store.next_key < u64::MAX,
            old(db)@.store.clock < u64::MAX,
        ensures
            final(db)@.store.wf(),
            final(db)@.same_except_store(old(db)@),
            r is Ok <==> old(db)@.store.user_exists(*user_id),
            r matches Ok(c) ==> c@ == old(db)@.store.new_conversation_record(
                *user_id,
                normalized_title(title@),
            ) && final(db)@.store == old(db)@.store.with_conversation(
                *user_id,
                normalized_title(title@),
            ),
            r is Err ==> final(db)@ == old(db)@ && r == Err::<Conversation, StoreError>(
                StoreError::UserNotFound,
            ),
    {
        match db.store.find_user_by_id(user_id) {
            None => Err(StoreError::UserNotFound),
            Some(_) => {
                let stored_title = if title.unicode_len() == 0 {
                    String::from_str("Untitled")
                } else {
                    String::from_str(title)
                };
                proof {
                    reveal_strlit("Untitled");
                    assert(stored_title@ == normalized_title(title@));
                    assert(stored_title@.len() > 0);
                }
                let clock = db.store.clock;
                let conv = Conversation {
                    id: RecordId { table: Table::Conversation, key: db.store.next_key },
                    user_id: *user_id,
                    title: stored_title,
                    messages: Vec::new(),
                    created_at: clock,
                    updated_at: clock,
                };
                proof {
                    assert(conv@.messages =~= Seq::empty());
                    assert(conv@ == old(db)@.store.new_conversation_record(
                        *user_id,
                        normalized_title(title@),
                    ));
                    lemma_with_conversation_wf(old(db)@.store, *user_id, normalized_title(title@));
                }
                let result = copy_conversation(&conv);
                db.store.conversations.push(conv);
                db.store.next_key = db.store.next_key + 1;
                db.store.clock = db.store.clock + 1;
                proof {
                    let post = old(db)@.store.with_conversation(*user_id, normalized_title(title@));
                    assert(db@.store.conversations =~= post.conversations);
                    assert(db@.store.users =~= post.users);
                    assert(db@.store == post);
                }
                Ok(result)
            },
        }
    }

    /// Appends messages to an existing conversation as one read-modify-write
    /// under the connection lock: the new messages are encoded, stamped with
    /// consecutive clock ticks, and merged after the ones already stored, and
    /// the row's update time is bumped. No message present before the call is
    /// lost, so two appends serialized by the lock both land. Fails with
    /// `ConversationNotFound` exactly when the conversation does not exist,
    /// in which case nothing is written at all. Returns the conversation's
    /// title.
    pub fn add_message_to_coversation(
        db: &mut Database,
        conversation_id: &RecordId,
        messages: &Vec<MessageDraft>,
    ) -> (r: Result<String, StoreError>)
        requires
            old(db)@.store.wf(),
            old(db)@.conversations_ready(),
            old(db)@.store.clock + messages@.len() + 1 <= u64::MAX,
        ensures
            final(db)@.store.wf(),
            final(db)@.same_except_store(old(db)@),
            r is Ok <==> old(db)@.store.has_conversation(*conversation_id),
            r matches Ok(title) ==> title@ == old(db)@.store.conversation_at(
                *conversation_id,
            ).title && final(db)@.store == old(db)@.store.with_appended(
                *conversation_id,
                messages@.map_values(|m: MessageDraft| m@),
            ),
            r is Err ==> final(db)@ == old(db)@ && r == Err::<String, StoreError>(
                StoreError::ConversationNotFound,
            ),
    {
        let ghost ds = messages@.map_values(|m: MessageDraft| m@);
        let ghost pre = old(db)@.store;
        match db.store.find_conversation(conversation_id) {
            None => Err(StoreError::ConversationNotFound),
            Some(k) => {
                let t0 = db.store.clock;
                let n = messages.len();
                let mut conv = db.store.conversations.remove(k);
                let ghost base = conv@;
                let title = conv.title.clone();
                let mut j: usize = 0;
                while j < n
                    invariant
                        j <= n,
                        n == messages@.len(),
                        ds == messages@.map_values(|m: MessageDraft| m@),
                        ds.len() == n,
                        t0 + n + 1 <= u64::MAX,
                        conv.id == base.id,
                        conv.user_id == base.user_id,
                        conv.title@ == base.title,
                        conv.created_at == base.created_at,
                        conv.updated_at == base.updated_at,
                        conv.messages@.len() == base.messages.len() + j,
                        forall|i: int|
                            0 <= i < base.messages.len() ==> (#[trigger] conv.messages@[i])@
                                == base.messages[i],
                        forall|i: int|
                            0 <= i < j ==> (#[trigger] conv.messages@[base.messages.len() + i])@
                                == stamped_messages(ds, t0)[i],
                    decreases n - j,
                {
                    let d = &messages[j];
                    let m = Message {
                        message_id: d.message_id.clone(),
                        role: d.role,
                        content: encode_body(&d.body),
                        timestamp: t0 + (j as u64),
                    };
                    proof {
                        assert(ds[j as int] == messages@[j as int]@);
                        assert(m@ == stamped_messages(ds, t0)[j as int]);
                    }
                    conv.messages.push(m);
                    j = j + 1;
                }
                conv.updated_at = t0 + (n as u64);
                proof {
                    let target = base.messages + stamped_messages(ds, t0);
                    assert forall|e: int| 0 <= e < conv.messages@.len() implies (
                    #[trigger] conv.messages@[e])@ == target[e] by {
                        if e < base.messages.len() {
                        } else {
                            let i = e - base.messages.len();
                            assert(conv.messages@[base.messages.len() + i]@ == stamped_messages(
                                ds,
                                t0,
                            )[i]);
                        }
                    }
                    assert(conv@.messages =~= base.messages + stamped_messages(ds, t0));
                    assert(base == pre.conversations[k as int]);
                    assert(conv@ == appended_conversation(pre.conversations[k as int], ds, t0));
                    lemma_with_appended_wf(pre, *conversation_id, ds);
                }
                db.store.conversations.insert(k, conv);
                db.store.clock = t0 + (n as u64) + 1;
                proof {
                    let post = pre.with_appended(*conversation_id, ds);
                    assert forall|i: int|
                        0 <= i < db@.store.conversations.len() implies db@.store.conversations[i]
                        == post.conversations[i] by {
                        if i < k as int {
                        } else if i == k as int {
                        } else {
                        }
                    }
                    assert(db@.store.conversations =~= post.conversations);
                    assert(db@.store == post);
                    assert(title@ == pre.conversation_at(*conversation_id).title);
                }
                Ok(title)
            },
        }
    }

    /// The messages of a conversation in stored (ascending timestamp)
    /// order, each decoded into its polymorphic shape. Fails with
    /// `ConversationNotFound` when the conversation does not exist — also
    /// after it was deleted, deliberately: a deleted identifier stays
    /// unresolvable forever — and with `MalformedContent` when a stored
    /// record fits no known shape.
    pub fn get_conversation_messages(db: &Database, conversation_id: &RecordId) -> (r: Result<
        Vec<DecodedMessage>,
        StoreError,
    >)
        requires
            db@.store.wf(),
            db@.conversations_ready(),
        ensures
            r is Ok <==> db@.store.has_conversation(*conversation_id) && all_decodable(
                db@.store.conversation_at(*conversation_id),
            ),
            !db@.store.has_conversation(*conversation_id) ==> r == Err::<
                Vec<DecodedMessage>,
                StoreError,
            >(StoreError::ConversationNotFound),
            db@.store.has_conversation(*conversation_id) && !all_decodable(
                db@.store.conversation_at(*conversation_id),
            ) ==> r == Err::<Vec<DecodedMessage>, StoreError>(StoreError::MalformedContent),
            r matches Ok(v) ==> v@.map_values(|m: DecodedMessage| m@) == decoded_messages(
                db@.store.conversation_at(*conversation_id),
            ),
            r matches Ok(v) ==> forall|a: int, b: int|
                0 <= a < b < v@.len() ==> (#[trigger] v@[a])@.timestamp < (#[trigger] v@[b])@.timestamp,
    {
        let ghost c = db@.store.conversation_at(*conversation_id);
        match db.store.find_conversation(conversation_id) {
            None => Err(StoreError::ConversationNotFound),
            Some(k) => {
                let msgs = &db.store.conversations[k].messages;
                proof {
                    assert(db@.store.conv_index(*conversation_id) == k as int);
                    assert(c == db@.store.conversations[k as int]);
                    assert(c.messages == msgs@.map_values(|m: Message| m@));
                }
                let mut result: Vec<DecodedMessage> = Vec::new();
                let mut j: usize = 0;
                while j < msgs.len()
                    invariant
                        j <= msgs@.len(),
                        db@.store.has_conversation(*conversation_id),
                        c == db@.store.conversation_at(*conversation_id),
                        msgs@.map_values(|m: Message| m@) == c.messages,
                        result@.len() == j,
                        forall|i: int|
                            0 <= i < j ==> decode_spec((#[trigger] c.messages[i]).content) is Some,
                        forall|i: int|
                            0 <= i < j ==> (#[trigger] result@[i])@ == decoded_message(
                                c.messages[i],
                            ),
                    decreases msgs@.len() - j,
                {
                    let m = &msgs[j];
                    proof {
                        assert(m@ == c.messages[j as int]);
                    }
                    match crate::content::decode_content(&m.content) {
                        Err(_) => {
                            proof {
                                assert(decode_spec(c.messages[j as int].content) is None);
                                assert(!all_decodable(c));
                            }
                            return Err(StoreError::MalformedContent);
                        },
                        Ok(body) => {
                            result.push(DecodedMessage {
                                message_id: m.message_id.clone(),
                                role: m.role,
                                body,
                                timestamp: m.timestamp,
                            });
                        },
                    }
                    j = j + 1;
                }
                proof {
                    assert(all_decodable(c));
                    assert(result@.map_values(|m: DecodedMessage| m@) =~= decoded_messages(c));
                    let ki = db@.store.conv_index(*conversation_id);
                    assert(db@.store.conv_ok(ki));
                    assert forall|a: int, b: int|
                        0 <= a < b < result@.len() implies (#[trigger] result@[a])@.timestamp < (
                    #[trigger] result@[b])@.timestamp by {
                        assert(c.messages[a].timestamp < c.messages[b].timestamp);
                    }
                }
                Ok(result)
            },
        }
    }

    /// The conversations owned by `user_id`, in ascending creation-time
    /// order, each with a valid owner reference; an empty sequence — not an
    /// error — when none exist (or the user does not).
    pub fn get_user_conversations(db: &Database, user_id: &RecordId) -> (r: Result<
        Vec<Conversation>,
        StoreError,
    >)
        requires
            db@.store.wf(),
            db@.conversations_ready(),
        ensures
            r matches Ok(v) && v@.map_values(|c: Conversation| c@) == db@.store.conversations_of(
                *user_id,
            ),
            r matches Ok(v) ==> forall|a: int, b: int|
                0 <= a < b < v@.len() ==> (#[trigger] v@[a])@.created_at < (
                #[trigger] v@[b])@.created_at,
            r matches Ok(v) ==> forall|a: int|
                0 <= a < v@.len() ==> (#[trigger] v@[a])@.user_id == *user_id
                    && db@.store.user_exists(v@[a]@.user_id),
    {
        let ghost pred = |c: ConversationView| c.user_id == *user_id;
        let mut result: Vec<Conversation> = Vec::new();
        let mut i: usize = 0;
        while i < db.store.conversations.len()
            invariant
                db@.store.wf(),
                db@.conversations_ready(),
                i <= db@.store.conversations.len(),
                pred == (|c: ConversationView| c.user_id == *user_id),
                result@.map_values(|c: Conversation| c@) == db@.store.conversations.subrange(
                    0,
                    i as int,
                ).filter(pred),
                forall|a: int, b: int|
                    0 <= a < b < result@.len() ==> (#[trigger] result@[a])@.created_at < (
                    #[trigger] result@[b])@.created_at,
                forall|a: int|
                    0 <= a < result@.len() && i < db@.store.conversations.len() ==> (
                    #[trigger] result@[a])@.created_at < db@.store.conversations[i as int].created_at,
                forall|a: int|
                    0 <= a < result@.len() ==> (#[trigger] result@[a])@.user_id == *user_id
                        && db@.store.user_exists(result@[a]@.user_id),
            decreases db@.store.conversations.len() - i,
        {
            let ghost svc = db@.store.conversations;
            let ghost res0 = result@.map_values(|c: Conversation| c@);
            let c = &db.store.conversations[i];
            proof {
                assert(c@ == svc[i as int]);
                assert(db@.store.conv_ok(i as int));
            }
            if c.user_id == *user_id {
                let copy = copy_conversation(c);
                result.push(copy);
            }
            proof {
                let sub0 = svc.subrange(0, i as int);
                let sub1 = svc.subrange(0, i + 1 as int);
                assert(sub1 =~= sub0.push(svc[i as int]));
                Seq::lemma_filter_push(sub0, svc[i as int], pred);
                if pred(svc[i as int]) {
                    assert(result@.map_values(|c: Conversation| c@) =~= res0.push(svc[i as int]));
                    assert(sub1.filter(pred) == sub0.filter(pred).push(svc[i as int]));
                } else {
                    assert(sub1.filter(pred) == sub0.filter(pred));
                }
                assert(result@.map_values(|c: Conversation| c@) == sub1.filter(pred));
                if i + 1 < svc.len() {
                    assert forall|a: int|
                        0 <= a < result@.len() implies (#[trigger] result@[a])@.created_at < svc[i
                        + 1].created_at by {
                        assert(svc[i as int].created_at < svc[i + 1].created_at);
                    }
                }
            }
            i = i + 1;
        }
        proof {
            assert(db@.store.conversations.subrange(0, db@.store.conversations.len() as int)
                =~= db@.store.conversations);
        }
        Ok(result)
    }

    /// Deletes a conversation and, with it, all its messages — the cascade
    /// is one step here because messages live inline on their row. Fails
    /// with `NotFound` exactly when the conversation does not exist, so a
    /// second delete of the same identifier fails: deletion is terminal,
    /// and the key allocator never hands the identifier out again. Returns
    /// the identifier of the removed record.
    pub fn delete_conversation(db: &mut Database, conversation_id: &RecordId) -> (r: Result<
        Record,
        StoreError,
    >)
        requires
            old(db)@.store.wf(),
            old(db)@.conversations_ready(),
        ensures
            final(db)@.store.wf(),
            final(db)@.same_except_store(old(db)@),
            r is Ok <==> old(db)@.store.has_conversation(*conversation_id),
            r matches Ok(rec) ==> rec.id == *conversation_id && final(db)@.store == old(
                db,
            )@.store.without_conversation(*conversation_id),
            r is Err ==> final(db)@ == old(db)@ && r == Err::<Record, StoreError>(
                StoreError::NotFound,
            ),
    {
        let ghost pre = old(db)@.store;
        match db.store.find_conversation(conversation_id) {
            None => Err(StoreError::NotFound),
            Some(k) => {
                proof {
                    lemma_without_conversation_wf(pre, *conversation_id);
                }
                let _removed = db.store.conversations.remove(k);
                proof {
                    let post = pre.without_conversation(*conversation_id);
                    assert(db@.store.conversations =~= post.conversations);
                    assert(db@.store == post);
                }
                Ok(Record { id: *conversation_id })
            },
        }
    }
}

} // verus!
