use vstd::prelude::*;
use crate::digest::{digest_of, lemma_digest_injective};
use crate::records::{DraftView, RecordId};
use crate::store::{
    StoreView, lemma_conv_index_unique, lemma_user_index_unique, lemma_with_appended_wf,
    lemma_with_user_wf, lemma_without_conversation_wf, stamped_messages,
};

verus! {

/// For every valid signup — a fresh, non-empty username — a later login
/// with the same username and password succeeds and returns the public
/// projection of the record the signup stored. A login with any other
/// password fails, and it fails exactly as a login for a username that was
/// never created does: both produce the empty result that the boundary
/// reports as `InvalidCredentials`, so the two cases are indistinguishable.
pub proof fn lemma_signup_then_login(
    s: StoreView,
    first_name: Seq<char>,
    last_name: Seq<char>,
    username: Seq<char>,
    email: Seq<char>,
    password: Seq<char>,
)
    requires
        s.wf(),
        !s.username_taken(username),
        username.len() > 0,
        s.next_key < u64::MAX,
        s.clock < u64::MAX,
    ensures
        ({
            let post = s.with_user(first_name, last_name, username, email, password);
            let rec = s.new_user_record(first_name, last_name, username, email, password);
            &&& post.login_spec(username, password) == Some(rec.project())
            &&& forall|wrong: Seq<char>|
                wrong != password ==> #[trigger] post.login_spec(username, wrong) is None
            &&& forall|other: Seq<char>|
                !post.username_taken(other) ==> #[trigger] post.login_spec(other, password) is None
        }),
{
    let post = s.with_user(first_name, last_name, username, email, password);
    let rec = s.new_user_record(first_name, last_name, username, email, password);
    lemma_with_user_wf(s, first_name, last_name, username, email, password);
    let i = s.users.len() as int;
    assert(post.users[i] == rec);
    lemma_user_index_unique(post, username, i);
    assert(post.login_spec(username, password) == Some(rec.project()));
    assert forall|wrong: Seq<char>| wrong != password implies #[trigger] post.login_spec(
        username,
        wrong,
    ) is None by {
        if digest_of(wrong) == digest_of(password) {
            lemma_digest_injective(wrong, password);
        }
        assert(post.users[post.user_index(username)].pass_digest == digest_of(password));
    }
}

/// Creating two users with the same username: after the first signup the
/// username is taken, so by `create_user`'s contract the second call fails
/// with `DuplicateUsername` and leaves the store exactly as it was — in
/// particular the first record still sits at its index with all its fields.
pub proof fn lemma_duplicate_username_refused(
    s: StoreView,
    first_name: Seq<char>,
    last_name: Seq<char>,
    username: Seq<char>,
    email: Seq<char>,
    password: Seq<char>,
)
    requires
        s.wf(),
        !s.username_taken(username),
        username.len() > 0,
        s.next_key < u64::MAX,
        s.clock < u64::MAX,
    ensures
        ({
            let post = s.with_user(first_name, last_name, username, email, password);
            &&& post.wf()
            &&& post.username_taken(username)
            &&& post.users[s.users.len() as int] == s.new_user_record(
                first_name,
                last_name,
                username,
                email,
                password,
            )
        }),
{
    let post = s.with_user(first_name, last_name, username, email, password);
    lemma_with_user_wf(s, first_name, last_name, username, email, password);
    let i = s.users.len() as int;
    assert(post.users[i].username == username);
    assert(post.username_taken(username));
}

/// Deleting a conversation is terminal: the record and its inline messages
/// are gone, the identifier no longer resolves — so reading its messages
/// afterwards fails with `ConversationNotFound` and a second delete fails
/// with `NotFound`, by the contracts of those operations — and the key
/// allocator, which never moves backwards, never hands the identifier out
/// again.
pub proof fn lemma_delete_terminal(s: StoreView, id: RecordId)
    requires
        s.wf(),
        s.has_conversation(id),
    ensures
        ({
            let post = s.without_conversation(id);
            &&& post.wf()
            &&& !post.has_conversation(id)
            &&& post.next_key == s.next_key
            &&& id.key < post.next_key
        }),
{
    let post = s.without_conversation(id);
    let k = s.conv_index(id);
    assert(0 <= k < s.conversations.len() && s.conversations[k].id == id);
    lemma_without_conversation_wf(s, id);
    assert(s.conv_ok(k));
    assert forall|i: int| 0 <= i < post.conversations.len() implies (
    #[trigger] post.conversations[i]).id != id by {
        let orig = if i < k {
            i
        } else {
            i + 1
        };
        assert(post.conversations[i] == s.conversations[orig]);
        assert(s.conversations[orig].id != s.conversations[k].id);
    }
}

/// Two appends to the same conversation, serialized by the connection lock,
/// both land: the second still finds the conversation, and afterwards the
/// stored messages are exactly the ones present at the start followed by
/// the first batch and then the second — no lost update.
pub proof fn lemma_appends_preserved(
    s: StoreView,
    id: RecordId,
    d1: Seq<DraftView>,
    d2: Seq<DraftView>,
)
    requires
        s.wf(),
        s.has_conversation(id),
        s.clock + d1.len() + d2.len() + 2 <= u64::MAX,
    ensures
        ({
            let s1 = s.with_appended(id, d1);
            let s2 = s1.with_appended(id, d2);
            &&& s1.wf()
            &&& s1.has_conversation(id)
            &&& s2.wf()
            &&& s2.conversation_at(id).messages == s.conversation_at(id).messages
                + stamped_messages(d1, s.clock) + stamped_messages(d2, s1.clock)
        }),
{
    let k = s.conv_index(id);
    assert(0 <= k < s.conversations.len() && s.conversations[k].id == id);
    let s1 = s.with_appended(id, d1);
    lemma_with_appended_wf(s, id, d1);
    assert(s1.conversations[k].id == id);
    lemma_conv_index_unique(s1, id, k);
    let s2 = s1.with_appended(id, d2);
    lemma_with_appended_wf(s1, id, d2);
    assert(s2.conversations[k].id == id);
    lemma_conv_index_unique(s2, id, k);
    assert(s1.conversation_at(id).messages =~= s.conversation_at(id).messages
        + stamped_messages(d1, s.clock));
    assert(s2.conversation_at(id).messages =~= s.conversation_at(id).messages + stamped_messages(
        d1,
        s.clock,
    ) + stamped_messages(d2, s1.clock));
}

} // verus!
