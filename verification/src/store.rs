use vstd::prelude::*;
use crate::content::{encode_spec, decode_spec, BodyView};
use crate::digest::digest_of;
use crate::records::{
    Table, RecordId, UserRecord, UserRecordView, UserView, Conversation, ConversationView,
    MessageView, DraftView, DecodedMessageView,
};

verus! {

/// In-memory state of the embedded store: one namespace holding the `user`
/// and `conversation` tables (messages are carried inline on their
/// conversation), plus the key allocator and the logical clock that stamps
/// every write. All repository operations go through a single exclusive
/// reference to this state, which models the shared connection lock: the
/// lock admits one query (or one read-modify-write sequence) at a time, so
/// every interleaving of concurrent callers is some sequential order of
/// these operations.
pub struct Store {
    pub users: Vec<UserRecord>,
    pub conversations: Vec<Conversation>,
    pub next_key: u64,
    pub clock: u64,
}

/// Mathematical model of `Store`.
pub struct StoreView {
    pub users: Seq<UserRecordView>,
    pub conversations: Seq<ConversationView>,
    pub next_key: u64,
    pub clock: u64,
}

impl View for Store {
    type V = StoreView;

    open spec fn view(&self) -> StoreView {
        StoreView {
            users: self.users@.map_values(|u: UserRecord| u@),
            conversations: self.conversations@.map_values(|c: Conversation| c@),
            next_key: self.next_key,
            clock: self.clock,
        }
    }
}

impl StoreView {
    /// The state of a freshly opened store.
    pub open spec fn empty() -> StoreView {
        StoreView { users: Seq::empty(), conversations: Seq::empty(), next_key: 0, clock: 0 }
    }

    /// Row invariant of the `user` table: the key is from this store's
    /// allocator, the username is non-empty, and the timestamps are in the
    /// past of the clock.
    pub open spec fn user_ok(self, i: int) -> bool {
        let u = self.users[i];
        &&& u.id.table == Table::User
        &&& u.id.key < self.next_key
        &&& u.username.len() > 0
        &&& u.created_at <= u.updated_at < self.clock
    }

    /// Row invariant of the `conversation` table: the owning user exists,
    /// the title is non-empty, and the inline messages are ordered by
    /// strictly ascending timestamp, none newer than the row itself.
    pub open spec fn conv_ok(self, i: int) -> bool {
        let c = self.conversations[i];
        &&& c.id.table == Table::Conversation
        &&& c.id.key < self.next_key
        &&& c.title.len() > 0
        &&& c.created_at <= c.updated_at < self.clock
        &&& self.user_exists(c.user_id)
        &&& forall|j1: int, j2: int|
            #![trigger c.messages[j1], c.messages[j2]]
            0 <= j1 < j2 < c.messages.len() ==> c.messages[j1].timestamp < c.messages[j2].timestamp
        &&& forall|j: int|
            0 <= j < c.messages.len() ==> (#[trigger] c.messages[j]).timestamp <= c.updated_at
    }

    /// Well-formedness of the whole store: both tables satisfy their row
    /// invariants, usernames are unique (the `user.username` index), keys
    /// are unique, and conversations sit in ascending creation-time order.
    pub open spec fn wf(self) -> bool {
        &&& forall|i: int| 0 <= i < self.users.len() ==> #[trigger] self.user_ok(i)
        &&& forall|i: int, j: int|
            #![trigger self.users[i].username, self.users[j].username]
            0 <= i < self.users.len() && 0 <= j < self.users.len() && i != j
                ==> self.users[i].username != self.users[j].username
        &&& forall|i: int, j: int|
            #![trigger self.users[i].id, self.users[j].id]
            0 <= i < self.users.len() && 0 <= j < self.users.len() && i != j
                ==> self.users[i].id != self.users[j].id
        &&& forall|i: int| 0 <= i < self.conversations.len() ==> #[trigger] self.conv_ok(i)
        &&& forall|i: int, j: int|
            #![trigger self.conversations[i].id, self.conversations[j].id]
            0 <= i < self.conversations.len() && 0 <= j < self.conversations.len() && i != j
                ==> self.conversations[i].id != self.conversations[j].id
        &&& forall|i: int, j: int|
            #![trigger self.conversations[i].created_at, self.conversations[j].created_at]
            0 <= i < j < self.conversations.len()
                ==> self.conversations[i].created_at < self.conversations[j].created_at
    }

    /// Whether some stored user has this username.
    pub open spec fn username_taken(self, name: Seq<char>) -> bool {
        exists|i: int| 0 <= i < self.users.len() && (#[trigger] self.users[i]).username == name
    }

    /// The index of the user with this username (unique when `wf` holds).
    pub open spec fn user_index(self, name: Seq<char>) -> int {
        choose|i: int| 0 <= i < self.users.len() && (#[trigger] self.users[i]).username == name
    }

    /// Whether a user with this record identifier exists.
    pub open spec fn user_exists(self, id: RecordId) -> bool {
        exists|i: int| 0 <= i < self.users.len() && (#[trigger] self.users[i]).id == id
    }

    /// The public projection of the user with this username, or `None`.
    pub open spec fn lookup_user(self, name: Seq<char>) -> Option<UserView> {
        if self.username_taken(name) {
            Some(self.users[self.user_index(name)].project())
        } else {
            None
        }
    }

    /// What a credential check returns: the public projection when the
    /// username exists and the digest of the supplied password equals the
    /// stored digest, `None` otherwise. A missing user and a wrong password
    /// are indistinguishable here by construction.
    pub open spec fn login_spec(self, name: Seq<char>, password: Seq<char>) -> Option<UserView> {
        if self.username_taken(name) && self.users[self.user_index(name)].pass_digest
            == digest_of(password) {
            Some(self.users[self.user_index(name)].project())
        } else {
            None
        }
    }

    /// Whether a conversation with this record identifier exists.
    pub open spec fn has_conversation(self, id: RecordId) -> bool {
        exists|i: int|
            0 <= i < self.conversations.len() && (#[trigger] self.conversations[i]).id == id
    }

    /// The index of the conversation with this identifier (unique when `wf`
    /// holds).
    pub open spec fn conv_index(self, id: RecordId) -> int {
        choose|i: int|
            0 <= i < self.conversations.len() && (#[trigger] self.conversations[i]).id == id
    }

    /// The conversation with this identifier.
    pub open spec fn conversation_at(self, id: RecordId) -> ConversationView {
        self.conversations[self.conv_index(id)]
    }

    /// The user row that `create_user` inserts: the given attributes, the
    /// digest of the password in place of the password, a fresh key, and
    /// both timestamps set to the current clock.
    pub open spec fn new_user_record(
        self,
        first_name: Seq<char>,
        last_name: Seq<char>,
        username: Seq<char>,
        email: Seq<char>,
        password: Seq<char>,
    ) -> UserRecordView {
        UserRecordView {
            id: RecordId { table: Table::User, key: self.next_key },
            first_name,
            last_name,
            username,
            email,
            pass_digest: digest_of(password),
            created_at: self.clock,
            updated_at: self.clock,
        }
    }

    /// The store after a successful `create_user`.
    pub open spec fn with_user(
        self,
        first_name: Seq<char>,
        last_name: Seq<char>,
        username: Seq<char>,
        email: Seq<char>,
        password: Seq<char>,
    ) -> StoreView {
        StoreView {
            users: self.users.push(
                self.new_user_record(first_name, last_name, username, email, password),
            ),
            conversations: self.conversations,
            next_key: (self.next_key + 1) as u64,
            clock: (self.clock + 1) as u64,
        }
    }

    /// The conversation row that `create_conversation` inserts: no messages
    /// yet, a fresh key, and both timestamps set to the current clock.
    pub open spec fn new_conversation_record(self, user_id: RecordId, title: Seq<char>)
        -> ConversationView {
        ConversationView {
            id: RecordId { table: Table::Conversation, key: self.next_key },
            user_id,
            title,
            messages: Seq::empty(),
            created_at: self.clock,
            updated_at: self.clock,
        }
    }

    /// The store after a successful `create_conversation`.
    pub open spec fn with_conversation(self, user_id: RecordId, title: Seq<char>) -> StoreView {
        StoreView {
            users: self.users,
            conversations: self.conversations.push(self.new_conversation_record(user_id, title)),
            next_key: (self.next_key + 1) as u64,
            clock: (self.clock + 1) as u64,
        }
    }

    /// The store after a successful append of `drafts` to the conversation
    /// `id`: the drafts are encoded and stamped with consecutive clock
    /// ticks, merged after the existing messages, and the row's update time
    /// is bumped. Nothing else changes — in particular no message already
    /// present is lost.
    pub open spec fn with_appended(self, id: RecordId, drafts: Seq<DraftView>) -> StoreView {
        let i = self.conv_index(id);
        StoreView {
            users: self.users,
            conversations: self.conversations.update(
                i,
                appended_conversation(self.conversations[i], drafts, self.clock),
            ),
            next_key: self.next_key,
            clock: (self.clock + drafts.len() + 1) as u64,
        }
    }

    /// The store after deleting the conversation `id`: the row disappears
    /// together with its inline messages (the cascade), every other row is
    /// untouched, and the key allocator does not move backwards, so the
    /// deleted identifier is never handed out again.
    pub open spec fn without_conversation(self, id: RecordId) -> StoreView {
        StoreView {
            users: self.users,
            conversations: self.conversations.remove(self.conv_index(id)),
            next_key: self.next_key,
            clock: self.clock,
        }
    }

    /// The conversations owned by `user_id`, in stored (creation-time)
    /// order.
    pub open spec fn conversations_of(self, user_id: RecordId) -> Seq<ConversationView> {
        self.conversations.filter(|c: ConversationView| c.user_id == user_id)
    }
}

/// The message rows produced by stamping `drafts` with consecutive clock
/// ticks starting at `t0`.
pub open spec fn stamped_messages(drafts: Seq<DraftView>, t0: u64) -> Seq<MessageView> {
    Seq::new(
        drafts.len(),
        |j: int|
            MessageView {
                message_id: drafts[j].message_id,
                role: drafts[j].role,
                content: encode_spec(drafts[j].body),
                timestamp: (t0 + j) as u64,
            },
    )
}

/// A conversation after appending `drafts` at clock `t0`.
pub open spec fn appended_conversation(c: ConversationView, drafts: Seq<DraftView>, t0: u64)
    -> ConversationView {
    ConversationView {
        id: c.id,
        user_id: c.user_id,
        title: c.title,
        messages: c.messages + stamped_messages(drafts, t0),
        created_at: c.created_at,
        updated_at: (t0 + drafts.len()) as u64,
    }
}

/// The decoded form of a stored message (meaningful when its content
/// decodes).
pub open spec fn decoded_message(m: MessageView) -> DecodedMessageView {
    DecodedMessageView {
        message_id: m.message_id,
        role: m.role,
        body: match decode_spec(m.content) {
            Some(b) => b,
            None => arbitrary::<BodyView>(),
        },
        timestamp: m.timestamp,
    }
}

/// Whether every message of the conversation decodes into a known shape.
pub open spec fn all_decodable(c: ConversationView) -> bool {
    forall|j: int| 0 <= j < c.messages.len() ==> decode_spec((#[trigger] c.messages[j]).content) is Some
}

/// The conversation's messages in stored (timestamp) order, decoded back
/// into their polymorphic shapes.
pub open spec fn decoded_messages(c: ConversationView) -> Seq<DecodedMessageView> {
    Seq::new(c.messages.len(), |j: int| decoded_message(c.messages[j]))
}

/// A conversation title as stored: empty input is normalized to a fixed
/// default title rather than rejected.
pub open spec fn normalized_title(t: Seq<char>) -> Seq<char> {
    if t.len() == 0 {
        "Untitled"@
    } else {
        t
    }
}

/// In a well-formed store the `user.username` uniqueness index makes any
/// row with a matching username the row `user_index` denotes.
pub proof fn lemma_user_index_unique(s: StoreView, name: Seq<char>, i: int)
    requires
        s.wf(),
        0 <= i < s.users.len(),
        s.users[i].username == name,
    ensures
        s.username_taken(name),
        s.user_index(name) == i,
{
    assert(s.username_taken(name));
    let j = s.user_index(name);
    assert(0 <= j < s.users.len() && s.users[j].username == name);
    if i != j {
        assert(s.users[i].username != s.users[j].username);
    }
}

/// In a well-formed store record identifiers are unique, so any row with a
/// matching identifier is the row `conv_index` denotes.
pub proof fn lemma_conv_index_unique(s: StoreView, id: RecordId, i: int)
    requires
        s.wf(),
        0 <= i < s.conversations.len(),
        s.conversations[i].id == id,
    ensures
        s.has_conversation(id),
        s.conv_index(id) == i,
{
    assert(s.has_conversation(id));
    let j = s.conv_index(id);
    assert(0 <= j < s.conversations.len() && s.conversations[j].id == id);
    if i != j {
        assert(s.conversations[i].id != s.conversations[j].id);
    }
}

/// Creating a user with a fresh, non-empty username preserves the store
/// invariants.
pub proof fn lemma_with_user_wf(
    s: StoreView,
    first_name: Seq<char>,
    last_name: Seq<char>,
    username: Seq<char>,
    email: Seq<char>,
    password: Seq<char>,
)
    requires
        s.wf(),
        !s.username_taken(username),
        username.len() > 0,
        s.next_key < u64::MAX,
        s.clock < u64::MAX,
    ensures
        s.with_user(first_name, last_name, username, email, password).wf(),
{
    let post = s.with_user(first_name, last_name, username, email, password);
    assert forall|i: int| 0 <= i < post.users.len() implies #[trigger] post.user_ok(i) by {
        if i < s.users.len() {
            assert(s.user_ok(i));
        }
    }
    assert forall|i: int, j: int|
        #![trigger post.users[i].username, post.users[j].username]
        0 <= i < post.users.len() && 0 <= j < post.users.len() && i != j implies post.users[i]
        .username != post.users[j].username by {
        if i < s.users.len() && j < s.users.len() {
            assert(s.users[i].username != s.users[j].username);
        }
    }
    assert forall|i: int, j: int|
        #![trigger post.users[i].id, post.users[j].id]
        0 <= i < post.users.len() && 0 <= j < post.users.len() && i != j implies post.users[i].id
        != post.users[j].id by {
        if i < s.users.len() && j < s.users.len() {
            assert(s.users[i].id != s.users[j].id);
        } else if i < s.users.len() {
            assert(s.user_ok(i));
        } else if j < s.users.len() {
            assert(s.user_ok(j));
        }
    }
    assert forall|i: int| 0 <= i < post.conversations.len() implies #[trigger] post.conv_ok(i) by {
        assert(s.conv_ok(i));
        let c = s.conversations[i];
        let w = choose|u: int| 0 <= u < s.users.len() && (#[trigger] s.users[u]).id == c.user_id;
        assert(post.users[w].id == c.user_id);
    }
}

/// Creating a conversation for an existing user with a non-empty title
/// preserves the store invariants.
pub proof fn lemma_with_conversation_wf(s: StoreView, user_id: RecordId, title: Seq<char>)
    requires
        s.wf(),
        s.user_exists(user_id),
        title.len() > 0,
        s.next_key < u64::MAX,
        s.clock < u64::MAX,
    ensures
        s.with_conversation(user_id, title).wf(),
{
    let post = s.with_conversation(user_id, title);
    assert forall|i: int| 0 <= i < post.users.len() implies #[trigger] post.user_ok(i) by {
        assert(s.user_ok(i));
    }
    assert forall|i: int| 0 <= i < post.conversations.len() implies #[trigger] post.conv_ok(i) by {
        if i < s.conversations.len() {
            assert(s.conv_ok(i));
            let c = s.conversations[i];
            let w = choose|u: int| 0 <= u < s.users.len() && (#[trigger] s.users[u]).id == c.user_id;
            assert(post.users[w].id == c.user_id);
        } else {
            let w = choose|u: int| 0 <= u < s.users.len() && (#[trigger] s.users[u]).id == user_id;
            assert(post.users[w].id == user_id);
            assert(post.conversations[i].messages.len() == 0);
        }
    }
    assert forall|i: int, j: int|
        #![trigger post.conversations[i].id, post.conversations[j].id]
        0 <= i < post.conversations.len() && 0 <= j < post.conversations.len() && i != j implies post
        .conversations[i].id != post.conversations[j].id by {
        if i < s.conversations.len() && j < s.conversations.len() {
            assert(s.conversations[i].id != s.conversations[j].id);
        } else if i < s.conversations.len() {
            assert(s.conv_ok(i));
        } else if j < s.conversations.len() {
            assert(s.conv_ok(j));
        }
    }
    assert forall|i: int, j: int|
        #![trigger post.conversations[i].created_at, post.conversations[j].created_at]
        0 <= i < j < post.conversations.len() implies post.conversations[i].created_at < post
        .conversations[j].created_at by {
        if j < s.conversations.len() {
            assert(s.conversations[i].created_at < s.conversations[j].created_at);
        } else {
            assert(s.conv_ok(i));
        }
    }
}

/// Appending messages to an existing conversation preserves the store
/// invariants: the fresh stamps continue the strictly ascending timestamp
/// order, and no other row changes.
pub proof fn lemma_with_appended_wf(s: StoreView, id: RecordId, drafts: Seq<DraftView>)
    requires
        s.wf(),
        s.has_conversation(id),
        s.clock + drafts.len() < u64::MAX,
    ensures
        s.with_appended(id, drafts).wf(),
{
    let post = s.with_appended(id, drafts);
    let k = s.conv_index(id);
    assert(0 <= k < s.conversations.len() && s.conversations[k].id == id);
    assert forall|i: int| 0 <= i < post.users.len() implies #[trigger] post.user_ok(i) by {
        assert(s.user_ok(i));
    }
    assert forall|i: int| 0 <= i < post.conversations.len() implies #[trigger] post.conv_ok(i) by {
        assert(s.conv_ok(i));
        let c = s.conversations[i];
        let w = choose|u: int| 0 <= u < s.users.len() && (#[trigger] s.users[u]).id == c.user_id;
        assert(post.users[w].id == c.user_id);
        if i == k {
            let c2 = post.conversations[i];
            assert(c2 == appended_conversation(c, drafts, s.clock));
            assert forall|j1: int, j2: int|
                0 <= j1 < j2 < c2.messages.len() implies #[trigger] c2.messages[j1].timestamp
                < #[trigger] c2.messages[j2].timestamp by {
                if j2 < c.messages.len() {
                    assert(c.messages[j1].timestamp < c.messages[j2].timestamp);
                } else if j1 < c.messages.len() {
                    assert(c.messages[j1].timestamp <= c.updated_at);
                    assert(c.updated_at < s.clock);
                } else {
                    assert(c2.messages[j1].timestamp == s.clock + (j1 - c.messages.len()));
                    assert(c2.messages[j2].timestamp == s.clock + (j2 - c.messages.len()));
                }
            }
        }
    }
}

/// Deleting a conversation preserves the store invariants: the remaining
/// rows keep their relative (creation-time) order and their owners.
pub proof fn lemma_without_conversation_wf(s: StoreView, id: RecordId)
    requires
        s.wf(),
        s.has_conversation(id),
    ensures
        s.without_conversation(id).wf(),
{
    let post = s.without_conversation(id);
    let k = s.conv_index(id);
    assert(0 <= k < s.conversations.len() && s.conversations[k].id == id);
    assert forall|i: int| 0 <= i < post.users.len() implies #[trigger] post.user_ok(i) by {
        assert(s.user_ok(i));
    }
    assert forall|i: int| 0 <= i < post.conversations.len() implies #[trigger] post.conv_ok(i) by {
        let orig = if i < k {
            i
        } else {
            i + 1
        };
        assert(post.conversations[i] == s.conversations[orig]);
        assert(s.conv_ok(orig));
        let c = s.conversations[orig];
        let w = choose|u: int| 0 <= u < s.users.len() && (#[trigger] s.users[u]).id == c.user_id;
        assert(post.users[w].id == c.user_id);
    }
    assert forall|i: int, j: int|
        #![trigger post.conversations[i].id, post.conversations[j].id]
        0 <= i < post.conversations.len() && 0 <= j < post.conversations.len() && i != j implies post
        .conversations[i].id != post.conversations[j].id by {
        let oi = if i < k {
            i
        } else {
            i + 1
        };
        let oj = if j < k {
            j
        } else {
            j + 1
        };
        assert(post.conversations[i] == s.conversations[oi]);
        assert(post.conversations[j] == s.conversations[oj]);
    }
    assert forall|i: int, j: int|
        #![trigger post.conversations[i].created_at, post.conversations[j].created_at]
        0 <= i < j < post.conversations.len() implies post.conversations[i].created_at < post
        .conversations[j].created_at by {
        let oi = if i < k {
            i
        } else {
            i + 1
        };
        let oj = if j < k {
            j
        } else {
            j + 1
        };
        assert(post.conversations[i] == s.conversations[oi]);
        assert(post.conversations[j] == s.conversations[oj]);
    }
}

impl Store {
    /// A fresh, empty store.
    pub fn new() -> (r: Store)
        ensures
            r@ == StoreView::empty(),
            r@.wf(),
    {
        let r = Store { users: Vec::new(), conversations: Vec::new(), next_key: 0, clock: 0 };
        proof {
            assert(r@.users =~= Seq::<UserRecordView>::empty());
            assert(r@.conversations =~= Seq::<ConversationView>::empty());
        }
        r
    }

    /// Scans the `user` table for a username; in a well-formed store the
    /// match, if any, is the row the uniqueness index denotes.
    pub fn find_user(&self, username: &str) -> (r: Option<usize>)
        requires
            self@.wf(),
        ensures
            match r {
                Some(i) => {
                    &&& i < self@.users.len()
                    &&& self@.users[i as int].username == username@
                    &&& self@.username_taken(username@)
                    &&& self@.user_index(username@) == i
                },
                None => !self@.username_taken(username@),
            },
    {
        let mut i: usize = 0;
        while i < self.users.len()
            invariant
                self@.wf(),
                i <= self@.users.len(),
                forall|j: int| 0 <= j < i ==> (#[trigger] self@.users[j]).username != username@,
            decreases self@.users.len() - i,
        {
            if self.users[i].username == String::from_str(username) {
                proof {
                    lemma_user_index_unique(self@, username@, i as int);
                }
                return Some(i);
            }
            i = i + 1;
        }
        None
    }

    /// Scans the `user` table for a record identifier.
    pub fn find_user_by_id(&self, id: &RecordId) -> (r: Option<usize>)
        requires
            self@.wf(),
        ensures
            match r {
                Some(i) => {
                    &&& i < self@.users.len()
                    &&& self@.users[i as int].id == *id
                    &&& self@.user_exists(*id)
                },
                None => !self@.user_exists(*id),
            },
    {
        let mut i: usize = 0;
        while i < self.users.len()
            invariant
                self@.wf(),
                i <= self@.users.len(),
                forall|j: int| 0 <= j < i ==> (#[trigger] self@.users[j]).id != *id,
            decreases self@.users.len() - i,
        {
            if self.users[i].id == *id {
                return Some(i);
            }
            i = i + 1;
        }
        None
    }

    /// Scans the `conversation` table for a record identifier; in a
    /// well-formed store the match, if any, is unique.
    pub fn find_conversation(&self, id: &RecordId) -> (r: Option<usize>)
        requires
            self@.wf(),
        ensures
            match r {
                Some(i) => {
                    &&& i < self@.conversations.len()
                    &&& self@.conversations[i as int].id == *id
                    &&& self@.has_conversation(*id)
                    &&& self@.conv_index(*id) == i
                },
                None => !self@.has_conversation(*id),
            },
    {
        let mut i: usize = 0;
        while i < self.conversations.len()
            invariant
                self@.wf(),
                i <= self@.conversations.len(),
                forall|j: int| 0 <= j < i ==> (#[trigger] self@.conversations[j]).id != *id,
            decreases self@.conversations.len() - i,
        {
            if self.conversations[i].id == *id {
                proof {
                    lemma_conv_index_unique(self@, *id, i as int);
                }
                return Some(i);
            }
            i = i + 1;
        }
        None
    }
}

/// Compares two stored digests.
pub fn digests_equal(a: &Vec<u32>, b: &Vec<u32>) -> (r: bool)
    ensures
        r == (a@ == b@),
{
    if a.len() != b.len() {
        proof {
            assert(a@ != b@);
        }
        return false;
    }
    let mut i: usize = 0;
    while i < a.len()
        invariant
            a@.len() == b@.len(),
            i <= a@.len(),
            forall|j: int| 0 <= j < i ==> a@[j] == b@[j],
        decreases a@.len() - i,
    {
        if a[i] != b[i] {
            proof {
                assert(a@ != b@);
            }
            return false;
        }
        i = i + 1;
    }
    proof {
        assert(a@ =~= b@);
    }
    true
}

} // verus!
