use vstd::prelude::*;
use crate::schema::SchemaStatement;
use crate::store::{Store, StoreView};
use crate::errors::StoreError;

verus! {

/// The connection manager: owner of the single physical handle to the
/// embedded engine. A process holds one `Database` behind a one-time cell
/// and an exclusive lock; every repository operation takes the lock — here,
/// an exclusive reference — for the span of one query or one
/// read-modify-write sequence. `initialize` opens the handle exactly once:
/// later calls are no-ops and never reopen or leak a second handle.
///
/// The schema flags record which `ensure_schema` steps have run, and
/// `schema_log` records every schema statement issued, in order; re-running
/// a step neither re-issues statements nor touches stored data.
pub struct Database {
    pub opened: bool,
    pub path: String,
    pub namespace: String,
    pub database: String,
    pub user_schema: bool,
    pub conversation_schema: bool,
    pub schema_log: Vec<SchemaStatement>,
    pub store: Store,
}

/// Mathematical model of `Database`.
pub struct DatabaseView {
    pub opened: bool,
    pub path: Seq<char>,
    pub namespace: Seq<char>,
    pub database: Seq<char>,
    pub user_schema: bool,
    pub conversation_schema: bool,
    pub schema_log: Seq<SchemaStatement>,
    pub store: StoreView,
}

impl View for Database {
    type V = DatabaseView;

    open spec fn view(&self) -> DatabaseView {
        DatabaseView {
            opened: self.opened,
            path: self.path@,
            namespace: self.namespace@,
            database: self.database@,
            user_schema: self.user_schema,
            conversation_schema: self.conversation_schema,
            schema_log: self.schema_log@,
            store: self.store@,
        }
    }
}

impl DatabaseView {
    /// The user repository may run: the handle is open and the `user`
    /// schema step has been enforced.
    pub open spec fn users_ready(self) -> bool {
        self.opened && self.user_schema
    }

    /// The conversation repository may run: the handle is open and the
    /// `conversation` schema step has been enforced.
    pub open spec fn conversations_ready(self) -> bool {
        self.opened && self.conversation_schema
    }

    /// Everything outside the stored data is as in `other`: connection
    /// state, schema flags, and the log of issued schema statements.
    pub open spec fn same_except_store(self, other: DatabaseView) -> bool {
        &&& self.opened == other.opened
        &&& self.path == other.path
        &&& self.namespace == other.namespace
        &&& self.database == other.database
        &&& self.user_schema == other.user_schema
        &&& self.conversation_schema == other.conversation_schema
        &&& self.schema_log == other.schema_log
    }
}

impl Database {
    /// A closed connection manager; nothing may be queried until
    /// `initialize` has run.
    pub fn new() -> (r: Database)
        ensures
            !r@.opened,
            !r@.user_schema,
            !r@.conversation_schema,
            r@.schema_log == Seq::<SchemaStatement>::empty(),
            r@.store == StoreView::empty(),
            r@.store.wf(),
    {
        Database {
            opened: false,
            path: String::new(),
            namespace: String::new(),
            database: String::new(),
            user_schema: false,
            conversation_schema: false,
            schema_log: Vec::new(),
            store: Store::new(),
        }
    }

    /// Opens the engine at `path` and selects the namespace and database,
    /// exactly once per manager: when the handle is already open the call
    /// is a no-op that changes nothing — it must not reopen the engine or
    /// leak a second handle. An engine that cannot be opened would surface
    /// `StorageUnavailable`; the in-process engine modeled here always
    /// opens.
    pub fn initialize(&mut self, db_path: &str, namespace: &str, database: &str) -> (r: Result<
        (),
        StoreError,
    >)
        ensures
            r is Ok,
            final(self)@.opened,
            old(self)@.opened ==> final(self)@ == old(self)@,
            !old(self)@.opened ==> final(self)@ == (DatabaseView {
                opened: true,
                path: db_path@,
                namespace: namespace@,
                database: database@,
                ..old(self)@
            }),
    {
        if !self.opened {
            self.path = String::from_str(db_path);
            self.namespace = String::from_str(namespace);
            self.database = String::from_str(database);
            self.opened = true;
        }
        Ok(())
    }

    /// Shared access to the open handle; calling this before `initialize`
    /// is a programming error, so an open handle is a precondition rather
    /// than a silently empty result.
    pub fn get_connection(&self) -> (r: &Store)
        requires
            self@.opened,
        ensures
            r@ == self@.store,
    {
        &self.store
    }
}

} // verus!
