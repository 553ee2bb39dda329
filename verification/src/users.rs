use vstd::prelude::*;
use crate::db::Database;
use crate::digest::credential_digest;
use crate::errors::StoreError;
use crate::records::{RecordId, Table, User, UserRecord, UserView, project_user};
use crate::schema::user_plan;
use crate::schema::user_schema_plan;
use crate::store::{digests_equal, lemma_with_user_wf};

verus! {

/// The model of what an `Option<User>` result stands for.
pub open spec fn option_user_view(o: Option<User>) -> Option<UserView> {
    match o {
        Some(u) => Some(u@),
        None => None,
    }
}

/// Repository for the `user` table: signup, lookup, and credential
/// verification over the shared connection.
pub struct UserDatabase;

impl UserDatabase {
    /// Guarantees the connection is open and the `user` schema step has
    /// run. Both halves are idempotent: a second call changes nothing, and
    /// enforcing the schema never alters stored data.
    pub fn initialize(db: &mut Database, db_path: &str) -> (r: Result<(), StoreError>)
        ensures
            r is Ok,
            final(db)@.opened,
            final(db)@.user_schema,
            final(db)@.store == old(db)@.store,
            final(db)@.conversation_schema == old(db)@.conversation_schema,
            old(db)@.opened && old(db)@.user_schema ==> final(db)@ == old(db)@,
            !old(db)@.user_schema ==> final(db)@.schema_log == old(db)@.schema_log + user_plan(),
            old(db)@.user_schema ==> final(db)@.schema_log == old(db)@.schema_log,
            !old(db)@.opened ==> final(db)@.path == db_path@ && final(db)@.namespace == "novaflow"@
                && final(db)@.database == "users"@,
    {
        db.initialize(db_path, "novaflow", "users")?;
        if !db.user_schema {
            let mut plan = user_schema_plan();
            db.schema_log.append(&mut plan);
            db.user_schema = true;
        }
        Ok(())
    }

    /// Creates a user: fails with `DuplicateUsername` exactly when the
    /// uniqueness index rejects the insert, in which case nothing changes.
    /// On success the new row carries the digest of the password — never
    /// the password itself — and both timestamps are set to the time of the
    /// write. The username must be non-empty (the schema's assertion on the
    /// field).
    pub fn create_user(
        db: &mut Database,
        first_name: String,
        last_name: String,
        username: String,
        pass: String,
        email: String,
    ) -> (r: Result<(), StoreError>)
        requires
            old(db)@.store.wf(),
            old(db)@.users_ready(),
            username@.len() > 0,
            old(db)@.store.next_key < u64::MAX,
            old(db)@.store.clock < u64::MAX,
        ensures
            final(db)@.store.wf(),
            final(db)@.same_except_store(old(db)@),
            r is Ok <==> !old(db)@.store.username_taken(username@),
            r is Ok ==> final(db)@.store == old(db)@.store.with_user(
                first_name@,
                last_name@,
                username@,
                email@,
                pass@,
            ),
            r is Err ==> final(db)@ == old(db)@ && r == Err::<(), StoreError>(
                StoreError::DuplicateUsername,
            ),
    {
        match db.store.find_user(username.as_str()) {
            Some(_) => Err(StoreError::DuplicateUsername),
            None => {
                let pass_digest = credential_digest(pass.as_str());
                let clock = db.store.clock;
                let rec = UserRecord {
                    id: RecordId { table: Table::User, key: db.store.next_key },
                    first_name,
                    last_name,
                    username,
                    email,
                    pass_digest,
                    created_at: clock,
                    updated_at: clock,
                };
                proof {
                    lemma_with_user_wf(
                        old(db)@.store,
                        rec.first_name@,
                        rec.last_name@,
                        rec.username@,
                        rec.email@,
                        pass@,
                    );
                }
                db.store.users.push(rec);
                db.store.next_key = db.store.next_key + 1;
                db.store.clock = db.store.clock + 1;
                proof {
                    let pre = old(db)@.store;
                    let post = pre.with_user(
                        rec.first_name@,
                        rec.last_name@,
                        rec.username@,
                        rec.email@,
                        pass@,
                    );
                    assert(rec@ == pre.new_user_record(
                        rec.first_name@,
                        rec.last_name@,
                        rec.username@,
                        rec.email@,
                        pass@,
                    ));
                    assert(final(db)@.store.users =~= post.users);
                    assert(final(db)@.store.conversations =~= post.conversations);
                    assert(final(db)@.store == post);
                }
                Ok(())
            },
        }
    }

    /// Looks a user up by username; `None` when no row matches. The result
    /// is the public projection, never the stored digest.
    pub fn get_user_by_username(db: &Database, username: &str) -> (r: Result<
        Option<User>,
        StoreError,
    >)
        requires
            db@.store.wf(),
            db@.users_ready(),
        ensures
            r matches Ok(o) && option_user_view(o) == db@.store.lookup_user(username@),
    {
        match db.store.find_user(username) {
            Some(i) => Ok(Some(project_user(&db.store.users[i]))),
            None => Ok(None),
        }
    }

    /// Verifies a credential: returns the public projection when the
    /// username exists and the digest of the supplied password matches the
    /// stored digest, `None` otherwise. The digest is compared, never
    /// reversed, and an unknown username and a wrong password are
    /// indistinguishable in the result.
    pub fn verify_password(db: &Database, username: &str, password: &str) -> (r: Result<
        Option<User>,
        StoreError,
    >)
        requires
            db@.store.wf(),
            db@.users_ready(),
        ensures
            r matches Ok(o) && option_user_view(o) == db@.store.login_spec(username@, password@),
    {
        match db.store.find_user(username) {
            Some(i) => {
                let supplied = credential_digest(password);
                if digests_equal(&db.store.users[i].pass_digest, &supplied) {
                    Ok(Some(project_user(&db.store.users[i])))
                } else {
                    Ok(None)
                }
            },
            None => Ok(None),
        }
    }

    /// The record identifier of the user with this username; fails with
    /// `NotFound` when no such username exists.
    pub fn get_user_id(db: &Database, username: &str) -> (r: Result<RecordId, StoreError>)
        requires
            db@.store.wf(),
            db@.users_ready(),
        ensures
            r is Ok <==> db@.store.username_taken(username@),
            r matches Ok(id) ==> id == db@.store.users[db@.store.user_index(username@)].id
                && db@.store.user_exists(id),
            r matches Err(e) ==> e == StoreError::NotFound,
    {
        match db.store.find_user(username) {
            Some(i) => {
                let id = db.store.users[i].id;
                proof {
                    assert(db@.store.users[i as int].id == id);
                }
                Ok(id)
            },
            None => Err(StoreError::NotFound),
        }
    }
}

} // verus!
