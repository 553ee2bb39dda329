use vstd::prelude::*;
use crate::records::Table;

verus! {

/// Fields of the persisted tables.
#[derive(Clone, Copy, Debug, PartialEq, Eq, Structural)]
pub enum FieldName {
    FirstName,
    LastName,
    Username,
    Email,
    Pass,
    CreatedAt,
    UpdatedAt,
    UserId,
    Title,
    Messages,
}

/// Storage-level type of a field.
#[derive(Clone, Copy, Debug, PartialEq, Eq, Structural)]
pub enum FieldType {
    Text,
    Datetime,
    RecordLink(Table),
    ObjectArray,
}

/// One idempotent schema-definition statement. A strict table rejects
/// undeclared fields; `assert_non_empty` attaches a non-empty-value
/// assertion to a field; `default_now` makes a field default to the time of
/// the write; a unique index enforces one row per value.
#[derive(Clone, Copy, Debug, PartialEq, Eq, Structural)]
pub enum SchemaStatement {
    DefineTable { table: Table, strict: bool },
    DefineField {
        table: Table,
        field: FieldName,
        ftype: FieldType,
        assert_non_empty: bool,
        default_now: bool,
    },
    DefineIndex { table: Table, field: FieldName, unique: bool },
}

/// The table a statement speaks about.
pub open spec fn statement_table(s: SchemaStatement) -> Table {
    match s {
        SchemaStatement::DefineTable { table, .. } => table,
        SchemaStatement::DefineField { table, .. } => table,
        SchemaStatement::DefineIndex { table, .. } => table,
    }
}

/// Whether a statement defines the given field.
pub open spec fn defines_field(s: SchemaStatement, f: FieldName) -> bool {
    s matches SchemaStatement::DefineField { field, .. } && field == f
}

/// An index statement must come after the definition of the field it
/// indexes.
pub open spec fn index_after_field(p: Seq<SchemaStatement>, i: int) -> bool {
    p[i] matches SchemaStatement::DefineIndex { field, .. } ==> exists|j: int|
        0 <= j < i && defines_field(#[trigger] p[j], field)
}

/// Ordering discipline of a schema plan: the strict table definition comes
/// first, every statement speaks about that table, and every index comes
/// after the field it references.
pub open spec fn well_formed_plan(p: Seq<SchemaStatement>, table: Table) -> bool {
    &&& p.len() > 0
    &&& p[0] == (SchemaStatement::DefineTable { table, strict: true })
    &&& forall|i: int| 0 < i < p.len() ==> !((#[trigger] p[i]) is DefineTable)
    &&& forall|i: int| 0 <= i < p.len() ==> statement_table(#[trigger] p[i]) == table
    &&& forall|i: int| 0 <= i < p.len() ==> #[trigger] index_after_field(p, i)
}

/// The schema of the `user` table: a strict table, its seven fields
/// (username carrying a non-empty assertion, the credential stored under
/// `pass`, both timestamps defaulting to the time of the write), and the
/// uniqueness index on the username.
pub open spec fn user_plan() -> Seq<SchemaStatement> {
    seq![
        SchemaStatement::DefineTable { table: Table::User, strict: true },
        SchemaStatement::DefineField {
            table: Table::User,
            field: FieldName::FirstName,
            ftype: FieldType::Text,
            assert_non_empty: false,
            default_now: false,
        },
        SchemaStatement::DefineField {
            table: Table::User,
            field: FieldName::LastName,
            ftype: FieldType::Text,
            assert_non_empty: false,
            default_now: false,
        },
        SchemaStatement::DefineField {
            table: Table::User,
            field: FieldName::Username,
            ftype: FieldType::Text,
            assert_non_empty: true,
            default_now: false,
        },
        SchemaStatement::DefineField {
            table: Table::User,
            field: FieldName::Email,
            ftype: FieldType::Text,
            assert_non_empty: false,
            default_now: false,
        },
        SchemaStatement::DefineField {
            table: Table::User,
            field: FieldName::Pass,
            ftype: FieldType::Text,
            assert_non_empty: false,
            default_now: false,
        },
        SchemaStatement::DefineField {
            table: Table::User,
            field: FieldName::CreatedAt,
            ftype: FieldType::Datetime,
            assert_non_empty: false,
            default_now: true,
        },
        SchemaStatement::DefineField {
            table: Table::User,
            field: FieldName::UpdatedAt,
            ftype: FieldType::Datetime,
            assert_non_empty: false,
            default_now: true,
        },
        SchemaStatement::DefineIndex { table: Table::User, field: FieldName::Username, unique: true },
    ]
}

/// The schema of the `conversation` table: a strict table whose rows point
/// at their owning user, carry a non-empty title, an optional inline array
/// of message objects, and timestamps written with each change. Titles are
/// deliberately not indexed for uniqueness: empty input is normalized to a
/// default title instead, and two conversations may share a title.
pub open spec fn conversation_plan() -> Seq<SchemaStatement> {
    seq![
        SchemaStatement::DefineTable { table: Table::Conversation, strict: true },
        SchemaStatement::DefineField {
            table: Table::Conversation,
            field: FieldName::UserId,
            ftype: FieldType::RecordLink(Table::User),
            assert_non_empty: false,
            default_now: false,
        },
        SchemaStatement::DefineField {
            table: Table::Conversation,
            field: FieldName::Title,
            ftype: FieldType::Text,
            assert_non_empty: true,
            default_now: false,
        },
        SchemaStatement::DefineField {
            table: Table::Conversation,
            field: FieldName::Messages,
            ftype: FieldType::ObjectArray,
            assert_non_empty: false,
            default_now: false,
        },
        SchemaStatement::DefineField {
            table: Table::Conversation,
            field: FieldName::CreatedAt,
            ftype: FieldType::Datetime,
            assert_non_empty: false,
            default_now: true,
        },
        SchemaStatement::DefineField {
            table: Table::Conversation,
            field: FieldName::UpdatedAt,
            ftype: FieldType::Datetime,
            assert_non_empty: false,
            default_now: true,
        },
    ]
}

/// The `user` schema plan respects the ordering discipline.
pub proof fn lemma_user_plan_well_formed()
    ensures
        well_formed_plan(user_plan(), Table::User),
{
    let p = user_plan();
    assert(p.len() == 9);
    assert forall|i: int| 0 <= i < p.len() implies #[trigger] index_after_field(p, i) by {
        if p[i] is DefineIndex {
            assert(i == 8);
            assert(defines_field(p[3], FieldName::Username));
        }
    }
}

/// The `conversation` schema plan respects the ordering discipline.
pub proof fn lemma_conversation_plan_well_formed()
    ensures
        well_formed_plan(conversation_plan(), Table::Conversation),
{
    let p = conversation_plan();
    assert(p.len() == 6);
    assert forall|i: int| 0 <= i < p.len() implies #[trigger] index_after_field(p, i) by {
        assert(!(p[i] is DefineIndex));
    }
}

/// Builds the `user` schema plan for the storage layer to issue.
pub fn user_schema_plan() -> (r: Vec<SchemaStatement>)
    ensures
        r@ == user_plan(),
        well_formed_plan(r@, Table::User),
{
    let mut r: Vec<SchemaStatement> = Vec::new();
    r.push(SchemaStatement::DefineTable { table: Table::User, strict: true });
    r.push(SchemaStatement::DefineField {
        table: Table::User,
        field: FieldName::FirstName,
        ftype: FieldType::Text,
        assert_non_empty: false,
        default_now: false,
    });
    r.push(SchemaStatement::DefineField {
        table: Table::User,
        field: FieldName::LastName,
        ftype: FieldType::Text,
        assert_non_empty: false,
        default_now: false,
    });
    r.push(SchemaStatement::DefineField {
        table: Table::User,
        field: FieldName::Username,
        ftype: FieldType::Text,
        assert_non_empty: true,
        default_now: false,
    });
    r.push(SchemaStatement::DefineField {
        table: Table::User,
        field: FieldName::Email,
        ftype: FieldType::Text,
        assert_non_empty: false,
        default_now: false,
    });
    r.push(SchemaStatement::DefineField {
        table: Table::User,
        field: FieldName::Pass,
        ftype: FieldType::Text,
        assert_non_empty: false,
        default_now: false,
    });
    r.push(SchemaStatement::DefineField {
        table: Table::User,
        field: FieldName::CreatedAt,
        ftype: FieldType::Datetime,
        assert_non_empty: false,
        default_now: true,
    });
    r.push(SchemaStatement::DefineField {
        table: Table::User,
        field: FieldName::UpdatedAt,
        ftype: FieldType::Datetime,
        assert_non_empty: false,
        default_now: true,
    });
    r.push(SchemaStatement::DefineIndex {
        table: Table::User,
        field: FieldName::Username,
        unique: true,
    });
    proof {
        assert(r@ =~= user_plan());
        lemma_user_plan_well_formed();
    }
    r
}

/// Builds the `conversation` schema plan for the storage layer to issue.
pub fn conversation_schema_plan() -> (r: Vec<SchemaStatement>)
    ensures
        r@ == conversation_plan(),
        well_formed_plan(r@, Table::Conversation),
{
    let mut r: Vec<SchemaStatement> = Vec::new();
    r.push(SchemaStatement::DefineTable { table: Table::Conversation, strict: true });
    r.push(SchemaStatement::DefineField {
        table: Table::Conversation,
        field: FieldName::UserId,
        ftype: FieldType::RecordLink(Table::User),
        assert_non_empty: false,
        default_now: false,
    });
    r.push(SchemaStatement::DefineField {
        table: Table::Conversation,
        field: FieldName::Title,
        ftype: FieldType::Text,
        assert_non_empty: true,
        default_now: false,
    });
    r.push(SchemaStatement::DefineField {
        table: Table::Conversation,
        field: FieldName::Messages,
        ftype: FieldType::ObjectArray,
        assert_non_empty: false,
        default_now: false,
    });
    r.push(SchemaStatement::DefineField {
        table: Table::Conversation,
        field: FieldName::CreatedAt,
        ftype: FieldType::Datetime,
        assert_non_empty: false,
        default_now: true,
    });
    r.push(SchemaStatement::DefineField {
        table: Table::Conversation,
        field: FieldName::UpdatedAt,
        ftype: FieldType::Datetime,
        assert_non_empty: false,
        default_now: true,
    });
    proof {
        assert(r@ =~= conversation_plan());
        lemma_conversation_plan_well_formed();
    }
    r
}

} // verus!
