//! The codes under which catalog enumerations are stored.

use vstd::prelude::*;

use crate::metadata::{DatabaseKind, PolicyKind, PrimaryKeyStrategy, RelationKind};
use crate::text::copy_string;

verus! {

pub open spec fn database_kind_text(kind: DatabaseKind) -> Seq<char> {
    match kind {
        DatabaseKind::MySql => "mysql"@,
        DatabaseKind::Postgres => "postgres"@,
        DatabaseKind::Oracle => "oracle"@,
        DatabaseKind::SqlServer => "sqlserver"@,
        DatabaseKind::Sqlite => "sqlite"@,
        DatabaseKind::Custom(value) => value@,
    }
}

pub open spec fn primary_key_strategy_text(strategy: PrimaryKeyStrategy) -> Seq<char> {
    match strategy {
        PrimaryKeyStrategy::Manual => "manual"@,
        PrimaryKeyStrategy::AutoIncrement => "auto_increment"@,
        PrimaryKeyStrategy::Sequence(name) => "sequence:"@ + name@,
        PrimaryKeyStrategy::Snowflake => "snowflake"@,
        PrimaryKeyStrategy::Uuid => "uuid"@,
    }
}

pub open spec fn relation_kind_text(kind: RelationKind) -> Seq<char> {
    match kind {
        RelationKind::OneToOne => "one_to_one"@,
        RelationKind::OneToMany => "one_to_many"@,
        RelationKind::ManyToOne => "many_to_one"@,
        RelationKind::ManyToMany => "many_to_many"@,
    }
}

pub open spec fn policy_kind_text(kind: PolicyKind) -> Seq<char> {
    match kind {
        PolicyKind::RowFilter => "row_filter"@,
        PolicyKind::FieldMask => "field_mask"@,
        PolicyKind::ImportGuard => "import_guard"@,
        PolicyKind::ExportGuard => "export_guard"@,
        PolicyKind::Custom(value) => value@,
    }
}

pub fn database_kind_code(kind: &DatabaseKind) -> (r: String)
    ensures
        r@ == database_kind_text(*kind),
{
    match kind {
        DatabaseKind::MySql => "mysql".to_owned(),
        DatabaseKind::Postgres => "postgres".to_owned(),
        DatabaseKind::Oracle => "oracle".to_owned(),
        DatabaseKind::SqlServer => "sqlserver".to_owned(),
        DatabaseKind::Sqlite => "sqlite".to_owned(),
        DatabaseKind::Custom(value) => copy_string(value),
    }
}

pub fn primary_key_strategy_code(strategy: &PrimaryKeyStrategy) -> (r: String)
    ensures
        r@ == primary_key_strategy_text(*strategy),
{
    match strategy {
        PrimaryKeyStrategy::Manual => "manual".to_owned(),
        PrimaryKeyStrategy::AutoIncrement => "auto_increment".to_owned(),
        PrimaryKeyStrategy::Sequence(name) => {
            let mut s = "sequence:".to_owned();
            s.append(name.as_str());
            s
        },
        PrimaryKeyStrategy::Snowflake => "snowflake".to_owned(),
        PrimaryKeyStrategy::Uuid => "uuid".to_owned(),
    }
}

pub fn relation_kind_code(kind: &RelationKind) -> (r: String)
    ensures
        r@ == relation_kind_text(*kind),
{
    match kind {
        RelationKind::OneToOne => "one_to_one".to_owned(),
        RelationKind::OneToMany => "one_to_many".to_owned(),
        RelationKind::ManyToOne => "many_to_one".to_owned(),
        RelationKind::ManyToMany => "many_to_many".to_owned(),
    }
}

pub fn policy_kind_code(kind: &PolicyKind) -> (r: String)
    ensures
        r@ == policy_kind_text(*kind),
{
    match kind {
        PolicyKind::RowFilter => "row_filter".to_owned(),
        PolicyKind::FieldMask => "field_mask".to_owned(),
        PolicyKind::ImportGuard => "import_guard".to_owned(),
        PolicyKind::ExportGuard => "export_guard".to_owned(),
        PolicyKind::Custom(value) => copy_string(value),
    }
}

} // verus!
