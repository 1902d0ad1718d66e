//! Plans of metadata inserts, updates and deletes.

use vstd::prelude::*;

use super::permission::{permission_of, PermissionModel, PermissionPlan};
use super::query::{main_table_name, request_table};
use crate::metadata::field::{field_source_column, FieldModel};
use crate::metadata::filters::{duplicate_filter_exprs, filter_exprs_model, FilterExprModel};
use crate::metadata::query::RequestModel;
use crate::metadata::{FieldInputKind, MetadataField, MetadataFilterExpr, MetadataId, MetadataQueryRequest};
use crate::sql::StatementType;
use crate::text::{copy_string, lemma_filter_empty, lemma_filter_take, lemma_map_push, owned};
use crate::value::{Value, ValueModel};

verus! {

/// Where a written value comes from.
#[derive(Debug, Clone, PartialEq)]
pub enum WriteValuePlan {
    /// A value given by the request.
    Param(Value),
    /// The field's default.
    Default(Value),
    /// The id of the row of `table` whose `display_column` equals `value`.
    Lookup { table: String, display_column: String, value: Value },
    /// The next number of a sequence.
    Sequence(String),
    /// Raw SQL.
    Raw(String),
}

/// The model of a [`WriteValuePlan`].
pub enum WriteValueModel {
    Param(ValueModel),
    Default(ValueModel),
    Lookup { table: Seq<char>, display_column: Seq<char>, value: ValueModel },
    Sequence(Seq<char>),
    Raw(Seq<char>),
}

impl View for WriteValuePlan {
    type V = WriteValueModel;

    open spec fn view(&self) -> WriteValueModel {
        match self {
            WriteValuePlan::Param(v) => WriteValueModel::Param(v@),
            WriteValuePlan::Default(v) => WriteValueModel::Default(v@),
            WriteValuePlan::Lookup { table, display_column, value } =>
                WriteValueModel::Lookup { table: table@, display_column: display_column@, value: value@ },
            WriteValuePlan::Sequence(s) => WriteValueModel::Sequence(s@),
            WriteValuePlan::Raw(s) => WriteValueModel::Raw(s@),
        }
    }
}

/// One written column.
#[derive(Debug, Clone, PartialEq)]
pub struct WriteAssignmentPlan {
    pub column_name: String,
    pub value: WriteValuePlan,
}

/// The model of a [`WriteAssignmentPlan`].
pub struct WriteAssignmentModel {
    pub column_name: Seq<char>,
    pub value: WriteValueModel,
}

impl View for WriteAssignmentPlan {
    type V = WriteAssignmentModel;

    open spec fn view(&self) -> WriteAssignmentModel {
        WriteAssignmentModel { column_name: self.column_name@, value: self.value@ }
    }
}

/// The assignment a field contributes to a write, if any: only plain columns are
/// written; a sequence field takes its sequence (or the empty name), a lookup field with
/// a lookup takes its value, else its default, else null; any other field takes its
/// value, else its default, else nothing.
pub open spec fn write_assignment_of(f: FieldModel) -> Option<WriteAssignmentModel> {
    match field_source_column(f) {
        None => None,
        Some(column) => {
            let v: Option<WriteValueModel> = if f.input_kind == FieldInputKind::Sequence {
                Some(WriteValueModel::Sequence(match f.sequence_name { Some(s) => s, None => Seq::empty() }))
            } else if f.input_kind == FieldInputKind::Lookup {
                match f.lookup {
                    None => None,
                    Some(l) => Some(WriteValueModel::Lookup {
                        table: l.table,
                        display_column: l.display_column,
                        value: match f.value {
                            Some(v) => v,
                            None => match f.default_value {
                                Some(d) => d,
                                None => ValueModel::Null,
                            },
                        },
                    }),
                }
            } else {
                match f.value {
                    Some(v) => Some(WriteValueModel::Param(v)),
                    None => match f.default_value {
                        Some(d) => Some(WriteValueModel::Default(d)),
                        None => None,
                    },
                }
            };
            match v {
                Some(value) => Some(WriteAssignmentModel { column_name: column, value }),
                None => None,
            }
        },
    }
}

/// The fields that contribute an assignment.
pub open spec fn assigns() -> spec_fn(FieldModel) -> bool {
    |f: FieldModel| write_assignment_of(f) is Some
}

/// The assignment of a field that contributes one.
pub open spec fn assignment_of() -> spec_fn(FieldModel) -> WriteAssignmentModel {
    |f: FieldModel| match write_assignment_of(f) {
        Some(a) => a,
        None => WriteAssignmentModel { column_name: Seq::empty(), value: WriteValueModel::Raw(Seq::empty()) },
    }
}

/// The assignment a field contributes to a write, if any.
pub fn write_assignment_from_field(field: &MetadataField) -> (r: Option<WriteAssignmentPlan>)
    ensures
        match r {
            Some(a) => write_assignment_of(field@) == Some(a@),
            None => write_assignment_of(field@) is None,
        },
{
    let column_name = match field.source_column() {
        Some(c) => owned(c),
        None => {
            return None;
        },
    };
    let value = match field.input_kind {
        FieldInputKind::Sequence => WriteValuePlan::Sequence(match &field.sequence_name {
            Some(s) => copy_string(s),
            None => String::new(),
        }),
        FieldInputKind::Lookup => match &field.lookup {
            None => {
                return None;
            },
            Some(lookup) => WriteValuePlan::Lookup {
                table: copy_string(&lookup.table),
                display_column: copy_string(&lookup.display_column),
                value: match &field.value {
                    Some(v) => v.duplicate(),
                    None => match &field.default_value {
                        Some(d) => d.duplicate(),
                        None => Value::Null,
                    },
                },
            },
        },
        _ => match &field.value {
            Some(v) => WriteValuePlan::Param(v.duplicate()),
            None => match &field.default_value {
                Some(d) => WriteValuePlan::Default(d.duplicate()),
                None => {
                    return None;
                },
            },
        },
    };
    Some(WriteAssignmentPlan { column_name, value })
}

/// The plan of an insert or update.
#[derive(Debug, Clone, PartialEq)]
pub struct WritePlan {
    pub source_request: MetadataQueryRequest,
    pub statement_type: StatementType,
    pub table: String,
    pub target_id: Option<MetadataId>,
    pub assignments: Vec<WriteAssignmentPlan>,
    pub permission: PermissionPlan,
}

/// The model of a [`WritePlan`].
pub struct WritePlanModel {
    pub source_request: RequestModel,
    pub statement_type: StatementType,
    pub table: Seq<char>,
    pub target_id: Option<MetadataId>,
    pub assignments: Seq<WriteAssignmentModel>,
    pub permission: PermissionModel,
}

impl View for WritePlan {
    type V = WritePlanModel;

    open spec fn view(&self) -> WritePlanModel {
        WritePlanModel {
            source_request: self.source_request@,
            statement_type: self.statement_type,
            table: self.table@,
            target_id: self.target_id,
            assignments: self.assignments@.map_values(|a: WriteAssignmentPlan| a@),
            permission: self.permission@,
        }
    }
}

/// The write plan of a request: every field that contributes an assignment, in order.
pub open spec fn write_plan_of(r: RequestModel, statement_type: StatementType) -> WritePlanModel {
    WritePlanModel {
        source_request: r,
        statement_type,
        table: request_table(r),
        target_id: r.options.id,
        assignments: r.fields.filter(assigns()).map_values(assignment_of()),
        permission: permission_of(r),
    }
}

impl WritePlan {
    /// The plan of an insert request; the request has at least one field.
    pub fn from_insert_request(request: &MetadataQueryRequest) -> (r: WritePlan)
        requires
            request.fields@.len() > 0,
        ensures
            r@ == write_plan_of(request@, StatementType::INSERT),
    {
        Self::from_request(request, StatementType::INSERT)
    }

    /// The plan of an update request; the request has at least one field.
    pub fn from_update_request(request: &MetadataQueryRequest) -> (r: WritePlan)
        requires
            request.fields@.len() > 0,
        ensures
            r@ == write_plan_of(request@, StatementType::UPDATE),
    {
        Self::from_request(request, StatementType::UPDATE)
    }

    fn from_request(request: &MetadataQueryRequest, expected: StatementType) -> (r: WritePlan)
        requires
            request.fields@.len() > 0,
        ensures
            r@ == write_plan_of(request@, expected),
    {
        let ghost fs = request@.fields;
        let mut assignments: Vec<WriteAssignmentPlan> = Vec::new();
        proof {
            lemma_filter_empty(fs.take(0), assigns());
            assert(assignments@.map_values(|a: WriteAssignmentPlan| a@) =~= fs.take(0).filter(assigns()).map_values(assignment_of()));
        }
        let n = request.fields.len();
        let mut i: usize = 0;
        while i < n
            invariant
                n == request.fields@.len(),
                fs == request@.fields,
                i <= n,
                assignments@.map_values(|a: WriteAssignmentPlan| a@) == fs.take(i as int).filter(assigns()).map_values(assignment_of()),
            decreases n - i,
        {
            let ghost fm = fs[i as int];
            assert(fm == request.fields@[i as int]@);
            proof {
                lemma_filter_take(fs, assigns(), i as int);
            }
            match write_assignment_from_field(&request.fields[i]) {
                Some(a) => {
                    let ghost before = assignments@;
                    assignments.push(a);
                    proof {
                        lemma_map_push(fs.take(i as int).filter(assigns()), fm, assignment_of());
                        assert(assignments@.map_values(|a: WriteAssignmentPlan| a@)
                            =~= before.map_values(|a: WriteAssignmentPlan| a@).push(assignment_of()(fm)));
                    }
                },
                None => {},
            }
            i = i + 1;
        }
        proof {
            assert(fs.take(n as int) =~= fs);
        }
        WritePlan {
            source_request: request.duplicate(),
            statement_type: expected,
            table: main_table_name(request),
            target_id: request.options.id,
            assignments,
            permission: PermissionPlan::from_request(request),
        }
    }
}

/// The plan of a delete.
#[derive(Debug, Clone, PartialEq)]
pub struct DeletePlan {
    pub source_request: MetadataQueryRequest,
    pub table: String,
    pub target_id: Option<MetadataId>,
    pub filters: Vec<MetadataFilterExpr>,
    pub permission: PermissionPlan,
}

/// The model of a [`DeletePlan`].
pub struct DeletePlanModel {
    pub source_request: RequestModel,
    pub table: Seq<char>,
    pub target_id: Option<MetadataId>,
    pub filters: Seq<FilterExprModel>,
    pub permission: PermissionModel,
}

impl View for DeletePlan {
    type V = DeletePlanModel;

    open spec fn view(&self) -> DeletePlanModel {
        DeletePlanModel {
            source_request: self.source_request@,
            table: self.table@,
            target_id: self.target_id,
            filters: filter_exprs_model(self.filters@),
            permission: self.permission@,
        }
    }
}

/// The delete plan of a request.
pub open spec fn delete_plan_of(r: RequestModel) -> DeletePlanModel {
    DeletePlanModel {
        source_request: r,
        table: request_table(r),
        target_id: r.options.id,
        filters: r.filters,
        permission: permission_of(r),
    }
}

impl DeletePlan {
    /// The plan of a delete request; the request has at least one field.
    pub fn from_request(request: &MetadataQueryRequest) -> (r: DeletePlan)
        requires
            request.fields@.len() > 0,
        ensures
            r@ == delete_plan_of(request@),
    {
        DeletePlan {
            source_request: request.duplicate(),
            table: main_table_name(request),
            target_id: request.options.id,
            filters: duplicate_filter_exprs(&request.filters),
            permission: PermissionPlan::from_request(request),
        }
    }
}

} // verus!
