//! The plan of a metadata select.

use vstd::prelude::*;

use super::permission::{allowed_by, output_name_of, permission_of, PermissionModel, PermissionPlan};
use crate::metadata::field::{
    field_output_name, option_lookup_view, FieldModel, FieldSourceModel, LinkModel, LookupModel,
};
use crate::metadata::filters::{duplicate_filter_exprs, filter_exprs_model, FilterExprModel};
use crate::metadata::query::RequestModel;
use crate::metadata::{
    FieldSource, LinkReference, LookupReference, MetadataFilterExpr, MetadataId, MetadataQueryRequest,
    SortDirection,
};
use crate::text::{copy_string, lemma_filter_empty, lemma_filter_take, lemma_map_push};

verus! {

/// One output column of a select.
#[derive(Debug, Clone, PartialEq)]
pub struct ProjectionPlan {
    pub output_name: String,
    pub source: FieldSource,
    pub lookup: Option<LookupReference>,
}

/// The model of a [`ProjectionPlan`].
pub struct ProjectionModel {
    pub output_name: Seq<char>,
    pub source: FieldSourceModel,
    pub lookup: Option<LookupModel>,
}

impl View for ProjectionPlan {
    type V = ProjectionModel;

    open spec fn view(&self) -> ProjectionModel {
        ProjectionModel { output_name: self.output_name@, source: self.source@, lookup: option_lookup_view(self.lookup) }
    }
}

/// One sort of a select.
#[derive(Debug, Clone, PartialEq, Eq)]
pub struct SortPlan {
    pub field_name: String,
    pub direction: SortDirection,
}

/// The model of a [`SortPlan`].
pub struct SortModel {
    pub field_name: Seq<char>,
    pub direction: SortDirection,
}

impl View for SortPlan {
    type V = SortModel;

    open spec fn view(&self) -> SortModel {
        SortModel { field_name: self.field_name@, direction: self.direction }
    }
}

/// One linked field of a select.
#[derive(Debug, Clone, PartialEq, Eq)]
pub struct RelationPlan {
    pub output_name: String,
    pub link: LinkReference,
}

/// The model of a [`RelationPlan`].
pub struct RelationPlanModel {
    pub output_name: Seq<char>,
    pub link: LinkModel,
}

impl View for RelationPlan {
    type V = RelationPlanModel;

    open spec fn view(&self) -> RelationPlanModel {
        RelationPlanModel { output_name: self.output_name@, link: self.link@ }
    }
}

/// The plan of a select: its table, outputs, joins, filters, sorts and permission.
#[derive(Debug, Clone, PartialEq)]
pub struct QueryPlan {
    pub source_request: MetadataQueryRequest,
    pub table: String,
    pub table_alias: String,
    pub target_id: Option<MetadataId>,
    pub grouped: bool,
    pub projections: Vec<ProjectionPlan>,
    pub relations: Vec<RelationPlan>,
    pub filters: Vec<MetadataFilterExpr>,
    pub having: Vec<MetadataFilterExpr>,
    pub sorts: Vec<SortPlan>,
    pub permission: PermissionPlan,
}

/// The model of a [`QueryPlan`].
pub struct QueryPlanModel {
    pub source_request: RequestModel,
    pub table: Seq<char>,
    pub table_alias: Seq<char>,
    pub target_id: Option<MetadataId>,
    pub grouped: bool,
    pub projections: Seq<ProjectionModel>,
    pub relations: Seq<RelationPlanModel>,
    pub filters: Seq<FilterExprModel>,
    pub having: Seq<FilterExprModel>,
    pub sorts: Seq<SortModel>,
    pub permission: PermissionModel,
}

impl View for QueryPlan {
    type V = QueryPlanModel;

    open spec fn view(&self) -> QueryPlanModel {
        QueryPlanModel {
            source_request: self.source_request@,
            table: self.table@,
            table_alias: self.table_alias@,
            target_id: self.target_id,
            grouped: self.grouped,
            projections: self.projections@.map_values(|p: ProjectionPlan| p@),
            relations: self.relations@.map_values(|p: RelationPlan| p@),
            filters: filter_exprs_model(self.filters@),
            having: filter_exprs_model(self.having@),
            sorts: self.sorts@.map_values(|p: SortPlan| p@),
            permission: self.permission@,
        }
    }
}

/// The table a request reads: the first field's real table, else its current table.
pub open spec fn request_table(r: RequestModel) -> Seq<char> {
    match r.fields[0].real_table {
        Some(t) => t,
        None => r.fields[0].current_table,
    }
}

/// The projection of a field.
pub open spec fn projection_of() -> spec_fn(FieldModel) -> ProjectionModel {
    |f: FieldModel| ProjectionModel { output_name: field_output_name(f), source: f.source, lookup: f.lookup }
}

/// The linked fields granted at `mask_index`.
pub open spec fn linked_by(mask_index: usize) -> spec_fn(FieldModel) -> bool {
    |f: FieldModel| f.source is Linked && super::permission::field_allowed(f, mask_index)
}

/// The relation of a linked field.
pub open spec fn relation_of() -> spec_fn(FieldModel) -> RelationPlanModel {
    |f: FieldModel| RelationPlanModel {
        output_name: field_output_name(f),
        link: match f.source {
            FieldSourceModel::Linked(l) => l,
            _ => LinkModel { steps: Seq::empty(), target_column: Seq::empty() },
        },
    }
}

/// The fields with a sort.
pub open spec fn sorted() -> spec_fn(FieldModel) -> bool {
    |f: FieldModel| f.sort is Some
}

/// The sort of a field with a sort.
pub open spec fn sort_of() -> spec_fn(FieldModel) -> SortModel {
    |f: FieldModel| SortModel {
        field_name: field_output_name(f),
        direction: match f.sort {
            Some(d) => d,
            None => SortDirection::Asc,
        },
    }
}

/// The plan of a select request: the granted fields become projections, the granted
/// linked fields become relations, the fields with a sort become sorts (granted or not),
/// and the filters are carried over.
pub open spec fn query_plan_of(r: RequestModel) -> QueryPlanModel {
    QueryPlanModel {
        source_request: r,
        table: request_table(r),
        table_alias: r.fields[0].current_table,
        target_id: r.options.id,
        grouped: r.options.grouped,
        projections: r.fields.filter(allowed_by(r.options.mask_index)).map_values(projection_of()),
        relations: r.fields.filter(linked_by(r.options.mask_index)).map_values(relation_of()),
        filters: r.filters,
        having: r.having,
        sorts: r.fields.filter(sorted()).map_values(sort_of()),
        permission: permission_of(r),
    }
}

/// The table a request reads.
pub fn main_table_name(request: &MetadataQueryRequest) -> (r: String)
    requires
        request.fields@.len() > 0,
    ensures
        r@ == request_table(request@),
{
    let f = &request.fields[0];
    match &f.real_table {
        Some(t) => copy_string(t),
        None => copy_string(&f.current_table),
    }
}

impl QueryPlan {
    /// The plan of a select request; the request has at least one field, the first
    /// of which names the table.
    pub fn from_request(request: &MetadataQueryRequest) -> (r: QueryPlan)
        requires
            request.fields@.len() > 0,
        ensures
            r@ == query_plan_of(request@),
    {
        let ghost fs = request@.fields;
        let k = request.options.mask_index;
        let mut projections: Vec<ProjectionPlan> = Vec::new();
        let mut relations: Vec<RelationPlan> = Vec::new();
        let mut sorts: Vec<SortPlan> = Vec::new();
        proof {
            lemma_filter_empty(fs.take(0), allowed_by(k));
            lemma_filter_empty(fs.take(0), linked_by(k));
            lemma_filter_empty(fs.take(0), sorted());
            assert(projections@.map_values(|p: ProjectionPlan| p@) =~= fs.take(0).filter(allowed_by(k)).map_values(projection_of()));
            assert(relations@.map_values(|p: RelationPlan| p@) =~= fs.take(0).filter(linked_by(k)).map_values(relation_of()));
            assert(sorts@.map_values(|p: SortPlan| p@) =~= fs.take(0).filter(sorted()).map_values(sort_of()));
        }
        let n = request.fields.len();
        let mut i: usize = 0;
        while i < n
            invariant
                n == request.fields@.len(),
                fs == request@.fields,
                k == request.options.mask_index,
                i <= n,
                projections@.map_values(|p: ProjectionPlan| p@) == fs.take(i as int).filter(allowed_by(k)).map_values(projection_of()),
                relations@.map_values(|p: RelationPlan| p@) == fs.take(i as int).filter(linked_by(k)).map_values(relation_of()),
                sorts@.map_values(|p: SortPlan| p@) == fs.take(i as int).filter(sorted()).map_values(sort_of()),
            decreases n - i,
        {
            let field = &request.fields[i];
            let ghost fm = fs[i as int];
            assert(fm == field@);
            proof {
                lemma_filter_take(fs, allowed_by(k), i as int);
                lemma_filter_take(fs, linked_by(k), i as int);
                lemma_filter_take(fs, sorted(), i as int);
            }
            let allowed = field.access.allows(k);
            if allowed {
                let p = ProjectionPlan {
                    output_name: field.output_name(),
                    source: field.source.duplicate(),
                    lookup: match &field.lookup {
                        Some(l) => Some(l.duplicate()),
                        None => None,
                    },
                };
                let ghost before = projections@;
                projections.push(p);
                proof {
                    lemma_map_push(fs.take(i as int).filter(allowed_by(k)), fm, projection_of());
                    assert(projections@.map_values(|p: ProjectionPlan| p@)
                        =~= before.map_values(|p: ProjectionPlan| p@).push(projection_of()(fm)));
                }
                match &field.source {
                    FieldSource::Linked(link) => {
                        let rp = RelationPlan { output_name: field.output_name(), link: link.duplicate() };
                        let ghost before_r = relations@;
                        relations.push(rp);
                        proof {
                            lemma_map_push(fs.take(i as int).filter(linked_by(k)), fm, relation_of());
                            assert(relations@.map_values(|p: RelationPlan| p@)
                                =~= before_r.map_values(|p: RelationPlan| p@).push(relation_of()(fm)));
                        }
                    },
                    _ => {},
                }
            }
            match field.sort {
                Some(direction) => {
                    let sp = SortPlan { field_name: field.output_name(), direction };
                    let ghost before_s = sorts@;
                    sorts.push(sp);
                    proof {
                        lemma_map_push(fs.take(i as int).filter(sorted()), fm, sort_of());
                        assert(sorts@.map_values(|p: SortPlan| p@)
                            =~= before_s.map_values(|p: SortPlan| p@).push(sort_of()(fm)));
                    }
                },
                None => {},
            }
            i = i + 1;
        }
        proof {
            assert(fs.take(n as int) =~= fs);
        }
        let table = main_table_name(request);
        QueryPlan {
            source_request: request.duplicate(),
            table,
            table_alias: copy_string(&request.fields[0].current_table),
            target_id: request.options.id,
            grouped: request.options.grouped,
            projections,
            relations,
            filters: duplicate_filter_exprs(&request.filters),
            having: duplicate_filter_exprs(&request.having),
            sorts,
            permission: PermissionPlan::from_request(request),
        }
    }
}

} // verus!
