//! The statements each kind of plan runs, previewed without touching a database.

use vstd::prelude::*;

use super::helpers::{
    build_create_queries, build_insert_from_row, create_if_missing_text, dialect_for, dialect_of,
    is_custom_kind_error, row_insert,
};
use super::ExecutionError;
use crate::engine::builders::insert_text;
use crate::engine::{AnyDialect, BuiltQuery};
use crate::metadata::{MetaDatasource, MetadataCatalog};
use crate::metadata_driver::driver::{driver_query, driver_ready};
use crate::metadata_driver::MetadataSqlDriver;
use crate::metadata_mapping::mapper::{catalog_rows, mapping_count};
use crate::metadata_mapping::MetadataPersistenceMapper;
use crate::metadata_plan::{DeletePlan, QueryPlan, SchemaPlan, WritePlan};
use crate::value::values_model;

verus! {

pub struct QueryPlanExecutor;

pub struct WritePlanExecutor;

pub struct DeletePlanExecutor;

pub struct SchemaPlanExecutor;

pub struct MetadataCatalogExecutor;

/// Whether `r` is what the driver builds for `request` on `datasource`: the request's
/// SQL and parameters in the datasource's dialect, or the planning error of a custom kind.
pub open spec fn is_request_preview(
    r: Result<BuiltQuery, ExecutionError>,
    datasource: MetaDatasource,
    request: crate::metadata::query::RequestModel,
) -> bool {
    match r {
        Ok(b) => dialect_of(datasource.database_kind) matches Some(d) && {
            &&& b.sql@ == driver_query(d, request).0
            &&& values_model(b.params@) == driver_query(d, request).1
        },
        Err(e) => dialect_of(datasource.database_kind) is None && is_custom_kind_error(e, datasource.database_kind),
    }
}

/// The SQL and parameters of `request` in the dialect of `datasource`.
fn preview_request(datasource: &MetaDatasource, request: &crate::metadata::MetadataQueryRequest) -> (r: Result<BuiltQuery, ExecutionError>)
    requires
        driver_ready(request@),
    ensures
        is_request_preview(r, *datasource, request@),
{
    let dialect = match dialect_for(&datasource.database_kind) {
        Ok(d) => d,
        Err(e) => return Err(e),
    };
    let driver = MetadataSqlDriver::new(request.duplicate());
    Ok(driver.build(&dialect))
}

impl QueryPlanExecutor {
    /// The select of the plan's request, as the datasource would run it.
    pub fn preview(&self, datasource: &MetaDatasource, plan: &QueryPlan) -> (r: Result<BuiltQuery, ExecutionError>)
        requires
            driver_ready(plan.source_request@),
        ensures
            is_request_preview(r, *datasource, plan.source_request@),
    {
        preview_request(datasource, &plan.source_request)
    }
}

impl WritePlanExecutor {
    /// The insert or update of the plan's request, as the datasource would run it.
    pub fn preview(&self, datasource: &MetaDatasource, plan: &WritePlan) -> (r: Result<BuiltQuery, ExecutionError>)
        requires
            driver_ready(plan.source_request@),
        ensures
            is_request_preview(r, *datasource, plan.source_request@),
    {
        preview_request(datasource, &plan.source_request)
    }
}

impl DeletePlanExecutor {
    /// The delete of the plan's request, as the datasource would run it.
    pub fn preview(&self, datasource: &MetaDatasource, plan: &DeletePlan) -> (r: Result<BuiltQuery, ExecutionError>)
        requires
            driver_ready(plan.source_request@),
        ensures
            is_request_preview(r, *datasource, plan.source_request@),
    {
        preview_request(datasource, &plan.source_request)
    }
}

impl SchemaPlanExecutor {
    /// The `CREATE TABLE IF NOT EXISTS` statements of the plan's tables.
    pub fn preview(&self, datasource: &MetaDatasource, plan: &SchemaPlan) -> (r: Result<Vec<BuiltQuery>, ExecutionError>)
        ensures
            match r {
                Ok(queries) => {
                    &&& dialect_of(datasource.database_kind) is Some
                    &&& queries@.len() == plan.tables@.len()
                    &&& forall|i: int| 0 <= i < queries@.len() ==> {
                        &&& (#[trigger] queries@[i]).sql@ == create_if_missing_text(plan.tables@[i]@)
                        &&& queries@[i].params@.len() == 0
                    }
                },
                Err(e) => dialect_of(datasource.database_kind) is None && is_custom_kind_error(e, datasource.database_kind),
            },
    {
        build_create_queries(datasource, plan)
    }
}

/// Whether `q` is the insert of the catalog row `row` in dialect `d`.
pub open spec fn is_row_insert(q: BuiltQuery, d: AnyDialect, row: crate::metadata_mapping::snapshot::RowModel) -> bool {
    &&& q.sql@ == insert_text(d, row_insert(row.table, row.values)).0
    &&& values_model(q.params@) == insert_text(d, row_insert(row.table, row.values)).1
}

impl MetadataCatalogExecutor {
    /// The inserts of every row of the catalog, in order. The mappings of all import
    /// profiles are numbered from 1, so there are fewer of them than the largest `i64`.
    pub fn preview(&self, datasource: &MetaDatasource, catalog: &MetadataCatalog) -> (r: Result<Vec<BuiltQuery>, ExecutionError>)
        requires
            mapping_count(catalog.import_profiles@) < i64::MAX,
        ensures
            match r {
                Ok(queries) => dialect_of(datasource.database_kind) matches Some(d) && {
                    &&& queries@.len() == catalog_rows(*catalog).len()
                    &&& forall|i: int| 0 <= i < queries@.len() ==> is_row_insert(#[trigger] queries@[i], d, catalog_rows(*catalog)[i])
                },
                Err(e) => dialect_of(datasource.database_kind) is None && is_custom_kind_error(e, datasource.database_kind),
            },
    {
        let snapshot = MetadataPersistenceMapper::snapshot_from_catalog(catalog);
        let dialect = match dialect_for(&datasource.database_kind) {
            Ok(d) => d,
            Err(e) => return Err(e),
        };
        let ghost rows = catalog_rows(*catalog);
        let mut queries: Vec<BuiltQuery> = Vec::new();
        let n = snapshot.rows.len();
        let mut i: usize = 0;
        while i < n
            invariant
                n == snapshot.rows@.len(),
                rows == catalog_rows(*catalog),
                crate::metadata_mapping::snapshot::rows_model(snapshot.rows@) == rows,
                i <= n,
                queries@.len() == i,
                forall|j: int| 0 <= j < i ==> is_row_insert(#[trigger] queries@[j], dialect, rows[j]),
            decreases n - i,
        {
            let row = &snapshot.rows[i];
            assert(rows[i as int] == row@);
            queries.push(build_insert_from_row(row.table.as_str(), row.values.as_slice(), &dialect));
            i = i + 1;
        }
        Ok(queries)
    }
}

} // verus!
