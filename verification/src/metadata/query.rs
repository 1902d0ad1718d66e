//! Metadata query requests and their options.

use vstd::prelude::*;

use super::common::MetadataId;
use super::field::{duplicate_fields, fields_model, FieldModel, MetadataField};
use super::filters::{duplicate_filter_exprs, filter_exprs_model, FilterExprModel, MetadataFilterExpr};
use crate::engine::ddl::option_view;
use crate::sql::StatementType;
use crate::metadata::field::copy_option_string;

verus! {

/// What a request targets and on whose behalf.
#[derive(Debug, Clone, PartialEq)]
pub struct MetadataQueryOptions {
    /// The row the request is about, if any.
    pub id: Option<MetadataId>,
    /// The position in the fields' capability masks that this request checks.
    pub mask_index: usize,
    /// Whether a select groups by its dimensions.
    pub grouped: bool,
    /// A row filter in raw SQL, added to every read, update and delete.
    pub table_filter: Option<String>,
    pub client_id: MetadataId,
    pub org_id: MetadataId,
}

/// The model of [`MetadataQueryOptions`].
pub struct OptionsModel {
    pub id: Option<MetadataId>,
    pub mask_index: usize,
    pub grouped: bool,
    pub table_filter: Option<Seq<char>>,
    pub client_id: MetadataId,
    pub org_id: MetadataId,
}

impl View for MetadataQueryOptions {
    type V = OptionsModel;

    open spec fn view(&self) -> OptionsModel {
        OptionsModel {
            id: self.id,
            mask_index: self.mask_index,
            grouped: self.grouped,
            table_filter: option_view(self.table_filter),
            client_id: self.client_id,
            org_id: self.org_id,
        }
    }
}

/// The options a request starts with: no row, mask position 0, not grouped, no row
/// filter, client 37 and organisation 27.
pub open spec fn default_options() -> OptionsModel {
    OptionsModel { id: None, mask_index: 0, grouped: false, table_filter: None, client_id: 37, org_id: 27 }
}

impl Default for MetadataQueryOptions {
    fn default() -> (r: MetadataQueryOptions)
        ensures
            r@ == default_options(),
    {
        MetadataQueryOptions { id: None, mask_index: 0, grouped: false, table_filter: None, client_id: 37, org_id: 27 }
    }
}

impl MetadataQueryOptions {
    pub fn duplicate(&self) -> (r: MetadataQueryOptions)
        ensures
            r@ == self@,
    {
        MetadataQueryOptions {
            id: self.id,
            mask_index: self.mask_index,
            grouped: self.grouped,
            table_filter: copy_option_string(&self.table_filter),
            client_id: self.client_id,
            org_id: self.org_id,
        }
    }
}

/// A request to read or write rows described by metadata fields.
#[derive(Debug, Clone, PartialEq)]
pub struct MetadataQueryRequest {
    pub user_id: MetadataId,
    pub statement_type: StatementType,
    pub fields: Vec<MetadataField>,
    pub options: MetadataQueryOptions,
    pub filters: Vec<MetadataFilterExpr>,
    pub having: Vec<MetadataFilterExpr>,
}

/// The model of a [`MetadataQueryRequest`].
pub struct RequestModel {
    pub user_id: MetadataId,
    pub statement_type: StatementType,
    pub fields: Seq<FieldModel>,
    pub options: OptionsModel,
    pub filters: Seq<FilterExprModel>,
    pub having: Seq<FilterExprModel>,
}

impl View for MetadataQueryRequest {
    type V = RequestModel;

    open spec fn view(&self) -> RequestModel {
        RequestModel {
            user_id: self.user_id,
            statement_type: self.statement_type,
            fields: fields_model(self.fields@),
            options: self.options@,
            filters: filter_exprs_model(self.filters@),
            having: filter_exprs_model(self.having@),
        }
    }
}

impl MetadataQueryRequest {
    /// A request with the default options and no filters.
    pub fn new(user_id: MetadataId, statement_type: StatementType, fields: Vec<MetadataField>) -> (r: MetadataQueryRequest)
        ensures
            r@ == (RequestModel {
                user_id,
                statement_type,
                fields: fields_model(fields@),
                options: default_options(),
                filters: Seq::empty(),
                having: Seq::empty(),
            }),
    {
        let r = MetadataQueryRequest {
            user_id,
            statement_type,
            fields,
            options: MetadataQueryOptions::default(),
            filters: Vec::new(),
            having: Vec::new(),
        };
        assert(r@.filters =~= Seq::<FilterExprModel>::empty());
        assert(r@.having =~= Seq::<FilterExprModel>::empty());
        r
    }

    pub fn with_options(self, options: MetadataQueryOptions) -> (r: MetadataQueryRequest)
        ensures
            r@ == (RequestModel { options: options@, ..self@ }),
    {
        let mut q = self;
        q.options = options;
        q
    }

    pub fn with_filters(self, filters: Vec<MetadataFilterExpr>) -> (r: MetadataQueryRequest)
        ensures
            r@ == (RequestModel { filters: filter_exprs_model(filters@), ..self@ }),
    {
        let mut q = self;
        q.filters = filters;
        q
    }

    pub fn with_having(self, filters: Vec<MetadataFilterExpr>) -> (r: MetadataQueryRequest)
        ensures
            r@ == (RequestModel { having: filter_exprs_model(filters@), ..self@ }),
    {
        let mut q = self;
        q.having = filters;
        q
    }

    /// A copy of this request.
    pub fn duplicate(&self) -> (r: MetadataQueryRequest)
        ensures
            r@ == self@,
    {
        MetadataQueryRequest {
            user_id: self.user_id,
            statement_type: self.statement_type,
            fields: duplicate_fields(&self.fields),
            options: self.options.duplicate(),
            filters: duplicate_filter_exprs(&self.filters),
            having: duplicate_filter_exprs(&self.having),
        }
    }
}

} // verus!
