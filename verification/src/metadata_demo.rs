//! A small sales schema on SQLite, and the order requests that read, import, update and
//! delete its orders.

use vstd::prelude::*;

use crate::metadata::common::mask_bits;
use crate::metadata::field::{fields_model, FieldModel, FieldSourceModel, LinkModel, LinkStepModel, LookupModel};
use crate::metadata::filters::{FilterExprModel, FilterModel};
use crate::metadata::query::{default_options, OptionsModel, RequestModel};
use crate::metadata::schema::{ColumnSchemaModel, TableSchemaModel, table_schemas_model};
use crate::metadata::{
    DatabaseKind, FieldInputKind, FieldSource, LinkReference, LinkStep, MetaDatasource, MetadataColumnSchema,
    MetadataColumnType, MetadataField, MetadataFilterExpr, MetadataQueryOptions, MetadataQueryRequest,
    MetadataTableSchema, SortDirection,
};
use crate::sql::StatementType;
use crate::text::{int_text, owned, string_list1};
use crate::value::{Value, ValueModel};

verus! {

/// The connection options of the demo datasource: a single connection.
pub open spec fn demo_datasource_options() -> ValueModel {
    ValueModel::Object(seq![("max_connections"@, ValueModel::Number(int_text(1)))])
}

/// The in-memory SQLite datasource the demo runs on.
pub fn sqlite_demo_datasource() -> (r: MetaDatasource)
    ensures
        r.id == 1,
        r.code@ == "sqlite_demo"@,
        r.name@ == "SQLite Demo Datasource"@,
        r.database_kind == DatabaseKind::Sqlite,
        r.connection_uri@ == "sqlite::memory:"@,
        r.default_schema is None,
        r.enabled,
        r.options@ == demo_datasource_options(),
{
    let mut entries: Vec<(String, Value)> = Vec::new();
    entries.push((owned("max_connections"), Value::from_i64(1)));
    let options = Value::Object(entries);
    proof {
        crate::value::lemma_object_view(entries);
        assert(crate::value::entries_model(entries@) =~= seq![("max_connections"@, ValueModel::Number(int_text(1)))]);
    }
    MetaDatasource::new(1, "sqlite_demo", "SQLite Demo Datasource", DatabaseKind::Sqlite, "sqlite::memory:")
        .with_options(options)
}

/// A column that may not be null, without default.
pub open spec fn required_column(name: Seq<char>, column_type: MetadataColumnType) -> ColumnSchemaModel {
    ColumnSchemaModel { name, column_type, nullable: false, unique: false, default_raw: None }
}

/// A table keyed by its `id` column.
pub open spec fn id_keyed_table(name: Seq<char>, columns: Seq<ColumnSchemaModel>) -> TableSchemaModel {
    TableSchemaModel { name, columns, primary_key: seq!["id"@], unique_keys: Seq::empty(), foreign_keys: Seq::empty() }
}

/// The schemas of the demo stores, customers and sale orders.
pub open spec fn demo_sales_tables() -> Seq<TableSchemaModel> {
    seq![
        id_keyed_table("demo_store"@, seq![
            required_column("id"@, MetadataColumnType::BigInt),
            required_column("name"@, MetadataColumnType::Varchar(64)),
            required_column("region"@, MetadataColumnType::Varchar(64)),
        ]),
        id_keyed_table("demo_customer"@, seq![
            required_column("id"@, MetadataColumnType::BigInt),
            required_column("name"@, MetadataColumnType::Varchar(64)),
            required_column("level"@, MetadataColumnType::Varchar(32)),
            required_column("enabled"@, MetadataColumnType::Varchar(8)),
        ]),
        id_keyed_table("demo_sale_order"@, seq![
            required_column("id"@, MetadataColumnType::BigInt),
            required_column("ad_client_id"@, MetadataColumnType::BigInt),
            required_column("ad_org_id"@, MetadataColumnType::BigInt),
            required_column("ownerid"@, MetadataColumnType::BigInt),
            required_column("modifiered"@, MetadataColumnType::BigInt),
            ColumnSchemaModel { default_raw: Some("0"@), ..required_column("modifierid"@, MetadataColumnType::BigInt) },
            required_column("creationdate"@, MetadataColumnType::DateTime),
            required_column("modifieddate"@, MetadataColumnType::DateTime),
            required_column("code"@, MetadataColumnType::Varchar(64)),
            required_column("store_id"@, MetadataColumnType::BigInt),
            required_column("customer_id"@, MetadataColumnType::BigInt),
            required_column("status"@, MetadataColumnType::Varchar(32)),
            required_column("total_amount"@, MetadataColumnType::Decimal { precision: 18, scale: 2 }),
            required_column("tenant_id"@, MetadataColumnType::BigInt),
            required_column("enabled"@, MetadataColumnType::Varchar(8)),
        ]),
    ]
}

fn required(name: &str, column_type: MetadataColumnType) -> (r: MetadataColumnSchema)
    ensures
        r@ == required_column(name@, column_type),
{
    MetadataColumnSchema::new(name, column_type).not_null()
}

fn store_table() -> (r: MetadataTableSchema)
    ensures
        r@ == demo_sales_tables()[0],
{
    let r = MetadataTableSchema::new("demo_store")
        .column(required("id", MetadataColumnType::BigInt))
        .column(required("name", MetadataColumnType::Varchar(64)))
        .column(required("region", MetadataColumnType::Varchar(64)))
        .primary_key(string_list1("id"));
    assert(r@.columns =~= demo_sales_tables()[0].columns);
    r
}

fn customer_table() -> (r: MetadataTableSchema)
    ensures
        r@ == demo_sales_tables()[1],
{
    let r = MetadataTableSchema::new("demo_customer")
        .column(required("id", MetadataColumnType::BigInt))
        .column(required("name", MetadataColumnType::Varchar(64)))
        .column(required("level", MetadataColumnType::Varchar(32)))
        .column(required("enabled", MetadataColumnType::Varchar(8)))
        .primary_key(string_list1("id"));
    assert(r@.columns =~= demo_sales_tables()[1].columns);
    r
}

fn sale_order_table() -> (r: MetadataTableSchema)
    ensures
        r@ == demo_sales_tables()[2],
{
    let r = MetadataTableSchema::new("demo_sale_order")
        .column(required("id", MetadataColumnType::BigInt))
        .column(required("ad_client_id", MetadataColumnType::BigInt))
        .column(required("ad_org_id", MetadataColumnType::BigInt))
        .column(required("ownerid", MetadataColumnType::BigInt))
        .column(required("modifiered", MetadataColumnType::BigInt))
        .column(required("modifierid", MetadataColumnType::BigInt).default_raw("0"))
        .column(required("creationdate", MetadataColumnType::DateTime))
        .column(required("modifieddate", MetadataColumnType::DateTime))
        .column(required("code", MetadataColumnType::Varchar(64)))
        .column(required("store_id", MetadataColumnType::BigInt))
        .column(required("customer_id", MetadataColumnType::BigInt))
        .column(required("status", MetadataColumnType::Varchar(32)))
        .column(required("total_amount", MetadataColumnType::Decimal { precision: 18, scale: 2 }))
        .column(required("tenant_id", MetadataColumnType::BigInt))
        .column(required("enabled", MetadataColumnType::Varchar(8)))
        .primary_key(string_list1("id"));
    assert(r@.columns =~= demo_sales_tables()[2].columns);
    r
}

/// The demo stores, customers and sale orders, each keyed by `id`.
pub fn demo_sales_table_schemas() -> (r: Vec<MetadataTableSchema>)
    ensures
        table_schemas_model(r@) == demo_sales_tables(),
{
    let mut r: Vec<MetadataTableSchema> = Vec::new();
    r.push(store_table());
    r.push(customer_table());
    r.push(sale_order_table());
    assert(table_schemas_model(r@) =~= demo_sales_tables());
    r
}

/// A field of the sale order table reading `source`, with every other attribute at its default.
pub open spec fn order_field(source: FieldSourceModel) -> FieldModel {
    FieldModel {
        field_id: 0,
        current_table: "demo_sale_order"@,
        real_table: None,
        source,
        access: Seq::empty(),
        nullable: false,
        input_kind: FieldInputKind::Text,
        sequence_name: None,
        default_value: None,
        value: None,
        sort: None,
        output_alias: None,
        lookup: None,
    }
}

/// A field granted the first capability.
pub open spec fn granted(f: FieldModel) -> FieldModel {
    FieldModel { access: mask_bits("1"@), ..f }
}

/// A field output under `alias`.
pub open spec fn aliased(f: FieldModel, alias: Seq<char>) -> FieldModel {
    FieldModel { output_alias: Some(alias), ..f }
}

/// A field carrying `value`.
pub open spec fn valued(f: FieldModel, value: ValueModel) -> FieldModel {
    FieldModel { value: Some(value), ..f }
}

/// The name of a table that the sale order links to through `foreign_key`.
pub open spec fn linked_name(foreign_key: Seq<char>, table: Seq<char>) -> FieldSourceModel {
    FieldSourceModel::Linked(LinkModel {
        steps: seq![LinkStepModel { foreign_key, table }],
        target_column: "name"@,
    })
}

/// What an order listing shows: id, code (sorted ascending), status, total, store and
/// customer names.
pub open spec fn order_listing_fields() -> Seq<FieldModel> {
    seq![
        order_field(FieldSourceModel::Column("id"@)),
        FieldModel {
            sort: Some(SortDirection::Asc),
            ..aliased(granted(order_field(FieldSourceModel::Column("code"@))), "order_code"@)
        },
        aliased(granted(order_field(FieldSourceModel::Column("status"@))), "status"@),
        aliased(granted(order_field(FieldSourceModel::Column("total_amount"@))), "total_amount"@),
        aliased(granted(order_field(linked_name("store_id"@, "demo_store"@))), "store_name"@),
        aliased(granted(order_field(linked_name("customer_id"@, "demo_customer"@))), "customer_name"@),
    ]
}

/// The default options restricted to tenant 37.
pub open spec fn tenant_options(id: Option<i64>) -> OptionsModel {
    OptionsModel { id, table_filter: Some("tenant_id = 37"@), ..default_options() }
}

/// The `demo_sale_order.enabled = 'Y'` condition.
pub open spec fn enabled_filter() -> FilterExprModel {
    FilterExprModel::Field { field: "demo_sale_order.enabled"@, filter: FilterModel::Eq(ValueModel::Text("Y"@)) }
}

/// The order query: open or approved orders of 100 to 500, enabled, of tenant 37.
pub open spec fn order_query() -> RequestModel {
    RequestModel {
        user_id: 893,
        statement_type: StatementType::SELECT,
        fields: order_listing_fields(),
        options: tenant_options(None),
        filters: seq![FilterExprModel::And(seq![
            FilterExprModel::Or(seq![
                FilterExprModel::Field { field: "status"@, filter: FilterModel::Eq(ValueModel::Text("OPEN"@)) },
                FilterExprModel::Field { field: "status"@, filter: FilterModel::Eq(ValueModel::Text("APPROVED"@)) },
            ]),
            FilterExprModel::Field {
                field: "total_amount"@,
                filter: FilterModel::Between {
                    lower: ValueModel::Number(int_text(100)),
                    upper: ValueModel::Number(int_text(500)),
                },
            },
            enabled_filter(),
        ])],
        having: Seq::empty(),
    }
}

/// The order export: every enabled order of tenant 37.
pub open spec fn order_export() -> RequestModel {
    RequestModel { filters: seq![enabled_filter()], ..order_query() }
}

fn order_column(column: &str) -> (r: MetadataField)
    ensures
        r@ == order_field(FieldSourceModel::Column(column@)),
{
    MetadataField::new("demo_sale_order", FieldSource::Column(owned(column)))
}

fn linked_name_field(foreign_key: &str, table: &str, alias: &str) -> (r: MetadataField)
    ensures
        r@ == aliased(granted(order_field(linked_name(foreign_key@, table@))), alias@),
{
    let mut steps: Vec<LinkStep> = Vec::new();
    steps.push(LinkStep { foreign_key: owned(foreign_key), table: owned(table) });
    let link = LinkReference { steps, target_column: owned("name") };
    assert(link@.steps =~= seq![LinkStepModel { foreign_key: foreign_key@, table: table@ }]);
    MetadataField::new("demo_sale_order", FieldSource::Linked(link)).with_access("1").with_output_alias(alias)
}

fn order_listing() -> (r: Vec<MetadataField>)
    ensures
        fields_model(r@) == order_listing_fields(),
{
    let mut r: Vec<MetadataField> = Vec::new();
    r.push(order_column("id"));
    r.push(order_column("code").with_access("1").with_sort(SortDirection::Asc).with_output_alias("order_code"));
    r.push(order_column("status").with_access("1").with_output_alias("status"));
    r.push(order_column("total_amount").with_access("1").with_output_alias("total_amount"));
    r.push(linked_name_field("store_id", "demo_store", "store_name"));
    r.push(linked_name_field("customer_id", "demo_customer", "customer_name"));
    assert(fields_model(r@) =~= order_listing_fields());
    r
}

fn tenant_request_options(id: Option<i64>) -> (r: MetadataQueryOptions)
    ensures
        r@ == tenant_options(id),
{
    MetadataQueryOptions { id, table_filter: Some(owned("tenant_id = 37")), ..MetadataQueryOptions::default() }
}

fn enabled_condition() -> (r: MetadataFilterExpr)
    ensures
        r@ == enabled_filter(),
{
    MetadataFilterExpr::eq("demo_sale_order.enabled", Value::text("Y"))
}

/// The listing of open or approved, enabled orders of 100 to 500 of tenant 37.
pub fn order_query_request() -> (r: MetadataQueryRequest)
    ensures
        r@ == order_query(),
{
    let mut statuses: Vec<MetadataFilterExpr> = Vec::new();
    statuses.push(MetadataFilterExpr::eq("status", Value::text("OPEN")));
    statuses.push(MetadataFilterExpr::eq("status", Value::text("APPROVED")));
    assert(crate::metadata::filters::filter_exprs_model(statuses@) =~= seq![statuses@[0]@, statuses@[1]@]);
    let status = MetadataFilterExpr::or(statuses);
    let mut conditions: Vec<MetadataFilterExpr> = Vec::new();
    conditions.push(status);
    conditions.push(MetadataFilterExpr::between("total_amount", Value::from_i64(100), Value::from_i64(500)));
    conditions.push(enabled_condition());
    assert(crate::metadata::filters::filter_exprs_model(conditions@)
        =~= seq![conditions@[0]@, conditions@[1]@, conditions@[2]@]);
    let all = MetadataFilterExpr::and(conditions);
    let mut filters: Vec<MetadataFilterExpr> = Vec::new();
    filters.push(all);
    let r = MetadataQueryRequest::new(893, StatementType::SELECT, order_listing())
        .with_options(tenant_request_options(None))
        .with_filters(filters);
    proof {
        let e = order_query().filters[0];
        assert(crate::metadata::filters::filter_exprs_model(filters@) =~= seq![e]);
    }
    r
}

/// The listing of every enabled order of tenant 37, for export.
pub fn order_export_request() -> (r: MetadataQueryRequest)
    ensures
        r@ == order_export(),
{
    let mut filters: Vec<MetadataFilterExpr> = Vec::new();
    filters.push(enabled_condition());
    let r = MetadataQueryRequest::new(893, StatementType::SELECT, order_listing())
        .with_options(tenant_request_options(None))
        .with_filters(filters);
    assert(crate::metadata::filters::filter_exprs_model(filters@) =~= seq![enabled_filter()]);
    r
}

/// A field of the sale order table, granted, reading `column` and carrying `value`.
pub open spec fn order_value(column: Seq<char>, value: ValueModel) -> FieldModel {
    valued(granted(order_field(FieldSourceModel::Column(column))), value)
}

/// The fields of a new order; the store and customer are given as `store` and `customer`.
pub open spec fn new_order_fields(
    code: Seq<char>,
    store: FieldModel,
    customer: FieldModel,
    total_amount: ValueModel,
    status: Seq<char>,
) -> Seq<FieldModel> {
    seq![
        order_value("code"@, ValueModel::Text(code)),
        store,
        customer,
        order_value("status"@, ValueModel::Text(status)),
        order_value("total_amount"@, total_amount),
        order_value("tenant_id"@, ValueModel::Number(int_text(37))),
        order_value("enabled"@, ValueModel::Text("Y"@)),
    ]
}

/// An insert of `fields` as the order `id`.
pub open spec fn order_insert(id: i64, fields: Seq<FieldModel>) -> RequestModel {
    RequestModel {
        user_id: 893,
        statement_type: StatementType::INSERT,
        fields,
        options: OptionsModel { id: Some(id), ..default_options() },
        filters: Seq::empty(),
        having: Seq::empty(),
    }
}

/// A store looked up by its name.
pub open spec fn looked_up(column: Seq<char>, table: Seq<char>, name: Seq<char>) -> FieldModel {
    FieldModel {
        lookup: Some(LookupModel { table, display_column: "name"@ }),
        input_kind: FieldInputKind::Lookup,
        ..order_value(column, ValueModel::Text(name))
    }
}

fn order_value_field(column: &str, value: Value) -> (r: MetadataField)
    ensures
        r@ == order_value(column@, value@),
{
    order_column(column).with_access("1").with_value(value)
}

fn new_order_fields_of(code: &str, store: MetadataField, customer: MetadataField, total_amount: Value, status: &str) -> (r: Vec<MetadataField>)
    ensures
        fields_model(r@) == new_order_fields(code@, store@, customer@, total_amount@, status@),
{
    let mut r: Vec<MetadataField> = Vec::new();
    r.push(order_value_field("code", Value::text(code)));
    r.push(store);
    r.push(customer);
    r.push(order_value_field("status", Value::text(status)));
    r.push(order_value_field("total_amount", total_amount));
    r.push(order_value_field("tenant_id", Value::from_i64(37)));
    r.push(order_value_field("enabled", Value::text("Y")));
    assert(fields_model(r@) =~= new_order_fields(code@, store@, customer@, total_amount@, status@));
    r
}

fn insert_request_of(id: i64, fields: Vec<MetadataField>) -> (r: MetadataQueryRequest)
    ensures
        r@ == order_insert(id, fields_model(fields@)),
{
    MetadataQueryRequest::new(893, StatementType::INSERT, fields)
        .with_options(MetadataQueryOptions { id: Some(id), ..MetadataQueryOptions::default() })
}

/// The insert of order `id` that names its store and customer by id. The total amount
/// is given as the number value it is bound as.
pub fn direct_order_insert_request(
    id: i64,
    code: &str,
    store_id: i64,
    customer_id: i64,
    total_amount: Value,
    status: &str,
) -> (r: MetadataQueryRequest)
    ensures
        r@ == order_insert(id, new_order_fields(
            code@,
            order_value("store_id"@, ValueModel::Number(int_text(store_id as int))),
            order_value("customer_id"@, ValueModel::Number(int_text(customer_id as int))),
            total_amount@,
            status@,
        )),
{
    let store = order_value_field("store_id", Value::from_i64(store_id));
    let customer = order_value_field("customer_id", Value::from_i64(customer_id));
    insert_request_of(id, new_order_fields_of(code, store, customer, total_amount, status))
}

/// The insert of order `id` that names its store and customer by name, to be looked up.
/// The total amount is given as the number value it is bound as.
pub fn imported_order_insert_request(
    id: i64,
    code: &str,
    store_name: &str,
    customer_name: &str,
    total_amount: Value,
    status: &str,
) -> (r: MetadataQueryRequest)
    ensures
        r@ == order_insert(id, new_order_fields(
            code@,
            looked_up("store_id"@, "demo_store"@, store_name@),
            looked_up("customer_id"@, "demo_customer"@, customer_name@),
            total_amount@,
            status@,
        )),
{
    let store = order_column("store_id").with_access("1").with_lookup("demo_store", "name").with_value(Value::text(store_name));
    let customer = order_column("customer_id").with_access("1").with_lookup("demo_customer", "name").with_value(
        Value::text(customer_name),
    );
    insert_request_of(id, new_order_fields_of(code, store, customer, total_amount, status))
}

/// The update of order `id` of tenant 37 to `status` and `total_amount`.
pub fn order_update_request(id: i64, total_amount: Value, status: &str) -> (r: MetadataQueryRequest)
    ensures
        r@ == (RequestModel {
            user_id: 893,
            statement_type: StatementType::UPDATE,
            fields: seq![
                order_value("status"@, ValueModel::Text(status@)),
                order_value("total_amount"@, total_amount@),
            ],
            options: tenant_options(Some(id)),
            filters: Seq::empty(),
            having: Seq::empty(),
        }),
{
    let mut fields: Vec<MetadataField> = Vec::new();
    fields.push(order_value_field("status", Value::text(status)));
    fields.push(order_value_field("total_amount", total_amount));
    let ghost expected = seq![fields@[0]@, fields@[1]@];
    assert(fields_model(fields@) =~= expected);
    MetadataQueryRequest::new(893, StatementType::UPDATE, fields).with_options(tenant_request_options(Some(id)))
}

/// The delete of order `id` of tenant 37.
pub fn order_delete_request(id: i64) -> (r: MetadataQueryRequest)
    ensures
        r@ == (RequestModel {
            user_id: 893,
            statement_type: StatementType::DELETE,
            fields: seq![order_field(FieldSourceModel::Column("id"@))],
            options: tenant_options(Some(id)),
            filters: Seq::empty(),
            having: Seq::empty(),
        }),
{
    let mut fields: Vec<MetadataField> = Vec::new();
    fields.push(order_column("id"));
    assert(fields_model(fields@) =~= seq![order_field(FieldSourceModel::Column("id"@))]);
    MetadataQueryRequest::new(893, StatementType::DELETE, fields).with_options(tenant_request_options(Some(id)))
}

} // verus!
