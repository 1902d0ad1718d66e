//! Portal columns as metadata requests, so that the metadata driver can serve a portal.

use vstd::prelude::*;

use crate::engine::ddl::option_view;
use crate::metadata::common::mask_bits;
use crate::metadata::field::{
    field_output_name, fields_model, option_lookup_view, option_value_view, FieldModel, FieldSourceModel,
    LinkModel, LinkStepModel, LookupModel,
};
use crate::metadata::filters::{filter_exprs_model, FilterExprModel, FilterModel};
use crate::metadata::query::{OptionsModel, RequestModel};
use crate::metadata::{
    CapabilityMask, FieldInputKind, FieldSource, LinkReference, LinkStep, LookupReference, MetadataField,
    MetadataFilterExpr, MetadataQueryOptions, MetadataQueryRequest, SortDirection,
};
use crate::metadata_driver::filters::{object_get, object_value};
use crate::portal_provider::model::{split_on};
use crate::portal_provider::types::{obtainmanner_of, Column, Obtainmanner, PortalProviderOption};
use crate::sql::StatementType;
use crate::text::{
    contains_char, copy_string, has_char, lemma_filter_empty, lemma_filter_take, lemma_map_push, owned,
    split_whitespace_words, split_words, starts_with_char, str_eq, strings_view, strip_leading, trim_leading,
};
use crate::value::{duplicate_values, entries_model, lemma_array_view, lemma_object_view, Value, ValueModel};
use crate::wildcard::{glob_match, wildcard_matches};

verus! {

/// Where a portal column's value comes from: a linked column when its name holds `;`
/// (one step per link table and foreign key, the last segment being the target column),
/// a formula when it has a function call or a space, a qualified expression when it holds
/// `.`, else a plain column.
pub open spec fn source_of(c: Column) -> FieldSourceModel {
    let db = c.dbname@;
    if has_char(db, ';') {
        let parts = split_on(db, ';');
        let tables = strings_view(c.columnlink_tablenames@);
        let n = if tables.len() < parts.len() { tables.len() } else { parts.len() };
        FieldSourceModel::Linked(LinkModel {
            steps: Seq::new(n, |j: int| LinkStepModel { foreign_key: parts[j], table: tables[j] }),
            target_column: parts.last(),
        })
    } else if glob_match("*(*)*"@, db) || has_char(db, ' ') {
        FieldSourceModel::Formula(db)
    } else if has_char(db, '.') {
        FieldSourceModel::Qualified(db)
    } else {
        FieldSourceModel::Column(db)
    }
}

/// The input kind of a column filled in the named manner.
pub open spec fn input_kind_of(text: Seq<char>, c: Column) -> FieldInputKind {
    match obtainmanner_of(text) {
        Obtainmanner::Text => FieldInputKind::Text,
        Obtainmanner::Object => if c.ref_table is Some { FieldInputKind::Lookup } else { FieldInputKind::Text },
        Obtainmanner::Ignore => FieldInputKind::Ignored,
        Obtainmanner::Operate => FieldInputKind::Operation,
        Obtainmanner::SheetNo => FieldInputKind::Sequence,
        Obtainmanner::Triger => FieldInputKind::Trigger,
    }
}

/// `+` sorts ascending, `-` descending; anything else does not sort.
pub open spec fn sort_of_text(text: Seq<char>) -> Option<SortDirection> {
    if text == "+"@ {
        Some(SortDirection::Asc)
    } else if text == "-"@ {
        Some(SortDirection::Desc)
    } else {
        None
    }
}

/// The metadata field of a portal column.
pub open spec fn field_of_column(c: Column) -> FieldModel {
    FieldModel {
        field_id: c.column_id,
        current_table: c.current_table@,
        real_table: option_view(c.real_table),
        source: source_of(c),
        access: mask_bits(c.mask@),
        nullable: c.nullable,
        input_kind: input_kind_of(c.obtainmanner@, c),
        sequence_name: if c.sequencename@.len() == 0 { None } else { Some(c.sequencename@) },
        default_value: if c.default_value@.len() == 0 { None } else { Some(ValueModel::Text(c.default_value@)) },
        value: option_value_view(c.value),
        sort: sort_of_text(c.order_by@),
        output_alias: None,
        lookup: match c.ref_table {
            Some(dk) => Some(LookupModel { table: dk.table_name@, display_column: dk.dk_column@ }),
            None => None,
        },
    }
}

/// A `LIKE %word%` condition on `target`.
pub open spec fn like_word(target: Seq<char>) -> spec_fn(Seq<char>) -> FilterExprModel {
    |w: Seq<char>| FilterExprModel::Field { field: target, filter: FilterModel::Like("%"@ + w + "%"@) }
}

/// The filter a field's value asks for, on the field's output name: a flag, number or
/// text for equality (`=x` for `x`), a text with a space for any of its words, a list for
/// membership, a `between` object for its bounds; nothing for null or another object.
pub open spec fn filter_of_field(f: FieldModel) -> Option<FilterExprModel> {
    let target = field_output_name(f);
    match f.value {
        None => None,
        Some(v) => match v {
            ValueModel::Null => None,
            ValueModel::Bool(b) => Some(FilterExprModel::Field { field: target, filter: FilterModel::Eq(ValueModel::Bool(b)) }),
            ValueModel::Number(n) => Some(FilterExprModel::Field { field: target, filter: FilterModel::Eq(ValueModel::Number(n)) }),
            ValueModel::Text(s) => {
                if s.len() > 0 && s[0] == '=' {
                    Some(FilterExprModel::Field { field: target, filter: FilterModel::Eq(ValueModel::Text(strip_leading(s, '='))) })
                } else if has_char(s, ' ') {
                    Some(FilterExprModel::Or(split_words(s).map_values(like_word(target))))
                } else {
                    Some(FilterExprModel::Field { field: target, filter: FilterModel::Eq(ValueModel::Text(s)) })
                }
            },
            ValueModel::Array(items) => Some(FilterExprModel::Field { field: target, filter: FilterModel::In(items) }),
            ValueModel::Object(entries) => {
                if object_get(entries, "type"@) == Some(ValueModel::Text("between"@)) {
                    Some(FilterExprModel::Field {
                        field: target,
                        filter: FilterModel::Between {
                            lower: match object_get(entries, "begin"@) { Some(b) => b, None => ValueModel::Null },
                            upper: match object_get(entries, "end"@) { Some(e) => e, None => ValueModel::Null },
                        },
                    })
                } else {
                    None
                }
            },
        },
    }
}

/// The fields that filter.
pub open spec fn filtering() -> spec_fn(FieldModel) -> bool {
    |f: FieldModel| filter_of_field(f) is Some
}

/// The filter of a field that filters.
pub open spec fn filter_at() -> spec_fn(FieldModel) -> FilterExprModel {
    |f: FieldModel| match filter_of_field(f) {
        Some(e) => e,
        None => FilterExprModel::Raw(Seq::empty()),
    }
}

/// A field without its value.
pub open spec fn without_value() -> spec_fn(FieldModel) -> FieldModel {
    |f: FieldModel| FieldModel { value: None, ..f }
}

/// The metadata request of portal columns. A select turns the columns' values into
/// filters and clears them; the options carry over, the mask position defaulting to 0 and
/// grouping to off.
pub open spec fn request_of_portal(user_id: i64, statement_type: StatementType, columns: Seq<Column>, args: PortalProviderOption) -> RequestModel {
    let fields = columns.map_values(|c: Column| field_of_column(c));
    RequestModel {
        user_id,
        statement_type,
        fields: if statement_type == StatementType::SELECT { fields.map_values(without_value()) } else { fields },
        options: OptionsModel {
            id: args.id,
            mask_index: match args.max_idx { Some(i) => i, None => 0 },
            grouped: match args.is_group { Some(g) => g, None => false },
            table_filter: option_view(args.table_filter),
            client_id: 37,
            org_id: 27,
        },
        filters: if statement_type == StatementType::SELECT { fields.filter(filtering()).map_values(filter_at()) } else { Seq::empty() },
        having: Seq::empty(),
    }
}

/// A select's fields carry no values: each value a portal column held has become one of
/// the request's filters, and only those that ask for one.
pub proof fn select_values_become_filters(user_id: i64, columns: Seq<Column>, args: PortalProviderOption)
    ensures
        forall|i: int|
            0 <= i < request_of_portal(user_id, StatementType::SELECT, columns, args).fields.len()
                ==> (#[trigger] request_of_portal(user_id, StatementType::SELECT, columns, args).fields[i]).value is None,
        request_of_portal(user_id, StatementType::SELECT, columns, args).fields.len() == columns.len(),
        request_of_portal(user_id, StatementType::SELECT, columns, args).filters.len()
            == columns.map_values(|c: Column| field_of_column(c)).filter(filtering()).len(),
{
}

/// The field source of a portal column.
fn source_from_column(column: &Column) -> (r: FieldSource)
    ensures
        r@ == source_of(*column),
{
    let db = column.dbname.as_str();
    if contains_char(db, ';') {
        let parts = split_segments_of(db);
        let tables = &column.columnlink_tablenames;
        let n = if tables.len() < parts.len() { tables.len() } else { parts.len() };
        let mut steps: Vec<LinkStep> = Vec::new();
        let mut j: usize = 0;
        while j < n
            invariant
                n <= tables@.len(),
                n <= parts@.len(),
                j <= n,
                steps@.len() == j,
                forall|q: int| 0 <= q < j ==> (#[trigger] steps@[q])@ == (LinkStepModel { foreign_key: parts@[q]@, table: tables@[q]@ }),
            decreases n - j,
        {
            steps.push(LinkStep { foreign_key: copy_string(&parts[j]), table: copy_string(&tables[j]) });
            j = j + 1;
        }
        assert(strings_view(parts@).len() == parts@.len());
        let target = copy_string(&parts[parts.len() - 1]);
        let link = LinkReference { steps, target_column: target };
        proof {
            let e = source_of(*column);
            let ps = split_on(column.dbname@, ';');
            let ts = strings_view(column.columnlink_tablenames@);
            assert(link@.steps =~= Seq::new(n as nat, |q: int| LinkStepModel { foreign_key: ps[q], table: ts[q] }));
        }
        FieldSource::Linked(link)
    } else if wildcard_matches("*(*)*", db) || contains_char(db, ' ') {
        FieldSource::Formula(owned(db))
    } else if contains_char(db, '.') {
        FieldSource::Qualified(owned(db))
    } else {
        FieldSource::Column(owned(db))
    }
}

/// The segments of a text split at `;`.
fn split_segments_of(s: &str) -> (r: Vec<String>)
    ensures
        strings_view(r@) == split_on(s@, ';'),
        r@.len() > 0,
{
    let r = crate::portal_provider::provider::split_segments(s, ';');
    assert(strings_view(r@).len() == r@.len());
    r
}

fn input_kind_from_obtainmanner(obtainmanner: &str, column: &Column) -> (r: FieldInputKind)
    ensures
        r == input_kind_of(obtainmanner@, *column),
{
    match Obtainmanner::from_text(obtainmanner) {
        Obtainmanner::Text => FieldInputKind::Text,
        Obtainmanner::Object => {
            if column.ref_table.is_some() {
                FieldInputKind::Lookup
            } else {
                FieldInputKind::Text
            }
        },
        Obtainmanner::Ignore => FieldInputKind::Ignored,
        Obtainmanner::Operate => FieldInputKind::Operation,
        Obtainmanner::SheetNo => FieldInputKind::Sequence,
        Obtainmanner::Triger => FieldInputKind::Trigger,
    }
}

fn sort_from_order_by(order_by: &str) -> (r: Option<SortDirection>)
    ensures
        r == sort_of_text(order_by@),
{
    if str_eq(order_by, "+") {
        Some(SortDirection::Asc)
    } else if str_eq(order_by, "-") {
        Some(SortDirection::Desc)
    } else {
        None
    }
}

/// The metadata field of a portal column (its value is kept whatever the statement type).
pub fn metadata_field_from_portal_column(column: &Column, statement_type: StatementType) -> (r: MetadataField)
    ensures
        r@ == field_of_column(*column),
{
    let mut field = MetadataField::new(column.current_table.as_str(), source_from_column(column));
    field.field_id = column.column_id;
    field.real_table = match &column.real_table {
        Some(t) => Some(copy_string(t)),
        None => None,
    };
    field.access = CapabilityMask::from_text(column.mask.as_str());
    field.nullable = column.nullable;
    field.input_kind = input_kind_from_obtainmanner(column.obtainmanner.as_str(), column);
    field.sequence_name = if column.sequencename.unicode_len() == 0 {
        None
    } else {
        Some(copy_string(&column.sequencename))
    };
    field.default_value = if column.default_value.unicode_len() == 0 {
        None
    } else {
        Some(Value::String(copy_string(&column.default_value)))
    };
    field.value = match &column.value {
        Some(v) => Some(v.duplicate()),
        None => None,
    };
    field.sort = sort_from_order_by(column.order_by.as_str());
    field.lookup = match &column.ref_table {
        Some(dk) => Some(LookupReference { table: copy_string(&dk.table_name), display_column: copy_string(&dk.dk_column) }),
        None => None,
    };
    field
}


/// The filter a field's value asks for.
fn metadata_filter_from_field(field: &MetadataField) -> (r: Option<MetadataFilterExpr>)
    ensures
        match r {
            Some(e) => filter_of_field(field@) == Some(e@),
            None => filter_of_field(field@) is None,
        },
{
    let target = field.output_name();
    match &field.value {
        None => None,
        Some(value) => match value {
            Value::Null => None,
            Value::Bool(b) => Some(MetadataFilterExpr::eq(target.as_str(), Value::Bool(*b))),
            Value::Number(n) => Some(MetadataFilterExpr::eq(target.as_str(), Value::Number(copy_string(n)))),
            Value::String(s) => {
                if starts_with_char(s.as_str(), '=') {
                    Some(MetadataFilterExpr::eq(target.as_str(), Value::String(trim_leading(s.as_str(), '='))))
                } else if contains_char(s.as_str(), ' ') {
                    let words = split_whitespace_words(s.as_str());
                    let mut likes: Vec<MetadataFilterExpr> = Vec::new();
                    let n = words.len();
                    let mut i: usize = 0;
                    while i < n
                        invariant
                            n == words@.len(),
                            i <= n,
                            filter_exprs_model(likes@) == strings_view(words@).take(i as int).map_values(like_word(target@)),
                        decreases n - i,
                    {
                        let mut term = "%".to_owned();
                        term.append(words[i].as_str());
                        term.append("%");
                        let e = MetadataFilterExpr::like(target.as_str(), term.as_str());
                        let ghost before = likes@;
                        likes.push(e);
                        proof {
                            assert(filter_exprs_model(likes@) =~= filter_exprs_model(before).push(e@));
                            assert(strings_view(words@).take(i + 1).map_values(like_word(target@))
                                =~= strings_view(words@).take(i as int).map_values(like_word(target@)).push(like_word(target@)(words@[i as int]@)));
                        }
                        i = i + 1;
                    }
                    assert(strings_view(words@).take(n as int) =~= strings_view(words@));
                    Some(MetadataFilterExpr::or(likes))
                } else {
                    Some(MetadataFilterExpr::eq(target.as_str(), Value::String(copy_string(s))))
                }
            },
            Value::Array(items) => {
                proof {
                    lemma_array_view(*items);
                }
                Some(MetadataFilterExpr::in_list(target.as_str(), duplicate_values(items)))
            },
            Value::Object(entries) => {
                proof {
                    lemma_object_view(*entries);
                }
                let is_between = match object_value(entries, "type") {
                    Some(Value::String(t)) => str_eq(t.as_str(), "between"),
                    _ => false,
                };
                if is_between {
                    let lower = match object_value(entries, "begin") {
                        Some(b) => b.duplicate(),
                        None => Value::Null,
                    };
                    let upper = match object_value(entries, "end") {
                        Some(e) => e.duplicate(),
                        None => Value::Null,
                    };
                    Some(MetadataFilterExpr::between(target.as_str(), lower, upper))
                } else {
                    None
                }
            },
        },
    }
}

/// The metadata request that serves the same portal columns.
pub fn portal_to_metadata_request(
    user_id: i64,
    statement_type: StatementType,
    columns: Vec<Column>,
    args: PortalProviderOption,
) -> (r: MetadataQueryRequest)
    ensures
        r@ == request_of_portal(user_id, statement_type, columns@, args),
{
    let ghost fs = columns@.map_values(|c: Column| field_of_column(c));
    let mut fields: Vec<MetadataField> = Vec::new();
    let n = columns.len();
    let mut i: usize = 0;
    while i < n
        invariant
            n == columns@.len(),
            fs == columns@.map_values(|c: Column| field_of_column(c)),
            i <= n,
            fields@.len() == i,
            forall|j: int| 0 <= j < i ==> (#[trigger] fields@[j])@ == fs[j],
        decreases n - i,
    {
        fields.push(metadata_field_from_portal_column(&columns[i], statement_type));
        i = i + 1;
    }
    assert(fields_model(fields@) =~= fs);
    let mut filters: Vec<MetadataFilterExpr> = Vec::new();
    if statement_type == StatementType::SELECT {
        proof {
            lemma_filter_empty(fs.take(0), filtering());
            assert(filter_exprs_model(filters@) =~= fs.take(0).filter(filtering()).map_values(filter_at()));
        }
        let mut i: usize = 0;
        while i < n
            invariant
                n == fields@.len(),
                fields_model(fields@) == fs,
                i <= n,
                filter_exprs_model(filters@) == fs.take(i as int).filter(filtering()).map_values(filter_at()),
            decreases n - i,
        {
            proof {
                lemma_filter_take(fs, filtering(), i as int);
                assert(fs[i as int] == fields@[i as int]@);
            }
            match metadata_filter_from_field(&fields[i]) {
                Some(e) => {
                    let ghost before = filters@;
                    filters.push(e);
                    proof {
                        lemma_map_push(fs.take(i as int).filter(filtering()), fs[i as int], filter_at());
                        assert(filter_exprs_model(filters@) =~= filter_exprs_model(before).push(e@));
                    }
                },
                None => {},
            }
            i = i + 1;
        }
        assert(fs.take(n as int) =~= fs);
        let mut i: usize = 0;
        while i < n
            invariant
                n == fields@.len(),
                fs.len() == n,
                i <= n,
                forall|j: int| 0 <= j < i ==> (#[trigger] fields@[j])@ == without_value()(fs[j]),
                forall|j: int| i <= j < n ==> (#[trigger] fields@[j])@ == fs[j],
            decreases n - i,
        {
            let mut f = fields.remove(i);
            f.value = None;
            fields.insert(i, f);
            i = i + 1;
        }
        assert(fields_model(fields@) =~= fs.map_values(without_value()));
    } else {
        assert(filter_exprs_model(filters@) =~= Seq::<FilterExprModel>::empty());
    }
    assert(fields_model(fields@) == (if statement_type == StatementType::SELECT { fs.map_values(without_value()) } else { fs }));
    assert(filter_exprs_model(filters@) == (if statement_type == StatementType::SELECT { fs.filter(filtering()).map_values(filter_at()) } else { Seq::<FilterExprModel>::empty() }));
    let options = MetadataQueryOptions {
        id: args.id,
        mask_index: match args.max_idx {
            Some(k) => k,
            None => 0,
        },
        grouped: match args.is_group {
            Some(g) => g,
            None => false,
        },
        table_filter: args.table_filter,
        client_id: 37,
        org_id: 27,
    };
    MetadataQueryRequest::new(user_id, statement_type, fields).with_options(options).with_filters(filters)
}

} // verus!
