//! Metadata fields: where a value comes from and how it is read and written.

use vstd::prelude::*;

use super::common::{mask_bits, CapabilityMask, FieldInputKind, MetadataId, SortDirection};
use crate::engine::ddl::option_view;
use crate::text::{copy_string, owned};
use crate::value::{Value, ValueModel};

verus! {

/// A foreign key displayed by a column of another table.
#[derive(Debug, Clone, PartialEq, Eq)]
pub struct LookupReference {
    pub table: String,
    pub display_column: String,
}

/// The model of a [`LookupReference`].
pub struct LookupModel {
    pub table: Seq<char>,
    pub display_column: Seq<char>,
}

impl View for LookupReference {
    type V = LookupModel;

    open spec fn view(&self) -> LookupModel {
        LookupModel { table: self.table@, display_column: self.display_column@ }
    }
}

impl LookupReference {
    pub fn duplicate(&self) -> (r: LookupReference)
        ensures
            r@ == self@,
    {
        LookupReference { table: copy_string(&self.table), display_column: copy_string(&self.display_column) }
    }
}

/// One hop of a link: follow `foreign_key` into `table`.
#[derive(Debug, Clone, PartialEq, Eq)]
pub struct LinkStep {
    pub foreign_key: String,
    pub table: String,
}

/// The model of a [`LinkStep`].
pub struct LinkStepModel {
    pub foreign_key: Seq<char>,
    pub table: Seq<char>,
}

impl View for LinkStep {
    type V = LinkStepModel;

    open spec fn view(&self) -> LinkStepModel {
        LinkStepModel { foreign_key: self.foreign_key@, table: self.table@ }
    }
}

/// A column reached through a chain of foreign keys.
#[derive(Debug, Clone, PartialEq, Eq)]
pub struct LinkReference {
    pub steps: Vec<LinkStep>,
    pub target_column: String,
}

/// The model of a [`LinkReference`].
pub struct LinkModel {
    pub steps: Seq<LinkStepModel>,
    pub target_column: Seq<char>,
}

pub open spec fn link_steps_model(steps: Seq<LinkStep>) -> Seq<LinkStepModel> {
    steps.map_values(|s: LinkStep| s@)
}

impl View for LinkReference {
    type V = LinkModel;

    open spec fn view(&self) -> LinkModel {
        LinkModel { steps: link_steps_model(self.steps@), target_column: self.target_column@ }
    }
}

impl LinkReference {
    pub fn duplicate(&self) -> (r: LinkReference)
        ensures
            r@ == self@,
    {
        let mut steps: Vec<LinkStep> = Vec::new();
        let n = self.steps.len();
        let mut i: usize = 0;
        while i < n
            invariant
                n == self.steps@.len(),
                i <= n,
                steps@.len() == i,
                forall|j: int| 0 <= j < i ==> #[trigger] steps@[j]@ == self.steps@[j]@,
            decreases n - i,
        {
            let s = &self.steps[i];
            steps.push(LinkStep { foreign_key: copy_string(&s.foreign_key), table: copy_string(&s.table) });
            i = i + 1;
        }
        assert(link_steps_model(steps@) =~= link_steps_model(self.steps@));
        LinkReference { steps, target_column: copy_string(&self.target_column) }
    }
}

/// Where a field's value comes from.
#[derive(Debug, Clone, PartialEq, Eq)]
pub enum FieldSource {
    /// A column of the field's table.
    Column(String),
    /// An expression that already names its table, such as `t.code`.
    Qualified(String),
    /// A computed expression, such as `sum(qty)`.
    Formula(String),
    /// A column reached through foreign keys.
    Linked(LinkReference),
}

/// The model of a [`FieldSource`].
pub enum FieldSourceModel {
    Column(Seq<char>),
    Qualified(Seq<char>),
    Formula(Seq<char>),
    Linked(LinkModel),
}

impl View for FieldSource {
    type V = FieldSourceModel;

    open spec fn view(&self) -> FieldSourceModel {
        match self {
            FieldSource::Column(s) => FieldSourceModel::Column(s@),
            FieldSource::Qualified(s) => FieldSourceModel::Qualified(s@),
            FieldSource::Formula(s) => FieldSourceModel::Formula(s@),
            FieldSource::Linked(l) => FieldSourceModel::Linked(l@),
        }
    }
}

impl FieldSource {
    pub fn duplicate(&self) -> (r: FieldSource)
        ensures
            r@ == self@,
    {
        match self {
            FieldSource::Column(s) => FieldSource::Column(copy_string(s)),
            FieldSource::Qualified(s) => FieldSource::Qualified(copy_string(s)),
            FieldSource::Formula(s) => FieldSource::Formula(copy_string(s)),
            FieldSource::Linked(l) => FieldSource::Linked(l.duplicate()),
        }
    }
}

impl Default for FieldSource {
    fn default() -> (r: FieldSource)
        ensures
            r@ == FieldSourceModel::Column(Seq::empty()),
    {
        FieldSource::Column(String::new())
    }
}

/// A field of a metadata request.
#[derive(Debug, Clone, PartialEq)]
pub struct MetadataField {
    pub field_id: MetadataId,
    pub current_table: String,
    pub real_table: Option<String>,
    pub source: FieldSource,
    pub access: CapabilityMask,
    pub nullable: bool,
    pub input_kind: FieldInputKind,
    pub sequence_name: Option<String>,
    pub default_value: Option<Value>,
    pub value: Option<Value>,
    pub sort: Option<SortDirection>,
    pub output_alias: Option<String>,
    pub lookup: Option<LookupReference>,
}

/// The model of a [`MetadataField`].
pub struct FieldModel {
    pub field_id: MetadataId,
    pub current_table: Seq<char>,
    pub real_table: Option<Seq<char>>,
    pub source: FieldSourceModel,
    pub access: Seq<bool>,
    pub nullable: bool,
    pub input_kind: FieldInputKind,
    pub sequence_name: Option<Seq<char>>,
    pub default_value: Option<ValueModel>,
    pub value: Option<ValueModel>,
    pub sort: Option<SortDirection>,
    pub output_alias: Option<Seq<char>>,
    pub lookup: Option<LookupModel>,
}

pub open spec fn option_value_view(o: Option<Value>) -> Option<ValueModel> {
    match o {
        Some(v) => Some(v@),
        None => None,
    }
}

pub open spec fn option_lookup_view(o: Option<LookupReference>) -> Option<LookupModel> {
    match o {
        Some(l) => Some(l@),
        None => None,
    }
}

impl View for MetadataField {
    type V = FieldModel;

    open spec fn view(&self) -> FieldModel {
        FieldModel {
            field_id: self.field_id,
            current_table: self.current_table@,
            real_table: option_view(self.real_table),
            source: self.source@,
            access: self.access.0@,
            nullable: self.nullable,
            input_kind: self.input_kind,
            sequence_name: option_view(self.sequence_name),
            default_value: option_value_view(self.default_value),
            value: option_value_view(self.value),
            sort: self.sort,
            output_alias: option_view(self.output_alias),
            lookup: option_lookup_view(self.lookup),
        }
    }
}

/// The models of a sequence of fields.
pub open spec fn fields_model(fields: Seq<MetadataField>) -> Seq<FieldModel> {
    fields.map_values(|f: MetadataField| f@)
}

/// The name a field is output under: its alias, else its column, expression or
/// linked target column.
pub open spec fn field_output_name(f: FieldModel) -> Seq<char> {
    match f.output_alias {
        Some(a) => a,
        None => match f.source {
            FieldSourceModel::Column(c) => c,
            FieldSourceModel::Qualified(e) => e,
            FieldSourceModel::Formula(e) => e,
            FieldSourceModel::Linked(l) => l.target_column,
        },
    }
}

/// The column of a field that reads a plain column.
pub open spec fn field_source_column(f: FieldModel) -> Option<Seq<char>> {
    match f.source {
        FieldSourceModel::Column(c) => Some(c),
        _ => None,
    }
}

/// A copy of an optional string.
pub fn copy_option_string(o: &Option<String>) -> (r: Option<String>)
    ensures
        option_view(r) == option_view(*o),
{
    match o {
        Some(s) => Some(copy_string(s)),
        None => None,
    }
}

/// A copy of an optional value.
pub fn copy_option_value(o: &Option<Value>) -> (r: Option<Value>)
    ensures
        option_value_view(r) == option_value_view(*o),
{
    match o {
        Some(v) => Some(v.duplicate()),
        None => None,
    }
}

impl MetadataField {
    /// A field of `current_table` reading `source`, with every other attribute at its default.
    pub fn new(current_table: &str, source: FieldSource) -> (r: MetadataField)
        ensures
            r@ == (FieldModel {
                field_id: 0,
                current_table: current_table@,
                real_table: None,
                source: source@,
                access: Seq::empty(),
                nullable: false,
                input_kind: FieldInputKind::Text,
                sequence_name: None,
                default_value: None,
                value: None,
                sort: None,
                output_alias: None,
                lookup: None,
            }),
    {
        let r = MetadataField {
            field_id: 0,
            current_table: owned(current_table),
            real_table: None,
            source,
            access: CapabilityMask(Vec::new()),
            nullable: false,
            input_kind: FieldInputKind::Text,
            sequence_name: None,
            default_value: None,
            value: None,
            sort: None,
            output_alias: None,
            lookup: None,
        };
        assert(r@.access =~= Seq::<bool>::empty());
        r
    }

    pub fn with_real_table(self, real_table: &str) -> (r: MetadataField)
        ensures
            r@ == (FieldModel { real_table: Some(real_table@), ..self@ }),
    {
        let mut f = self;
        f.real_table = Some(owned(real_table));
        f
    }

    /// Grants the capabilities of a mask text such as `"1"`.
    pub fn with_access(self, access: &str) -> (r: MetadataField)
        ensures
            r@ == (FieldModel { access: mask_bits(access@), ..self@ }),
    {
        let mut f = self;
        f.access = CapabilityMask::from_text(access);
        f
    }

    pub fn with_value(self, value: Value) -> (r: MetadataField)
        ensures
            r@ == (FieldModel { value: Some(value@), ..self@ }),
    {
        let mut f = self;
        f.value = Some(value);
        f
    }

    pub fn with_default(self, value: Value) -> (r: MetadataField)
        ensures
            r@ == (FieldModel { default_value: Some(value@), ..self@ }),
    {
        let mut f = self;
        f.default_value = Some(value);
        f
    }

    pub fn with_sort(self, sort: SortDirection) -> (r: MetadataField)
        ensures
            r@ == (FieldModel { sort: Some(sort), ..self@ }),
    {
        let mut f = self;
        f.sort = Some(sort);
        f
    }

    pub fn with_output_alias(self, alias: &str) -> (r: MetadataField)
        ensures
            r@ == (FieldModel { output_alias: Some(alias@), ..self@ }),
    {
        let mut f = self;
        f.output_alias = Some(owned(alias));
        f
    }

    /// Displays this field through `display_column` of `table`, and makes it a lookup.
    pub fn with_lookup(self, table: &str, display_column: &str) -> (r: MetadataField)
        ensures
            r@ == (FieldModel {
                lookup: Some(LookupModel { table: table@, display_column: display_column@ }),
                input_kind: FieldInputKind::Lookup,
                ..self@
            }),
    {
        let mut f = self;
        f.lookup = Some(LookupReference { table: owned(table), display_column: owned(display_column) });
        f.input_kind = FieldInputKind::Lookup;
        f
    }

    /// Fills this field from the sequence `sequence_name`.
    pub fn with_sequence(self, sequence_name: &str) -> (r: MetadataField)
        ensures
            r@ == (FieldModel {
                sequence_name: Some(sequence_name@),
                input_kind: FieldInputKind::Sequence,
                ..self@
            }),
    {
        let mut f = self;
        f.sequence_name = Some(owned(sequence_name));
        f.input_kind = FieldInputKind::Sequence;
        f
    }

    /// The column this field reads, when its source is a plain column.
    pub fn source_column(&self) -> (r: Option<&str>)
        ensures
            match r {
                Some(c) => field_source_column(self@) == Some(c@),
                None => field_source_column(self@) is None,
            },
    {
        match &self.source {
            FieldSource::Column(column) => Some(column.as_str()),
            _ => None,
        }
    }

    /// The name this field is output under.
    pub fn output_name(&self) -> (r: String)
        ensures
            r@ == field_output_name(self@),
    {
        match &self.output_alias {
            Some(alias) => copy_string(alias),
            None => match &self.source {
                FieldSource::Column(column) => copy_string(column),
                FieldSource::Qualified(expression) => copy_string(expression),
                FieldSource::Formula(expression) => copy_string(expression),
                FieldSource::Linked(link) => copy_string(&link.target_column),
            },
        }
    }

    /// A copy of this field.
    pub fn duplicate(&self) -> (r: MetadataField)
        ensures
            r@ == self@,
    {
        MetadataField {
            field_id: self.field_id,
            current_table: copy_string(&self.current_table),
            real_table: copy_option_string(&self.real_table),
            source: self.source.duplicate(),
            access: self.access.duplicate(),
            nullable: self.nullable,
            input_kind: self.input_kind,
            sequence_name: copy_option_string(&self.sequence_name),
            default_value: copy_option_value(&self.default_value),
            value: copy_option_value(&self.value),
            sort: self.sort,
            output_alias: copy_option_string(&self.output_alias),
            lookup: match &self.lookup {
                Some(l) => Some(l.duplicate()),
                None => None,
            },
        }
    }
}

/// Copies of all `fields`, in order.
pub fn duplicate_fields(fields: &Vec<MetadataField>) -> (r: Vec<MetadataField>)
    ensures
        fields_model(r@) == fields_model(fields@),
{
    let mut out: Vec<MetadataField> = Vec::new();
    let n = fields.len();
    let mut i: usize = 0;
    while i < n
        invariant
            n == fields@.len(),
            i <= n,
            out@.len() == i,
            forall|j: int| 0 <= j < i ==> #[trigger] out@[j]@ == fields@[j]@,
        decreases n - i,
    {
        out.push(fields[i].duplicate());
        i = i + 1;
    }
    assert(fields_model(out@) =~= fields_model(fields@));
    out
}

} // verus!
