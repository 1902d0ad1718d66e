//! Builders of `CREATE TABLE`, `ALTER TABLE` and `DROP TABLE` statements.

use vstd::prelude::*;

use super::dialect::SqlDialect;
use super::query::BuiltQuery;
use crate::text::{
    escape_quotes, i64_text, int_text, join, join_strings, nat_text, owned, push_escaped_quotes, strings_view, u64_text,
    usize_text,
};
use crate::value::{Value, ValueModel, values_model};

verus! {

/// A literal in DDL, such as a column default.
#[derive(Debug, Clone, PartialEq)]
pub enum DdlValue {
    String(String),
    Number(String),
    Boolean(bool),
    Raw(String),
    Null,
}

/// The model of a [`DdlValue`].
pub enum DdlValueModel {
    Text(Seq<char>),
    Number(Seq<char>),
    Boolean(bool),
    Raw(Seq<char>),
    Null,
}

impl View for DdlValue {
    type V = DdlValueModel;

    open spec fn view(&self) -> DdlValueModel {
        match self {
            DdlValue::String(s) => DdlValueModel::Text(s@),
            DdlValue::Number(s) => DdlValueModel::Number(s@),
            DdlValue::Boolean(b) => DdlValueModel::Boolean(*b),
            DdlValue::Raw(s) => DdlValueModel::Raw(s@),
            DdlValue::Null => DdlValueModel::Null,
        }
    }
}

/// The SQL text of a DDL literal: a quoted string, a number, `TRUE`/`FALSE`, raw SQL or `NULL`.
pub open spec fn ddl_value_text(v: DdlValueModel) -> Seq<char> {
    match v {
        DdlValueModel::Text(s) => "'"@ + escape_quotes(s) + "'"@,
        DdlValueModel::Number(s) => s,
        DdlValueModel::Boolean(b) => if b { "TRUE"@ } else { "FALSE"@ },
        DdlValueModel::Raw(s) => s,
        DdlValueModel::Null => "NULL"@,
    }
}

/// A boolean literal is written by its value: `TRUE` for true, `FALSE` for false, so
/// the two literals never read the same.
pub proof fn boolean_literals_follow_their_value(a: bool, b: bool)
    ensures
        ddl_value_text(DdlValue::Boolean(true)@) =~= "TRUE"@,
        ddl_value_text(DdlValue::Boolean(false)@) =~= "FALSE"@,
        ddl_value_text(DdlValue::Boolean(a)@) == ddl_value_text(DdlValue::Boolean(b)@) <==> a == b,
{
    reveal_strlit("TRUE");
    reveal_strlit("FALSE");
    if a != b {
        assert("TRUE"@[0] != "FALSE"@[0]);
    }
}

impl From<&str> for DdlValue {
    /// A text literal.
    fn from(value: &str) -> (r: DdlValue)
        ensures
            r@ == DdlValueModel::Text(value@),
    {
        DdlValue::String(owned(value))
    }
}

impl vstd::std_specs::convert::FromSpecImpl<&str> for DdlValue {
    /// The result is stated by the view in `from`'s own `ensures`.
    open spec fn obeys_from_spec() -> bool {
        false
    }

    open spec fn from_spec(value: &str) -> DdlValue {
        DdlValue::Null
    }
}

impl From<String> for DdlValue {
    /// A text literal.
    fn from(value: String) -> (r: DdlValue) {
        DdlValue::String(value)
    }
}

impl vstd::std_specs::convert::FromSpecImpl<String> for DdlValue {
    open spec fn obeys_from_spec() -> bool {
        true
    }

    open spec fn from_spec(value: String) -> DdlValue {
        DdlValue::String(value)
    }
}

impl From<bool> for DdlValue {
    /// A boolean literal.
    fn from(value: bool) -> (r: DdlValue) {
        DdlValue::Boolean(value)
    }
}

impl vstd::std_specs::convert::FromSpecImpl<bool> for DdlValue {
    open spec fn obeys_from_spec() -> bool {
        true
    }

    open spec fn from_spec(value: bool) -> DdlValue {
        DdlValue::Boolean(value)
    }
}

impl From<i32> for DdlValue {
    /// A number written in decimal.
    fn from(value: i32) -> (r: DdlValue)
        ensures
            r@ == DdlValueModel::Number(int_text(value as int)),
    {
        DdlValue::Number(i64_text(value as i64))
    }
}

impl vstd::std_specs::convert::FromSpecImpl<i32> for DdlValue {
    /// The result is stated by the view in `from`'s own `ensures`.
    open spec fn obeys_from_spec() -> bool {
        false
    }

    open spec fn from_spec(value: i32) -> DdlValue {
        DdlValue::Null
    }
}

impl From<i64> for DdlValue {
    /// A number written in decimal.
    fn from(value: i64) -> (r: DdlValue)
        ensures
            r@ == DdlValueModel::Number(int_text(value as int)),
    {
        DdlValue::Number(i64_text(value))
    }
}

impl vstd::std_specs::convert::FromSpecImpl<i64> for DdlValue {
    /// The result is stated by the view in `from`'s own `ensures`.
    open spec fn obeys_from_spec() -> bool {
        false
    }

    open spec fn from_spec(value: i64) -> DdlValue {
        DdlValue::Null
    }
}

impl From<u32> for DdlValue {
    /// A number written in decimal.
    fn from(value: u32) -> (r: DdlValue)
        ensures
            r@ == DdlValueModel::Number(nat_text(value as nat)),
    {
        DdlValue::Number(u64_text(value as u64))
    }
}

impl vstd::std_specs::convert::FromSpecImpl<u32> for DdlValue {
    /// The result is stated by the view in `from`'s own `ensures`.
    open spec fn obeys_from_spec() -> bool {
        false
    }

    open spec fn from_spec(value: u32) -> DdlValue {
        DdlValue::Null
    }
}

impl From<u64> for DdlValue {
    /// A number written in decimal.
    fn from(value: u64) -> (r: DdlValue)
        ensures
            r@ == DdlValueModel::Number(nat_text(value as nat)),
    {
        DdlValue::Number(u64_text(value))
    }
}

impl vstd::std_specs::convert::FromSpecImpl<u64> for DdlValue {
    /// The result is stated by the view in `from`'s own `ensures`.
    open spec fn obeys_from_spec() -> bool {
        false
    }

    open spec fn from_spec(value: u64) -> DdlValue {
        DdlValue::Null
    }
}

impl From<usize> for DdlValue {
    /// A number written in decimal.
    fn from(value: usize) -> (r: DdlValue)
        ensures
            r@ == DdlValueModel::Number(nat_text(value as nat)),
    {
        DdlValue::Number(usize_text(value))
    }
}

impl vstd::std_specs::convert::FromSpecImpl<usize> for DdlValue {
    /// The result is stated by the view in `from`'s own `ensures`.
    open spec fn obeys_from_spec() -> bool {
        false
    }

    open spec fn from_spec(value: usize) -> DdlValue {
        DdlValue::Null
    }
}

impl DdlValue {
    fn render(&self) -> (r: String)
        ensures
            r@ == ddl_value_text(self@),
    {
        match self {
            DdlValue::String(s) => {
                let mut out = "'".to_owned();
                push_escaped_quotes(&mut out, s.as_str());
                out.append("'");
                out
            },
            DdlValue::Number(s) => s.clone(),
            DdlValue::Boolean(b) => if *b { "TRUE".to_owned() } else { "FALSE".to_owned() },
            DdlValue::Raw(s) => s.clone(),
            DdlValue::Null => "NULL".to_owned(),
        }
    }
}

/// A column of a table definition.
#[derive(Debug, Clone, PartialEq)]
pub struct ColumnDefinition {
    name: String,
    data_type: String,
    nullable: bool,
    default_value: Option<DdlValue>,
    primary_key: bool,
    unique: bool,
}

/// The model of a [`ColumnDefinition`].
pub struct ColumnDefinitionModel {
    pub name: Seq<char>,
    pub data_type: Seq<char>,
    pub nullable: bool,
    pub default_value: Option<DdlValueModel>,
    pub primary_key: bool,
    pub unique: bool,
}

impl View for ColumnDefinition {
    type V = ColumnDefinitionModel;

    closed spec fn view(&self) -> ColumnDefinitionModel {
        ColumnDefinitionModel {
            name: self.name@,
            data_type: self.data_type@,
            nullable: self.nullable,
            default_value: match self.default_value {
                Some(v) => Some(v@),
                None => None,
            },
            primary_key: self.primary_key,
            unique: self.unique,
        }
    }
}

/// The words of a column definition: name, type, then the constraints that apply.
pub open spec fn column_parts(c: ColumnDefinitionModel) -> Seq<Seq<char>> {
    seq![c.name, c.data_type]
        + (if !c.nullable { seq!["NOT NULL"@] } else { Seq::empty() })
        + (match c.default_value {
            Some(v) => seq!["DEFAULT "@ + ddl_value_text(v)],
            None => Seq::empty(),
        })
        + (if c.primary_key { seq!["PRIMARY KEY"@] } else { Seq::empty() })
        + (if c.unique { seq!["UNIQUE"@] } else { Seq::empty() })
}

/// The text of a column definition.
pub open spec fn column_text(c: ColumnDefinitionModel) -> Seq<char> {
    join(column_parts(c), " "@)
}

impl ColumnDefinition {
    pub fn new(name: &str, data_type: &str) -> (r: ColumnDefinition)
        ensures
            r@ == (ColumnDefinitionModel {
                name: name@,
                data_type: data_type@,
                nullable: true,
                default_value: None,
                primary_key: false,
                unique: false,
            }),
    {
        ColumnDefinition {
            name: owned(name),
            data_type: owned(data_type),
            nullable: true,
            default_value: None,
            primary_key: false,
            unique: false,
        }
    }

    pub fn nullable(self) -> (r: ColumnDefinition)
        ensures
            r@ == (ColumnDefinitionModel { nullable: true, ..self@ }),
    {
        let mut c = self;
        c.nullable = true;
        c
    }

    pub fn not_null(self) -> (r: ColumnDefinition)
        ensures
            r@ == (ColumnDefinitionModel { nullable: false, ..self@ }),
    {
        let mut c = self;
        c.nullable = false;
        c
    }

    pub fn default_value(self, value: DdlValue) -> (r: ColumnDefinition)
        ensures
            r@ == (ColumnDefinitionModel { default_value: Some(value@), ..self@ }),
    {
        let mut c = self;
        c.default_value = Some(value);
        c
    }

    pub fn default_raw(self, sql: &str) -> (r: ColumnDefinition)
        ensures
            r@ == (ColumnDefinitionModel { default_value: Some(DdlValueModel::Raw(sql@)), ..self@ }),
    {
        let mut c = self;
        c.default_value = Some(DdlValue::Raw(owned(sql)));
        c
    }

    pub fn primary_key(self) -> (r: ColumnDefinition)
        ensures
            r@ == (ColumnDefinitionModel { primary_key: true, ..self@ }),
    {
        let mut c = self;
        c.primary_key = true;
        c
    }

    pub fn unique(self) -> (r: ColumnDefinition)
        ensures
            r@ == (ColumnDefinitionModel { unique: true, ..self@ }),
    {
        let mut c = self;
        c.unique = true;
        c
    }

    fn render(&self) -> (r: String)
        ensures
            r@ == column_text(self@),
    {
        let mut parts: Vec<String> = Vec::new();
        parts.push(self.name.clone());
        parts.push(self.data_type.clone());
        let ghost p0 = strings_view(parts@);
        if !self.nullable {
            parts.push("NOT NULL".to_owned());
        }
        let ghost p1 = strings_view(parts@);
        match &self.default_value {
            Some(v) => {
                let mut t = "DEFAULT ".to_owned();
                let vt = v.render();
                t.append(vt.as_str());
                parts.push(t);
            },
            None => {},
        }
        let ghost p2 = strings_view(parts@);
        if self.primary_key {
            parts.push("PRIMARY KEY".to_owned());
        }
        let ghost p3 = strings_view(parts@);
        if self.unique {
            parts.push("UNIQUE".to_owned());
        }
        proof {
            let c = self@;
            assert(p0 =~= seq![c.name, c.data_type]);
            assert(p1 =~= p0 + (if !c.nullable { seq!["NOT NULL"@] } else { Seq::empty() }));
            assert(p2 =~= p1 + (match c.default_value {
                Some(v) => seq!["DEFAULT "@ + ddl_value_text(v)],
                None => Seq::empty(),
            }));
            assert(p3 =~= p2 + (if c.primary_key { seq!["PRIMARY KEY"@] } else { Seq::empty() }));
            assert(strings_view(parts@) =~= p3 + (if c.unique { seq!["UNIQUE"@] } else { Seq::empty() }));
        }
        join_strings(&parts, " ")
    }
}

/// A foreign key of a table definition.
#[derive(Debug, Clone, PartialEq)]
pub struct ForeignKeyDefinition {
    name: Option<String>,
    columns: Vec<String>,
    referenced_table: String,
    referenced_columns: Vec<String>,
    on_delete: Option<String>,
    on_update: Option<String>,
}

/// The model of a [`ForeignKeyDefinition`].
pub struct ForeignKeyModel {
    pub name: Option<Seq<char>>,
    pub columns: Seq<Seq<char>>,
    pub referenced_table: Seq<char>,
    pub referenced_columns: Seq<Seq<char>>,
    pub on_delete: Option<Seq<char>>,
    pub on_update: Option<Seq<char>>,
}

pub open spec fn option_view(o: Option<String>) -> Option<Seq<char>> {
    match o {
        Some(s) => Some(s@),
        None => None,
    }
}

impl View for ForeignKeyDefinition {
    type V = ForeignKeyModel;

    closed spec fn view(&self) -> ForeignKeyModel {
        ForeignKeyModel {
            name: option_view(self.name),
            columns: strings_view(self.columns@),
            referenced_table: self.referenced_table@,
            referenced_columns: strings_view(self.referenced_columns@),
            on_delete: option_view(self.on_delete),
            on_update: option_view(self.on_update),
        }
    }
}

/// `[CONSTRAINT name ]FOREIGN KEY (cols) REFERENCES table (cols)[ ON DELETE a][ ON UPDATE a]`.
pub open spec fn foreign_key_text(f: ForeignKeyModel) -> Seq<char> {
    (match f.name {
        Some(n) => "CONSTRAINT "@ + n + " "@,
        None => Seq::empty(),
    }) + "FOREIGN KEY ("@ + join(f.columns, ", "@) + ") REFERENCES "@ + f.referenced_table + " ("@
        + join(f.referenced_columns, ", "@) + ")"@
        + (match f.on_delete {
            Some(a) => " ON DELETE "@ + a,
            None => Seq::empty(),
        })
        + (match f.on_update {
            Some(a) => " ON UPDATE "@ + a,
            None => Seq::empty(),
        })
}

impl ForeignKeyDefinition {
    pub fn new(columns: Vec<String>, referenced_table: &str, referenced_columns: Vec<String>) -> (r: ForeignKeyDefinition)
        ensures
            r@ == (ForeignKeyModel {
                name: None,
                columns: strings_view(columns@),
                referenced_table: referenced_table@,
                referenced_columns: strings_view(referenced_columns@),
                on_delete: None,
                on_update: None,
            }),
    {
        ForeignKeyDefinition {
            name: None,
            columns,
            referenced_table: owned(referenced_table),
            referenced_columns,
            on_delete: None,
            on_update: None,
        }
    }

    pub fn name(self, name: &str) -> (r: ForeignKeyDefinition)
        ensures
            r@ == (ForeignKeyModel { name: Some(name@), ..self@ }),
    {
        let mut f = self;
        f.name = Some(owned(name));
        f
    }

    pub fn on_delete(self, action: &str) -> (r: ForeignKeyDefinition)
        ensures
            r@ == (ForeignKeyModel { on_delete: Some(action@), ..self@ }),
    {
        let mut f = self;
        f.on_delete = Some(owned(action));
        f
    }

    pub fn on_update(self, action: &str) -> (r: ForeignKeyDefinition)
        ensures
            r@ == (ForeignKeyModel { on_update: Some(action@), ..self@ }),
    {
        let mut f = self;
        f.on_update = Some(owned(action));
        f
    }

    fn render(&self) -> (r: String)
        ensures
            r@ == foreign_key_text(self@),
    {
        let mut sql = String::new();
        match &self.name {
            Some(n) => {
                sql.append("CONSTRAINT ");
                sql.append(n.as_str());
                sql.append(" ");
            },
            None => {},
        }
        sql.append("FOREIGN KEY (");
        let c = join_strings(&self.columns, ", ");
        sql.append(c.as_str());
        sql.append(") REFERENCES ");
        sql.append(self.referenced_table.as_str());
        sql.append(" (");
        let rc = join_strings(&self.referenced_columns, ", ");
        sql.append(rc.as_str());
        sql.append(")");
        match &self.on_delete {
            Some(a) => {
                sql.append(" ON DELETE ");
                sql.append(a.as_str());
            },
            None => {},
        }
        match &self.on_update {
            Some(a) => {
                sql.append(" ON UPDATE ");
                sql.append(a.as_str());
            },
            None => {},
        }
        sql
    }
}

pub open spec fn columns_model(items: Seq<ColumnDefinition>) -> Seq<ColumnDefinitionModel> {
    items.map_values(|c: ColumnDefinition| c@)
}

pub open spec fn foreign_keys_model(items: Seq<ForeignKeyDefinition>) -> Seq<ForeignKeyModel> {
    items.map_values(|f: ForeignKeyDefinition| f@)
}

pub open spec fn key_lists_view(items: Seq<Vec<String>>) -> Seq<Seq<Seq<char>>> {
    items.map_values(|k: Vec<String>| strings_view(k@))
}

/// A `CREATE TABLE` statement under construction.
pub struct CreateTableBuilder {
    table: String,
    if_not_exists: bool,
    columns: Vec<ColumnDefinition>,
    primary_keys: Vec<String>,
    unique_keys: Vec<Vec<String>>,
    foreign_keys: Vec<ForeignKeyDefinition>,
}

/// The model of a [`CreateTableBuilder`].
pub struct CreateTableModel {
    pub table: Seq<char>,
    pub if_not_exists: bool,
    pub columns: Seq<ColumnDefinitionModel>,
    pub primary_keys: Seq<Seq<char>>,
    pub unique_keys: Seq<Seq<Seq<char>>>,
    pub foreign_keys: Seq<ForeignKeyModel>,
}

impl View for CreateTableBuilder {
    type V = CreateTableModel;

    closed spec fn view(&self) -> CreateTableModel {
        CreateTableModel {
            table: self.table@,
            if_not_exists: self.if_not_exists,
            columns: columns_model(self.columns@),
            primary_keys: strings_view(self.primary_keys@),
            unique_keys: key_lists_view(self.unique_keys@),
            foreign_keys: foreign_keys_model(self.foreign_keys@),
        }
    }
}

/// The definitions inside `CREATE TABLE (...)`: columns, primary key, unique keys, foreign keys.
pub open spec fn table_definitions(m: CreateTableModel) -> Seq<Seq<char>> {
    m.columns.map_values(|c: ColumnDefinitionModel| column_text(c))
        + (if m.primary_keys.len() > 0 {
            seq!["PRIMARY KEY ("@ + join(m.primary_keys, ", "@) + ")"@]
        } else {
            Seq::empty()
        })
        + m.unique_keys.map_values(|k: Seq<Seq<char>>| "UNIQUE ("@ + join(k, ", "@) + ")"@)
        + m.foreign_keys.map_values(|f: ForeignKeyModel| foreign_key_text(f))
}

/// The text of a `CREATE TABLE` statement.
pub open spec fn create_table_text(m: CreateTableModel) -> Seq<char> {
    "CREATE TABLE "@ + (if m.if_not_exists { "IF NOT EXISTS "@ } else { Seq::empty() }) + m.table
        + " ("@ + join(table_definitions(m), ", "@) + ")"@
}

impl CreateTableBuilder {
    pub fn new(table: &str) -> (r: CreateTableBuilder)
        ensures
            r@ == (CreateTableModel {
                table: table@,
                if_not_exists: false,
                columns: Seq::empty(),
                primary_keys: Seq::empty(),
                unique_keys: Seq::empty(),
                foreign_keys: Seq::empty(),
            }),
    {
        let r = CreateTableBuilder {
            table: owned(table),
            if_not_exists: false,
            columns: Vec::new(),
            primary_keys: Vec::new(),
            unique_keys: Vec::new(),
            foreign_keys: Vec::new(),
        };
        proof {
            assert(r@.columns =~= Seq::<ColumnDefinitionModel>::empty());
            assert(r@.primary_keys =~= Seq::<Seq<char>>::empty());
            assert(r@.unique_keys =~= Seq::<Seq<Seq<char>>>::empty());
            assert(r@.foreign_keys =~= Seq::<ForeignKeyModel>::empty());
        }
        r
    }

    pub fn if_not_exists(self) -> (r: CreateTableBuilder)
        ensures
            r@ == (CreateTableModel { if_not_exists: true, ..self@ }),
    {
        let mut b = self;
        b.if_not_exists = true;
        b
    }

    pub fn column(self, column: ColumnDefinition) -> (r: CreateTableBuilder)
        ensures
            r@ == (CreateTableModel { columns: self@.columns.push(column@), ..self@ }),
    {
        let mut b = self;
        b.columns.push(column);
        proof {
            assert(b@.columns =~= self@.columns.push(column@));
        }
        b
    }

    pub fn primary_key(self, columns: Vec<String>) -> (r: CreateTableBuilder)
        ensures
            r@ == (CreateTableModel { primary_keys: strings_view(columns@), ..self@ }),
    {
        let mut b = self;
        b.primary_keys = columns;
        b
    }

    pub fn unique(self, columns: Vec<String>) -> (r: CreateTableBuilder)
        ensures
            r@ == (CreateTableModel { unique_keys: self@.unique_keys.push(strings_view(columns@)), ..self@ }),
    {
        let mut b = self;
        let ghost cv = strings_view(columns@);
        b.unique_keys.push(columns);
        proof {
            assert(b@.unique_keys =~= self@.unique_keys.push(cv));
        }
        b
    }

    pub fn foreign_key(self, foreign_key: ForeignKeyDefinition) -> (r: CreateTableBuilder)
        ensures
            r@ == (CreateTableModel { foreign_keys: self@.foreign_keys.push(foreign_key@), ..self@ }),
    {
        let mut b = self;
        b.foreign_keys.push(foreign_key);
        proof {
            assert(b@.foreign_keys =~= self@.foreign_keys.push(foreign_key@));
        }
        b
    }

    pub fn build<D: SqlDialect>(self, _dialect: &D) -> (r: BuiltQuery)
        ensures
            r.sql@ == create_table_text(self@),
            r.params@.len() == 0,
    {
        let ghost m = self@;
        let mut defs: Vec<String> = Vec::new();
        let n = self.columns.len();
        let mut i: usize = 0;
        while i < n
            invariant
                n == self.columns@.len(),
                i <= n,
                defs@.len() == i,
                forall|j: int| 0 <= j < i ==> #[trigger] defs@[j]@ == column_text(self.columns@[j]@),
            decreases n - i,
        {
            let t = self.columns[i].render();
            defs.push(t);
            i = i + 1;
        }
        let ghost d0 = strings_view(defs@);
        proof {
            assert(d0 =~= m.columns.map_values(|c: ColumnDefinitionModel| column_text(c)));
        }
        if self.primary_keys.len() > 0 {
            let mut t = "PRIMARY KEY (".to_owned();
            let j = join_strings(&self.primary_keys, ", ");
            t.append(j.as_str());
            t.append(")");
            defs.push(t);
        }
        let ghost d1 = strings_view(defs@);
        proof {
            assert(d1 =~= d0 + (if m.primary_keys.len() > 0 {
                seq!["PRIMARY KEY ("@ + join(m.primary_keys, ", "@) + ")"@]
            } else {
                Seq::empty()
            }));
        }
        let k = self.unique_keys.len();
        let mut i: usize = 0;
        while i < k
            invariant
                k == self.unique_keys@.len(),
                i <= k,
                defs@.len() == d1.len() + i,
                forall|j: int| 0 <= j < d1.len() ==> #[trigger] defs@[j]@ == d1[j],
                forall|j: int| 0 <= j < i ==> #[trigger] defs@[d1.len() + j]@
                    == "UNIQUE ("@ + join(strings_view(self.unique_keys@[j]@), ", "@) + ")"@,
            decreases k - i,
        {
            let mut t = "UNIQUE (".to_owned();
            let j = join_strings(&self.unique_keys[i], ", ");
            t.append(j.as_str());
            t.append(")");
            defs.push(t);
            i = i + 1;
        }
        let ghost d2 = strings_view(defs@);
        proof {
            let u = m.unique_keys.map_values(|k: Seq<Seq<char>>| "UNIQUE ("@ + join(k, ", "@) + ")"@);
            assert(u.len() == k);
            assert forall|j: int| d1.len() <= j < d1.len() + u.len() implies #[trigger] d2[j] == u[j - d1.len()] by {
                let q = j - d1.len();
                assert(m.unique_keys[q] == strings_view(self.unique_keys@[q]@));
                assert(defs@[d1.len() + q]@ == d2[j]);
            }
            assert forall|j: int| 0 <= j < d1.len() implies #[trigger] d2[j] == d1[j] by {
                assert(defs@[j]@ == d2[j]);
            }
            assert(d2 =~= d1 + u);
        }
        let f = self.foreign_keys.len();
        let mut i: usize = 0;
        while i < f
            invariant
                f == self.foreign_keys@.len(),
                i <= f,
                defs@.len() == d2.len() + i,
                forall|j: int| 0 <= j < d2.len() ==> #[trigger] defs@[j]@ == d2[j],
                forall|j: int| 0 <= j < i ==> #[trigger] defs@[d2.len() + j]@
                    == foreign_key_text(self.foreign_keys@[j]@),
            decreases f - i,
        {
            let t = self.foreign_keys[i].render();
            defs.push(t);
            i = i + 1;
        }
        proof {
            let d3 = strings_view(defs@);
            let fk = m.foreign_keys.map_values(|f: ForeignKeyModel| foreign_key_text(f));
            assert(fk.len() == f);
            assert forall|j: int| d2.len() <= j < d2.len() + fk.len() implies #[trigger] d3[j] == fk[j - d2.len()] by {
                let q = j - d2.len();
                assert(m.foreign_keys[q] == self.foreign_keys@[q]@);
                assert(defs@[d2.len() + q]@ == d3[j]);
            }
            assert forall|j: int| 0 <= j < d2.len() implies #[trigger] d3[j] == d2[j] by {
                assert(defs@[j]@ == d3[j]);
            }
            assert(d3 =~= d2 + fk);
        }
        let mut sql = "CREATE TABLE ".to_owned();
        if self.if_not_exists {
            sql.append("IF NOT EXISTS ");
        }
        sql.append(self.table.as_str());
        sql.append(" (");
        let j = join_strings(&defs, ", ");
        sql.append(j.as_str());
        sql.append(")");
        BuiltQuery { sql, params: Vec::new() }
    }
}

/// One change of an `ALTER TABLE` statement.
pub enum AlterTableOperation {
    AddColumn(ColumnDefinition),
    DropColumn(String),
    RenameColumn { from: String, to: String },
    RenameTable(String),
    AddConstraint(String),
    Raw(String),
}

/// The model of an [`AlterTableOperation`].
pub enum AlterTableOperationModel {
    AddColumn(ColumnDefinitionModel),
    DropColumn(Seq<char>),
    RenameColumn { from: Seq<char>, to: Seq<char> },
    RenameTable(Seq<char>),
    AddConstraint(Seq<char>),
    Raw(Seq<char>),
}

impl View for AlterTableOperation {
    type V = AlterTableOperationModel;

    open spec fn view(&self) -> AlterTableOperationModel {
        match self {
            AlterTableOperation::AddColumn(c) => AlterTableOperationModel::AddColumn(c@),
            AlterTableOperation::DropColumn(c) => AlterTableOperationModel::DropColumn(c@),
            AlterTableOperation::RenameColumn { from, to } => AlterTableOperationModel::RenameColumn {
                from: from@,
                to: to@,
            },
            AlterTableOperation::RenameTable(n) => AlterTableOperationModel::RenameTable(n@),
            AlterTableOperation::AddConstraint(s) => AlterTableOperationModel::AddConstraint(s@),
            AlterTableOperation::Raw(s) => AlterTableOperationModel::Raw(s@),
        }
    }
}

/// The text of one change, after `ALTER TABLE <table> `.
pub open spec fn alter_operation_text(op: AlterTableOperationModel) -> Seq<char> {
    match op {
        AlterTableOperationModel::AddColumn(c) => "ADD COLUMN "@ + column_text(c),
        AlterTableOperationModel::DropColumn(c) => "DROP COLUMN "@ + c,
        AlterTableOperationModel::RenameColumn { from, to } => "RENAME COLUMN "@ + from + " TO "@ + to,
        AlterTableOperationModel::RenameTable(n) => "RENAME TO "@ + n,
        AlterTableOperationModel::AddConstraint(s) => s,
        AlterTableOperationModel::Raw(s) => s,
    }
}

impl AlterTableOperation {
    fn render(&self) -> (r: String)
        ensures
            r@ == alter_operation_text(self@),
    {
        match self {
            AlterTableOperation::AddColumn(c) => {
                let mut s = "ADD COLUMN ".to_owned();
                let t = c.render();
                s.append(t.as_str());
                s
            },
            AlterTableOperation::DropColumn(c) => {
                let mut s = "DROP COLUMN ".to_owned();
                s.append(c.as_str());
                s
            },
            AlterTableOperation::RenameColumn { from, to } => {
                let mut s = "RENAME COLUMN ".to_owned();
                s.append(from.as_str());
                s.append(" TO ");
                s.append(to.as_str());
                s
            },
            AlterTableOperation::RenameTable(n) => {
                let mut s = "RENAME TO ".to_owned();
                s.append(n.as_str());
                s
            },
            AlterTableOperation::AddConstraint(s) => s.clone(),
            AlterTableOperation::Raw(s) => s.clone(),
        }
    }
}

/// An `ALTER TABLE` statement under construction: one statement per change.
pub struct AlterTableBuilder {
    table: String,
    operations: Vec<AlterTableOperation>,
}

/// The model of an [`AlterTableBuilder`].
pub struct AlterTableModel {
    pub table: Seq<char>,
    pub operations: Seq<AlterTableOperationModel>,
}

impl View for AlterTableBuilder {
    type V = AlterTableModel;

    closed spec fn view(&self) -> AlterTableModel {
        AlterTableModel {
            table: self.table@,
            operations: self.operations@.map_values(|o: AlterTableOperation| o@),
        }
    }
}

/// `ALTER TABLE <table> <change>` for each change, joined with `; `.
pub open spec fn alter_table_text(m: AlterTableModel) -> Seq<char> {
    join(
        m.operations.map_values(|o: AlterTableOperationModel| "ALTER TABLE "@ + m.table + " "@ + alter_operation_text(o)),
        "; "@,
    )
}

impl AlterTableBuilder {
    pub fn new(table: &str) -> (r: AlterTableBuilder)
        ensures
            r@ == (AlterTableModel { table: table@, operations: Seq::empty() }),
    {
        let r = AlterTableBuilder { table: owned(table), operations: Vec::new() };
        proof {
            assert(r@.operations =~= Seq::<AlterTableOperationModel>::empty());
        }
        r
    }

    fn push(self, op: AlterTableOperation) -> (r: AlterTableBuilder)
        ensures
            r@ == (AlterTableModel { operations: self@.operations.push(op@), ..self@ }),
    {
        let mut b = self;
        let ghost ov = op@;
        b.operations.push(op);
        proof {
            assert(b@.operations =~= self@.operations.push(ov));
        }
        b
    }

    pub fn add_column(self, column: ColumnDefinition) -> (r: AlterTableBuilder)
        ensures
            r@ == (AlterTableModel {
                operations: self@.operations.push(AlterTableOperationModel::AddColumn(column@)),
                ..self@
            }),
    {
        self.push(AlterTableOperation::AddColumn(column))
    }

    pub fn drop_column(self, column: &str) -> (r: AlterTableBuilder)
        ensures
            r@ == (AlterTableModel {
                operations: self@.operations.push(AlterTableOperationModel::DropColumn(column@)),
                ..self@
            }),
    {
        self.push(AlterTableOperation::DropColumn(owned(column)))
    }

    pub fn rename_column(self, from: &str, to: &str) -> (r: AlterTableBuilder)
        ensures
            r@ == (AlterTableModel {
                operations: self@.operations.push(AlterTableOperationModel::RenameColumn { from: from@, to: to@ }),
                ..self@
            }),
    {
        self.push(AlterTableOperation::RenameColumn { from: owned(from), to: owned(to) })
    }

    pub fn rename_table(self, name: &str) -> (r: AlterTableBuilder)
        ensures
            r@ == (AlterTableModel {
                operations: self@.operations.push(AlterTableOperationModel::RenameTable(name@)),
                ..self@
            }),
    {
        self.push(AlterTableOperation::RenameTable(owned(name)))
    }

    pub fn add_constraint(self, sql: &str) -> (r: AlterTableBuilder)
        ensures
            r@ == (AlterTableModel {
                operations: self@.operations.push(AlterTableOperationModel::AddConstraint(sql@)),
                ..self@
            }),
    {
        self.push(AlterTableOperation::AddConstraint(owned(sql)))
    }

    pub fn raw(self, sql: &str) -> (r: AlterTableBuilder)
        ensures
            r@ == (AlterTableModel {
                operations: self@.operations.push(AlterTableOperationModel::Raw(sql@)),
                ..self@
            }),
    {
        self.push(AlterTableOperation::Raw(owned(sql)))
    }

    pub fn build<D: SqlDialect>(self, _dialect: &D) -> (r: BuiltQuery)
        ensures
            r.sql@ == alter_table_text(self@),
            r.params@.len() == 0,
    {
        let ghost m = self@;
        let mut parts: Vec<String> = Vec::new();
        let n = self.operations.len();
        let mut i: usize = 0;
        while i < n
            invariant
                n == self.operations@.len(),
                i <= n,
                parts@.len() == i,
                forall|j: int| 0 <= j < i ==> #[trigger] parts@[j]@
                    == "ALTER TABLE "@ + self.table@ + " "@ + alter_operation_text(self.operations@[j]@),
            decreases n - i,
        {
            let mut t = "ALTER TABLE ".to_owned();
            t.append(self.table.as_str());
            t.append(" ");
            let o = self.operations[i].render();
            t.append(o.as_str());
            parts.push(t);
            i = i + 1;
        }
        proof {
            assert(strings_view(parts@) =~= m.operations.map_values(|o: AlterTableOperationModel| "ALTER TABLE "@ + m.table + " "@ + alter_operation_text(o)));
        }
        let sql = join_strings(&parts, "; ");
        BuiltQuery { sql, params: Vec::new() }
    }
}

/// A `DROP TABLE` statement under construction.
pub struct DropTableBuilder {
    table: String,
    if_exists: bool,
    cascade: bool,
}

/// The model of a [`DropTableBuilder`].
pub struct DropTableModel {
    pub table: Seq<char>,
    pub if_exists: bool,
    pub cascade: bool,
}

impl View for DropTableBuilder {
    type V = DropTableModel;

    closed spec fn view(&self) -> DropTableModel {
        DropTableModel { table: self.table@, if_exists: self.if_exists, cascade: self.cascade }
    }
}

/// `DROP TABLE [IF EXISTS ]<table>[ CASCADE]`.
pub open spec fn drop_table_text(m: DropTableModel) -> Seq<char> {
    "DROP TABLE "@ + (if m.if_exists { "IF EXISTS "@ } else { Seq::empty() }) + m.table
        + (if m.cascade { " CASCADE"@ } else { Seq::empty() })
}

impl DropTableBuilder {
    pub fn new(table: &str) -> (r: DropTableBuilder)
        ensures
            r@ == (DropTableModel { table: table@, if_exists: false, cascade: false }),
    {
        DropTableBuilder { table: owned(table), if_exists: false, cascade: false }
    }

    pub fn if_exists(self) -> (r: DropTableBuilder)
        ensures
            r@ == (DropTableModel { if_exists: true, ..self@ }),
    {
        let mut b = self;
        b.if_exists = true;
        b
    }

    pub fn cascade(self) -> (r: DropTableBuilder)
        ensures
            r@ == (DropTableModel { cascade: true, ..self@ }),
    {
        let mut b = self;
        b.cascade = true;
        b
    }

    pub fn build<D: SqlDialect>(self, _dialect: &D) -> (r: BuiltQuery)
        ensures
            r.sql@ == drop_table_text(self@),
            r.params@.len() == 0,
    {
        let mut sql = "DROP TABLE ".to_owned();
        if self.if_exists {
            sql.append("IF EXISTS ");
        }
        sql.append(self.table.as_str());
        if self.cascade {
            sql.append(" CASCADE");
        }
        BuiltQuery { sql, params: Vec::new() }
    }
}

} // verus!
