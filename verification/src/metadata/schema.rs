//! Table schemas described by metadata, their DDL, and the tables the metadata itself
//! is stored in.

use vstd::prelude::*;

use crate::engine::ddl::{
    option_view, ColumnDefinition, ColumnDefinitionModel, CreateTableBuilder, CreateTableModel,
    DdlValueModel, ForeignKeyDefinition, ForeignKeyModel,
};
use crate::text::{copy_string, copy_strings, nat_text, owned, push_u64, string_list1, string_list2, strings_view};

verus! {

/// The type of a metadata column.
#[derive(Debug, Clone, Copy, PartialEq, Eq, Structural)]
pub enum MetadataColumnType {
    BigInt,
    Integer,
    Boolean,
    Text,
    Json,
    DateTime,
    Decimal { precision: u8, scale: u8 },
    Varchar(usize),
}

/// The SQL type name of a column type.
pub open spec fn column_type_text(t: MetadataColumnType) -> Seq<char> {
    match t {
        MetadataColumnType::BigInt => "BIGINT"@,
        MetadataColumnType::Integer => "INTEGER"@,
        MetadataColumnType::Boolean => "BOOLEAN"@,
        MetadataColumnType::Text => "TEXT"@,
        MetadataColumnType::Json => "JSON"@,
        MetadataColumnType::DateTime => "TIMESTAMP"@,
        MetadataColumnType::Decimal { precision, scale } =>
            "DECIMAL("@ + nat_text(precision as nat) + ", "@ + nat_text(scale as nat) + ")"@,
        MetadataColumnType::Varchar(length) => "VARCHAR("@ + nat_text(length as nat) + ")"@,
    }
}

impl MetadataColumnType {
    /// The SQL type name, such as `VARCHAR(64)` or `DECIMAL(18, 2)`.
    pub fn sql_type(&self) -> (r: String)
        ensures
            r@ == column_type_text(*self),
    {
        match self {
            MetadataColumnType::BigInt => "BIGINT".to_owned(),
            MetadataColumnType::Integer => "INTEGER".to_owned(),
            MetadataColumnType::Boolean => "BOOLEAN".to_owned(),
            MetadataColumnType::Text => "TEXT".to_owned(),
            MetadataColumnType::Json => "JSON".to_owned(),
            MetadataColumnType::DateTime => "TIMESTAMP".to_owned(),
            MetadataColumnType::Decimal { precision, scale } => {
                let mut s = "DECIMAL(".to_owned();
                push_u64(&mut s, *precision as u64);
                s.append(", ");
                push_u64(&mut s, *scale as u64);
                s.append(")");
                s
            },
            MetadataColumnType::Varchar(length) => {
                let mut s = "VARCHAR(".to_owned();
                push_u64(&mut s, *length as u64);
                s.append(")");
                s
            },
        }
    }
}

/// A column of a table schema.
#[derive(Debug, Clone, PartialEq, Eq)]
pub struct MetadataColumnSchema {
    pub name: String,
    pub column_type: MetadataColumnType,
    pub nullable: bool,
    pub unique: bool,
    pub default_raw: Option<String>,
}

/// The model of a [`MetadataColumnSchema`].
pub struct ColumnSchemaModel {
    pub name: Seq<char>,
    pub column_type: MetadataColumnType,
    pub nullable: bool,
    pub unique: bool,
    pub default_raw: Option<Seq<char>>,
}

impl View for MetadataColumnSchema {
    type V = ColumnSchemaModel;

    open spec fn view(&self) -> ColumnSchemaModel {
        ColumnSchemaModel {
            name: self.name@,
            column_type: self.column_type,
            nullable: self.nullable,
            unique: self.unique,
            default_raw: option_view(self.default_raw),
        }
    }
}

/// The DDL column a schema column becomes.
pub open spec fn column_definition_of(c: ColumnSchemaModel) -> ColumnDefinitionModel {
    ColumnDefinitionModel {
        name: c.name,
        data_type: column_type_text(c.column_type),
        nullable: c.nullable,
        default_value: match c.default_raw {
            Some(s) => Some(DdlValueModel::Raw(s)),
            None => None,
        },
        primary_key: false,
        unique: c.unique,
    }
}

impl MetadataColumnSchema {
    /// A nullable, non-unique column without default.
    pub fn new(name: &str, column_type: MetadataColumnType) -> (r: MetadataColumnSchema)
        ensures
            r@ == (ColumnSchemaModel { name: name@, column_type, nullable: true, unique: false, default_raw: None }),
    {
        MetadataColumnSchema { name: owned(name), column_type, nullable: true, unique: false, default_raw: None }
    }

    pub fn not_null(self) -> (r: MetadataColumnSchema)
        ensures
            r@ == (ColumnSchemaModel { nullable: false, ..self@ }),
    {
        let mut c = self;
        c.nullable = false;
        c
    }

    pub fn unique(self) -> (r: MetadataColumnSchema)
        ensures
            r@ == (ColumnSchemaModel { unique: true, ..self@ }),
    {
        let mut c = self;
        c.unique = true;
        c
    }

    pub fn default_raw(self, sql: &str) -> (r: MetadataColumnSchema)
        ensures
            r@ == (ColumnSchemaModel { default_raw: Some(sql@), ..self@ }),
    {
        let mut c = self;
        c.default_raw = Some(owned(sql));
        c
    }

    /// The DDL definition of this column.
    pub fn to_column_definition(&self) -> (r: ColumnDefinition)
        ensures
            r@ == column_definition_of(self@),
    {
        let t = self.column_type.sql_type();
        let mut column = ColumnDefinition::new(self.name.as_str(), t.as_str());
        if !self.nullable {
            column = column.not_null();
        }
        if self.unique {
            column = column.unique();
        }
        match &self.default_raw {
            Some(default_raw) => {
                column = column.default_raw(default_raw.as_str());
            },
            None => {},
        }
        column
    }

    pub fn duplicate(&self) -> (r: MetadataColumnSchema)
        ensures
            r@ == self@,
    {
        MetadataColumnSchema {
            name: copy_string(&self.name),
            column_type: self.column_type,
            nullable: self.nullable,
            unique: self.unique,
            default_raw: match &self.default_raw {
                Some(s) => Some(copy_string(s)),
                None => None,
            },
        }
    }
}

/// A foreign key of a table schema.
#[derive(Debug, Clone, PartialEq, Eq)]
pub struct MetadataForeignKeySchema {
    pub name: Option<String>,
    pub columns: Vec<String>,
    pub referenced_table: String,
    pub referenced_columns: Vec<String>,
    pub on_delete: Option<String>,
}

/// The model of a [`MetadataForeignKeySchema`].
pub struct ForeignKeySchemaModel {
    pub name: Option<Seq<char>>,
    pub columns: Seq<Seq<char>>,
    pub referenced_table: Seq<char>,
    pub referenced_columns: Seq<Seq<char>>,
    pub on_delete: Option<Seq<char>>,
}

impl View for MetadataForeignKeySchema {
    type V = ForeignKeySchemaModel;

    open spec fn view(&self) -> ForeignKeySchemaModel {
        ForeignKeySchemaModel {
            name: option_view(self.name),
            columns: strings_view(self.columns@),
            referenced_table: self.referenced_table@,
            referenced_columns: strings_view(self.referenced_columns@),
            on_delete: option_view(self.on_delete),
        }
    }
}

/// The DDL foreign key a schema foreign key becomes.
pub open spec fn foreign_key_definition_of(f: ForeignKeySchemaModel) -> ForeignKeyModel {
    ForeignKeyModel {
        name: f.name,
        columns: f.columns,
        referenced_table: f.referenced_table,
        referenced_columns: f.referenced_columns,
        on_delete: f.on_delete,
        on_update: None,
    }
}

impl MetadataForeignKeySchema {
    pub fn new(columns: Vec<String>, referenced_table: &str, referenced_columns: Vec<String>) -> (r: MetadataForeignKeySchema)
        ensures
            r@ == (ForeignKeySchemaModel {
                name: None,
                columns: strings_view(columns@),
                referenced_table: referenced_table@,
                referenced_columns: strings_view(referenced_columns@),
                on_delete: None,
            }),
    {
        MetadataForeignKeySchema {
            name: None,
            columns,
            referenced_table: owned(referenced_table),
            referenced_columns,
            on_delete: None,
        }
    }

    pub fn name(self, name: &str) -> (r: MetadataForeignKeySchema)
        ensures
            r@ == (ForeignKeySchemaModel { name: Some(name@), ..self@ }),
    {
        let mut f = self;
        f.name = Some(owned(name));
        f
    }

    pub fn on_delete(self, action: &str) -> (r: MetadataForeignKeySchema)
        ensures
            r@ == (ForeignKeySchemaModel { on_delete: Some(action@), ..self@ }),
    {
        let mut f = self;
        f.on_delete = Some(owned(action));
        f
    }

    /// The DDL definition of this foreign key.
    pub fn to_foreign_key_definition(&self) -> (r: ForeignKeyDefinition)
        ensures
            r@ == foreign_key_definition_of(self@),
    {
        let mut definition = ForeignKeyDefinition::new(
            copy_strings(&self.columns),
            self.referenced_table.as_str(),
            copy_strings(&self.referenced_columns),
        );
        match &self.name {
            Some(name) => {
                definition = definition.name(name.as_str());
            },
            None => {},
        }
        match &self.on_delete {
            Some(on_delete) => {
                definition = definition.on_delete(on_delete.as_str());
            },
            None => {},
        }
        definition
    }
}

/// A table schema: columns, primary key, unique keys and foreign keys.
#[derive(Debug, Clone, PartialEq, Eq)]
pub struct MetadataTableSchema {
    pub name: String,
    pub columns: Vec<MetadataColumnSchema>,
    pub primary_key: Vec<String>,
    pub unique_keys: Vec<Vec<String>>,
    pub foreign_keys: Vec<MetadataForeignKeySchema>,
}

/// The model of a [`MetadataTableSchema`].
pub struct TableSchemaModel {
    pub name: Seq<char>,
    pub columns: Seq<ColumnSchemaModel>,
    pub primary_key: Seq<Seq<char>>,
    pub unique_keys: Seq<Seq<Seq<char>>>,
    pub foreign_keys: Seq<ForeignKeySchemaModel>,
}

pub open spec fn column_schemas_model(items: Seq<MetadataColumnSchema>) -> Seq<ColumnSchemaModel> {
    items.map_values(|c: MetadataColumnSchema| c@)
}

pub open spec fn foreign_key_schemas_model(items: Seq<MetadataForeignKeySchema>) -> Seq<ForeignKeySchemaModel> {
    items.map_values(|f: MetadataForeignKeySchema| f@)
}

pub open spec fn string_lists_view(items: Seq<Vec<String>>) -> Seq<Seq<Seq<char>>> {
    items.map_values(|k: Vec<String>| strings_view(k@))
}

impl View for MetadataTableSchema {
    type V = TableSchemaModel;

    open spec fn view(&self) -> TableSchemaModel {
        TableSchemaModel {
            name: self.name@,
            columns: column_schemas_model(self.columns@),
            primary_key: strings_view(self.primary_key@),
            unique_keys: string_lists_view(self.unique_keys@),
            foreign_keys: foreign_key_schemas_model(self.foreign_keys@),
        }
    }
}

/// The models of a sequence of table schemas.
pub open spec fn table_schemas_model(items: Seq<MetadataTableSchema>) -> Seq<TableSchemaModel> {
    items.map_values(|t: MetadataTableSchema| t@)
}

/// The `CREATE TABLE` builder a table schema becomes.
pub open spec fn create_table_of(t: TableSchemaModel) -> CreateTableModel {
    CreateTableModel {
        table: t.name,
        if_not_exists: false,
        columns: t.columns.map_values(|c: ColumnSchemaModel| column_definition_of(c)),
        primary_keys: t.primary_key,
        unique_keys: t.unique_keys,
        foreign_keys: t.foreign_keys.map_values(|f: ForeignKeySchemaModel| foreign_key_definition_of(f)),
    }
}

/// `m` with its keys replaced.
pub open spec fn with_keys(
    m: CreateTableModel,
    primary_keys: Seq<Seq<char>>,
    unique_keys: Seq<Seq<Seq<char>>>,
    foreign_keys: Seq<ForeignKeyModel>,
) -> CreateTableModel {
    CreateTableModel { primary_keys, unique_keys, foreign_keys, ..m }
}

impl MetadataTableSchema {
    /// A table without columns or keys.
    pub fn new(name: &str) -> (r: MetadataTableSchema)
        ensures
            r@ == (TableSchemaModel {
                name: name@,
                columns: Seq::empty(),
                primary_key: Seq::empty(),
                unique_keys: Seq::empty(),
                foreign_keys: Seq::empty(),
            }),
    {
        let r = MetadataTableSchema {
            name: owned(name),
            columns: Vec::new(),
            primary_key: Vec::new(),
            unique_keys: Vec::new(),
            foreign_keys: Vec::new(),
        };
        assert(r@.columns =~= Seq::<ColumnSchemaModel>::empty());
        assert(r@.primary_key =~= Seq::<Seq<char>>::empty());
        assert(r@.unique_keys =~= Seq::<Seq<Seq<char>>>::empty());
        assert(r@.foreign_keys =~= Seq::<ForeignKeySchemaModel>::empty());
        r
    }

    pub fn column(self, column: MetadataColumnSchema) -> (r: MetadataTableSchema)
        ensures
            r@ == (TableSchemaModel { columns: self@.columns.push(column@), ..self@ }),
    {
        let mut t = self;
        t.columns.push(column);
        assert(t@.columns =~= self@.columns.push(column@));
        t
    }

    pub fn primary_key(self, columns: Vec<String>) -> (r: MetadataTableSchema)
        ensures
            r@ == (TableSchemaModel { primary_key: strings_view(columns@), ..self@ }),
    {
        let mut t = self;
        t.primary_key = columns;
        t
    }

    pub fn unique_key(self, columns: Vec<String>) -> (r: MetadataTableSchema)
        ensures
            r@ == (TableSchemaModel { unique_keys: self@.unique_keys.push(strings_view(columns@)), ..self@ }),
    {
        let mut t = self;
        let ghost cv = strings_view(columns@);
        t.unique_keys.push(columns);
        assert(t@.unique_keys =~= self@.unique_keys.push(cv));
        t
    }

    pub fn foreign_key(self, foreign_key: MetadataForeignKeySchema) -> (r: MetadataTableSchema)
        ensures
            r@ == (TableSchemaModel { foreign_keys: self@.foreign_keys.push(foreign_key@), ..self@ }),
    {
        let mut t = self;
        t.foreign_keys.push(foreign_key);
        assert(t@.foreign_keys =~= self@.foreign_keys.push(foreign_key@));
        t
    }

    /// The `CREATE TABLE` builder of this schema.
    pub fn to_create_table_builder(&self) -> (r: CreateTableBuilder)
        ensures
            r@ == create_table_of(self@),
    {
        let ghost m = self@;
        let mut builder = CreateTableBuilder::new(self.name.as_str());
        proof {
            assert(m.columns.map_values(|c: ColumnSchemaModel| column_definition_of(c)).take(0)
                =~= Seq::<ColumnDefinitionModel>::empty());
        }
        let n = self.columns.len();
        let mut i: usize = 0;
        while i < n
            invariant
                n == self.columns@.len(),
                i <= n,
                m == self@,
                builder@ == with_keys(
                    CreateTableModel {
                        columns: m.columns.map_values(|c: ColumnSchemaModel| column_definition_of(c)).take(i as int),
                        ..create_table_of(m)
                    },
                    Seq::empty(),
                    Seq::empty(),
                    Seq::empty(),
                ),
            decreases n - i,
        {
            let d = self.columns[i].to_column_definition();
            builder = builder.column(d);
            proof {
                assert(m.columns[i as int] == self.columns@[i as int]@);
                assert(m.columns.map_values(|c: ColumnSchemaModel| column_definition_of(c)).take(i + 1)
                    =~= m.columns.map_values(|c: ColumnSchemaModel| column_definition_of(c)).take(i as int).push(d@));
            }
            i = i + 1;
        }
        proof {
            assert(m.columns.map_values(|c: ColumnSchemaModel| column_definition_of(c)).take(n as int)
                =~= m.columns.map_values(|c: ColumnSchemaModel| column_definition_of(c)));
        }
        if self.primary_key.len() > 0 {
            builder = builder.primary_key(copy_strings(&self.primary_key));
        } else {
            assert(m.primary_key =~= Seq::<Seq<char>>::empty());
        }
        proof {
            assert(m.unique_keys.take(0) =~= Seq::<Seq<Seq<char>>>::empty());
        }
        let k = self.unique_keys.len();
        let mut i: usize = 0;
        while i < k
            invariant
                k == self.unique_keys@.len(),
                i <= k,
                m == self@,
                builder@ == with_keys(create_table_of(m), m.primary_key, m.unique_keys.take(i as int), Seq::empty()),
            decreases k - i,
        {
            let u = copy_strings(&self.unique_keys[i]);
            builder = builder.unique(u);
            proof {
                assert(m.unique_keys[i as int] == strings_view(self.unique_keys@[i as int]@));
                assert(m.unique_keys.take(i + 1) =~= m.unique_keys.take(i as int).push(m.unique_keys[i as int]));
            }
            i = i + 1;
        }
        proof {
            assert(m.unique_keys.take(k as int) =~= m.unique_keys);
        }
        proof {
            assert(m.foreign_keys.map_values(|x: ForeignKeySchemaModel| foreign_key_definition_of(x)).take(0)
                =~= Seq::<ForeignKeyModel>::empty());
        }
        let f = self.foreign_keys.len();
        let mut i: usize = 0;
        while i < f
            invariant
                f == self.foreign_keys@.len(),
                i <= f,
                m == self@,
                builder@ == with_keys(
                    create_table_of(m),
                    m.primary_key,
                    m.unique_keys,
                    m.foreign_keys.map_values(|x: ForeignKeySchemaModel| foreign_key_definition_of(x)).take(i as int),
                ),
            decreases f - i,
        {
            let d = self.foreign_keys[i].to_foreign_key_definition();
            builder = builder.foreign_key(d);
            proof {
                assert(m.foreign_keys[i as int] == self.foreign_keys@[i as int]@);
                assert(m.foreign_keys.map_values(|x: ForeignKeySchemaModel| foreign_key_definition_of(x)).take(i + 1)
                    =~= m.foreign_keys.map_values(|x: ForeignKeySchemaModel| foreign_key_definition_of(x)).take(i as int).push(d@));
            }
            i = i + 1;
        }
        proof {
            assert(m.foreign_keys.map_values(|x: ForeignKeySchemaModel| foreign_key_definition_of(x)).take(f as int)
                =~= m.foreign_keys.map_values(|x: ForeignKeySchemaModel| foreign_key_definition_of(x)));
        }
        builder
    }
}

} // verus!
