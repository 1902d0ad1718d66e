//! The column descriptions a portal sends, and the provider's options.

use vstd::prelude::*;

use crate::text::{copy_string, str_eq};
use crate::value::Value;

verus! {

/// The identifier of a portal record.
pub type Id = i64;

/// How a column gets its value.
#[derive(Debug, Clone, Copy, PartialEq, Eq, Structural)]
pub enum Obtainmanner {
    Text,
    Object,
    Ignore,
    Operate,
    SheetNo,
    Triger,
}

/// The manner a text names; any unknown text is [`Obtainmanner::Text`].
pub open spec fn obtainmanner_of(text: Seq<char>) -> Obtainmanner {
    if text == "text"@ {
        Obtainmanner::Text
    } else if text == "object"@ {
        Obtainmanner::Object
    } else if text == "ignore"@ {
        Obtainmanner::Ignore
    } else if text == "operate"@ {
        Obtainmanner::Operate
    } else if text == "sheetNo"@ {
        Obtainmanner::SheetNo
    } else if text == "triger"@ {
        Obtainmanner::Triger
    } else {
        Obtainmanner::Text
    }
}

/// The text of a manner.
pub open spec fn obtainmanner_text(m: Obtainmanner) -> Seq<char> {
    match m {
        Obtainmanner::Text => "text"@,
        Obtainmanner::Object => "object"@,
        Obtainmanner::Ignore => "ignore"@,
        Obtainmanner::Operate => "operate"@,
        Obtainmanner::SheetNo => "sheetNo"@,
        Obtainmanner::Triger => "triger"@,
    }
}

/// Reading back the text of a manner gives the manner again.
pub proof fn obtainmanner_text_round_trip(m: Obtainmanner)
    ensures
        obtainmanner_of(obtainmanner_text(m)) == m,
{
    reveal_strlit("text");
    reveal_strlit("object");
    reveal_strlit("ignore");
    reveal_strlit("operate");
    reveal_strlit("sheetNo");
    reveal_strlit("triger");
    let t = obtainmanner_text(m);
    assert(t.len() != 4 ==> t != "text"@);
    assert(t[0] != 'o' ==> t != "object"@ && t != "operate"@);
    assert(t[0] != 'i' ==> t != "ignore"@);
    assert(t[0] != 's' ==> t != "sheetNo"@);
    assert(t[0] != 't' ==> t != "triger"@ && t != "text"@);
    assert(t.len() != 6 ==> t != "object"@ && t != "triger"@ && t != "ignore"@);
}

impl Obtainmanner {
    /// The text of this manner, such as `sheetNo`.
    pub fn to_string(&self) -> (r: String)
        ensures
            r@ == obtainmanner_text(*self),
    {
        match self {
            Obtainmanner::Text => "text".to_owned(),
            Obtainmanner::Object => "object".to_owned(),
            Obtainmanner::Ignore => "ignore".to_owned(),
            Obtainmanner::Operate => "operate".to_owned(),
            Obtainmanner::SheetNo => "sheetNo".to_owned(),
            Obtainmanner::Triger => "triger".to_owned(),
        }
    }

    /// The manner a text names; any unknown text is [`Obtainmanner::Text`].
    pub fn from_text(value: &str) -> (r: Obtainmanner)
        ensures
            r == obtainmanner_of(value@),
    {
        if str_eq(value, "text") {
            Obtainmanner::Text
        } else if str_eq(value, "object") {
            Obtainmanner::Object
        } else if str_eq(value, "ignore") {
            Obtainmanner::Ignore
        } else if str_eq(value, "operate") {
            Obtainmanner::Operate
        } else if str_eq(value, "sheetNo") {
            Obtainmanner::SheetNo
        } else if str_eq(value, "triger") {
            Obtainmanner::Triger
        } else {
            Obtainmanner::Text
        }
    }
}

impl Default for Obtainmanner {
    fn default() -> (r: Obtainmanner)
        ensures
            r == Obtainmanner::Text,
    {
        Obtainmanner::Text
    }
}

/// The display column of a referenced table.
#[derive(Debug, Clone)]
pub struct Dk {
    pub table_id: Id,
    pub table_name: String,
    pub column_id: Id,
    pub dk_column: String,
}

impl Default for Dk {
    fn default() -> (r: Dk)
        ensures
            r.table_id == 0,
            r.table_name@.len() == 0,
            r.column_id == 0,
            r.dk_column@.len() == 0,
    {
        Dk { table_id: 0, table_name: String::new(), column_id: 0, dk_column: String::new() }
    }
}

impl Dk {
    pub fn duplicate(&self) -> (r: Dk)
        ensures
            r.table_id == self.table_id,
            r.table_name@ == self.table_name@,
            r.column_id == self.column_id,
            r.dk_column@ == self.dk_column@,
    {
        Dk {
            table_id: self.table_id,
            table_name: copy_string(&self.table_name),
            column_id: self.column_id,
            dk_column: copy_string(&self.dk_column),
        }
    }
}

/// One choice of a select column.
#[derive(Debug, Clone)]
pub struct Select {
    pub code: String,
    pub name: String,
}

impl Default for Select {
    fn default() -> (r: Select)
        ensures
            r.code@.len() == 0,
            r.name@.len() == 0,
    {
        Select { code: String::new(), name: String::new() }
    }
}

/// A column as a portal describes it.
#[derive(Debug, Clone)]
pub struct Column {
    pub id: Id,
    pub table_id: Id,
    pub real_table: Option<String>,
    pub current_table: String,
    pub table_name: String,
    pub column_id: Id,
    pub dbname: String,
    pub mask: String,
    pub ref_table_id: Option<Id>,
    pub nullable: bool,
    pub obtainmanner: String,
    pub sequencename: String,
    pub default_value: String,
    pub description: String,
    pub column_name: String,
    pub ref_table: Option<Dk>,
    pub columnlink_tablenames: Vec<String>,
    pub select: Vec<Select>,
    pub value: Option<Value>,
    pub order_by: String,
}

impl Default for Column {
    /// A column with empty texts, zero ids, no options and no value.
    fn default() -> (r: Column)
        ensures
            r.id == 0,
            r.table_id == 0,
            r.real_table is None,
            r.current_table@.len() == 0,
            r.table_name@.len() == 0,
            r.column_id == 0,
            r.dbname@.len() == 0,
            r.mask@.len() == 0,
            r.ref_table_id is None,
            !r.nullable,
            r.obtainmanner@.len() == 0,
            r.sequencename@.len() == 0,
            r.default_value@.len() == 0,
            r.description@.len() == 0,
            r.column_name@.len() == 0,
            r.ref_table is None,
            r.columnlink_tablenames@.len() == 0,
            r.select@.len() == 0,
            r.value is None,
            r.order_by@.len() == 0,
    {
        Column {
            id: 0,
            table_id: 0,
            real_table: None,
            current_table: String::new(),
            table_name: String::new(),
            column_id: 0,
            dbname: String::new(),
            mask: String::new(),
            ref_table_id: None,
            nullable: false,
            obtainmanner: String::new(),
            sequencename: String::new(),
            default_value: String::new(),
            description: String::new(),
            column_name: String::new(),
            ref_table: None,
            columnlink_tablenames: Vec::new(),
            select: Vec::new(),
            value: None,
            order_by: String::new(),
        }
    }
}

/// A referenced table of a column.
#[derive(Debug)]
pub struct RefTable {
    pub table_id: Id,
    pub table_name: String,
    pub column_id: Id,
    pub column_name: String,
    pub mask: String,
    pub ref_table_id: Id,
}

impl Default for RefTable {
    fn default() -> (r: RefTable)
        ensures
            r.table_id == 0,
            r.table_name@.len() == 0,
            r.column_id == 0,
            r.column_name@.len() == 0,
            r.mask@.len() == 0,
            r.ref_table_id == 0,
    {
        RefTable {
            table_id: 0,
            table_name: String::new(),
            column_id: 0,
            column_name: String::new(),
            mask: String::new(),
            ref_table_id: 0,
        }
    }
}

/// What a provider is asked for: the row, the mask position, grouping and a row filter.
#[derive(Debug, Clone)]
pub struct PortalProviderOption {
    pub id: Option<Id>,
    pub max_idx: Option<usize>,
    pub is_group: Option<bool>,
    pub table_filter: Option<String>,
}

impl Default for PortalProviderOption {
    fn default() -> (r: PortalProviderOption)
        ensures
            r.id is None,
            r.max_idx is None,
            r.is_group is None,
            r.table_filter is None,
    {
        PortalProviderOption { id: None, max_idx: None, is_group: None, table_filter: None }
    }
}

} // verus!
