//! The relational schema the backend persists to, as data: enumeration
//! types, tables, columns and foreign keys, with a verified well-formedness
//! check — every foreign key points at an existing table and column, every
//! enumeration column at a declared type, and names are unique.

use vstd::prelude::*;

verus! {

/// Type of a column.
pub enum ColumnType {
    Integer,
    Text,
    Boolean,
    Double,
    Date,
    /// A closed enumeration, by the name of its declared type.
    Enumeration(String),
}

/// What happens to a referencing row when the referenced row is deleted.
#[derive(Clone, Copy, Debug, PartialEq, Eq, Structural)]
pub enum FkAction {
    Restrict,
    SetNull,
}

/// One column of a table.
pub struct ColumnSpec {
    pub name: String,
    pub ty: ColumnType,
    pub nullable: bool,
    pub primary_key: bool,
    pub auto_increment: bool,
}

/// One foreign key of a table.
pub struct ForeignKeySpec {
    pub name: String,
    pub from_column: String,
    pub to_table: String,
    pub to_column: String,
    pub on_delete: FkAction,
}

/// One table: its name, columns, and foreign keys.
pub struct TableSpec {
    pub name: String,
    pub columns: Vec<ColumnSpec>,
    pub foreign_keys: Vec<ForeignKeySpec>,
}

/// One declared enumeration type.
pub struct EnumTypeSpec {
    pub name: String,
    pub values: Vec<String>,
}

/// The whole schema.
pub struct Schema {
    pub enums: Vec<EnumTypeSpec>,
    pub tables: Vec<TableSpec>,
}

impl TableSpec {
    /// Whether the table has a column of the given name.
    pub open spec fn has_column(self, name: Seq<char>) -> bool {
        exists|i: int| 0 <= i < self.columns@.len() && #[trigger] self.columns@[i].name@ == name
    }

    /// Column names are pairwise distinct.
    pub open spec fn columns_distinct(self) -> bool {
        forall|i: int, j: int|
            0 <= i < j < self.columns@.len() ==> #[trigger] self.columns@[i].name@
                != #[trigger] self.columns@[j].name@
    }

    /// Some column is the primary key.
    pub open spec fn has_primary_key(self) -> bool {
        exists|i: int| 0 <= i < self.columns@.len() && #[trigger] self.columns@[i].primary_key
    }
}

impl Schema {
    /// Whether the schema has an enumeration type of the given name.
    pub open spec fn has_enum(self, name: Seq<char>) -> bool {
        exists|i: int| 0 <= i < self.enums@.len() && #[trigger] self.enums@[i].name@ == name
    }

    /// Whether some table of the given name has a column of the given name.
    pub open spec fn has_table_column(self, table: Seq<char>, column: Seq<char>) -> bool {
        exists|i: int|
            0 <= i < self.tables@.len() && #[trigger] self.tables@[i].name@ == table
                && self.tables@[i].has_column(column)
    }

    /// Table names are pairwise distinct.
    pub open spec fn tables_distinct(self) -> bool {
        forall|i: int, j: int|
            0 <= i < j < self.tables@.len() ==> #[trigger] self.tables@[i].name@
                != #[trigger] self.tables@[j].name@
    }

    /// One table is in order when its column names are distinct, it has a
    /// primary key, every foreign key leaves from one of its columns and
    /// points at an existing table and column, and every enumeration column
    /// names a declared type.
    pub open spec fn table_ok(self, t: TableSpec) -> bool {
        &&& t.columns_distinct()
        &&& t.has_primary_key()
        &&& (forall|k: int|
            0 <= k < t.foreign_keys@.len() ==> t.has_column(
                #[trigger] t.foreign_keys@[k].from_column@,
            ) && self.has_table_column(
                t.foreign_keys@[k].to_table@,
                t.foreign_keys@[k].to_column@,
            ))
        &&& (forall|k: int|
            0 <= k < t.columns@.len() ==> match #[trigger] t.columns@[k].ty {
                ColumnType::Enumeration(e) => self.has_enum(e@),
                _ => true,
            })
    }

    /// The whole schema is in order.
    pub open spec fn wf(self) -> bool {
        &&& self.tables_distinct()
        &&& (forall|i: int|
            0 <= i < self.tables@.len() ==> self.table_ok(#[trigger] self.tables@[i]))
    }
}

/// Whether the table has a column of the given name.
fn table_has_column(t: &TableSpec, name: &String) -> (r: bool)
    ensures
        r == t.has_column(name@),
{
    let n = t.columns.len();
    let mut i: usize = 0;
    while i < n
        invariant
            0 <= i <= n,
            n == t.columns@.len(),
            forall|j: int| 0 <= j < i ==> #[trigger] t.columns@[j].name@ != name@,
        decreases n - i,
    {
        if t.columns[i].name == *name {
            return true;
        }
        i += 1;
    }
    false
}

/// Whether some table of the given name has a column of the given name.
fn schema_has_table_column(s: &Schema, table: &String, column: &String) -> (r: bool)
    ensures
        r == s.has_table_column(table@, column@),
{
    let n = s.tables.len();
    let mut i: usize = 0;
    while i < n
        invariant
            0 <= i <= n,
            n == s.tables@.len(),
            forall|j: int|
                0 <= j < i ==> !(#[trigger] s.tables@[j].name@ == table@
                    && s.tables@[j].has_column(column@)),
        decreases n - i,
    {
        if s.tables[i].name == *table {
            if table_has_column(&s.tables[i], column) {
                return true;
            }
        }
        i += 1;
    }
    false
}

/// Whether the schema declares an enumeration type of the given name.
fn schema_has_enum(s: &Schema, name: &String) -> (r: bool)
    ensures
        r == s.has_enum(name@),
{
    let n = s.enums.len();
    let mut i: usize = 0;
    while i < n
        invariant
            0 <= i <= n,
            n == s.enums@.len(),
            forall|j: int| 0 <= j < i ==> #[trigger] s.enums@[j].name@ != name@,
        decreases n - i,
    {
        if s.enums[i].name == *name {
            return true;
        }
        i += 1;
    }
    false
}

/// Whether one table is in order within the schema.
fn check_table(s: &Schema, t: &TableSpec) -> (r: bool)
    ensures
        r == s.table_ok(*t),
{
    let ncol = t.columns.len();
    let mut i: usize = 0;
    while i < ncol
        invariant
            0 <= i <= ncol,
            ncol == t.columns@.len(),
            forall|a: int, b: int|
                0 <= a < b < i ==> #[trigger] t.columns@[a].name@ != #[trigger] t.columns@[b].name@,
        decreases ncol - i,
    {
        let mut j: usize = 0;
        while j < i
            invariant
                0 <= j <= i < ncol,
                ncol == t.columns@.len(),
                forall|b: int| 0 <= b < j ==> #[trigger] t.columns@[b].name@ != t.columns@[i as int].name@,
            decreases i - j,
        {
            if t.columns[j].name == t.columns[i].name {
                return false;
            }
            j += 1;
        }
        i += 1;
    }
    let mut has_pk = false;
    let mut i: usize = 0;
    while i < ncol
        invariant
            0 <= i <= ncol,
            ncol == t.columns@.len(),
            has_pk == exists|j: int| 0 <= j < i && #[trigger] t.columns@[j].primary_key,
        decreases ncol - i,
    {
        if t.columns[i].primary_key {
            has_pk = true;
        }
        i += 1;
    }
    if !has_pk {
        return false;
    }
    let nfk = t.foreign_keys.len();
    let mut k: usize = 0;
    while k < nfk
        invariant
            0 <= k <= nfk,
            nfk == t.foreign_keys@.len(),
            forall|a: int|
                0 <= a < k ==> t.has_column(#[trigger] t.foreign_keys@[a].from_column@)
                    && s.has_table_column(
                    t.foreign_keys@[a].to_table@,
                    t.foreign_keys@[a].to_column@,
                ),
        decreases nfk - k,
    {
        if !table_has_column(t, &t.foreign_keys[k].from_column) {
            return false;
        }
        if !schema_has_table_column(s, &t.foreign_keys[k].to_table, &t.foreign_keys[k].to_column) {
            return false;
        }
        proof {
            assert forall|a: int|
                0 <= a < k + 1 implies t.has_column(
                #[trigger] t.foreign_keys@[a].from_column@,
            ) && s.has_table_column(
                t.foreign_keys@[a].to_table@,
                t.foreign_keys@[a].to_column@,
            ) by {
                if a == k as int {
                    assert(t.has_column(t.foreign_keys@[a].from_column@));
                    assert(s.has_table_column(
                        t.foreign_keys@[a].to_table@,
                        t.foreign_keys@[a].to_column@,
                    ));
                }
            }
        }
        k += 1;
    }
    let mut c: usize = 0;
    while c < ncol
        invariant
            0 <= c <= ncol,
            ncol == t.columns@.len(),
            forall|a: int|
                0 <= a < c ==> match #[trigger] t.columns@[a].ty {
                    ColumnType::Enumeration(e) => s.has_enum(e@),
                    _ => true,
                },
        decreases ncol - c,
    {
        match &t.columns[c].ty {
            ColumnType::Enumeration(e) => {
                if !schema_has_enum(s, e) {
                    return false;
                }
            },
            _ => {},
        }
        c += 1;
    }
    true
}

/// Whether the whole schema is in order.
pub fn schema_well_formed(s: &Schema) -> (r: bool)
    ensures
        r == s.wf(),
{
    let n = s.tables.len();
    let mut i: usize = 0;
    while i < n
        invariant
            0 <= i <= n,
            n == s.tables@.len(),
            forall|a: int, b: int|
                0 <= a < b < i ==> #[trigger] s.tables@[a].name@ != #[trigger] s.tables@[b].name@,
        decreases n - i,
    {
        let mut j: usize = 0;
        while j < i
            invariant
                0 <= j <= i < n,
                n == s.tables@.len(),
                forall|b: int| 0 <= b < j ==> #[trigger] s.tables@[b].name@ != s.tables@[i as int].name@,
            decreases i - j,
        {
            if s.tables[j].name == s.tables[i].name {
                return false;
            }
            j += 1;
        }
        i += 1;
    }
    let mut i: usize = 0;
    while i < n
        invariant
            0 <= i <= n,
            n == s.tables@.len(),
            s.tables_distinct(),
            forall|a: int| 0 <= a < i ==> s.table_ok(#[trigger] s.tables@[a]),
        decreases n - i,
    {
        if !check_table(s, &s.tables[i]) {
            return false;
        }
        i += 1;
    }
    true
}

} // verus!
