//! Declarative description of the output tables: columns, foreign keys,
//! indexes, and the strategy by which nested source records map to rows.

use vstd::prelude::*;

verus! {

/// Semantic type of a column's values.
#[derive(Debug, Clone, Copy, PartialEq, Eq, Structural)]
pub enum ColumnType {
    Integer,
    Real,
    Text,
    Boolean,
    /// Localized text expands to one physical column per supported language.
    Localized,
    /// A raw JSON subtree stored as text.
    Json,
}

/// One column of an output table.
#[derive(Debug, Clone)]
pub struct Column {
    pub name: String,
    pub col_type: ColumnType,
    pub nullable: bool,
    /// Overrides the source field name when it differs from the camelCase
    /// transform of `name`.
    pub json_field: Option<String>,
}

impl Column {
    /// An optional (nullable) column.
    pub fn new(name: &str, col_type: ColumnType) -> (c: Column)
        ensures
            c.name@ == name@,
            c.col_type == col_type,
            c.nullable,
            c.json_field is None,
    {
        Column { name: name.to_owned(), col_type, nullable: true, json_field: None }
    }

    /// A required (non-nullable) column.
    pub fn required(name: &str, col_type: ColumnType) -> (c: Column)
        ensures
            c.name@ == name@,
            c.col_type == col_type,
            !c.nullable,
            c.json_field is None,
    {
        Column { name: name.to_owned(), col_type, nullable: false, json_field: None }
    }

    /// Sets an explicit source field name.
    pub fn json(self, field: &str) -> (c: Column)
        ensures
            c.name == self.name,
            c.col_type == self.col_type,
            c.nullable == self.nullable,
            c.json_field matches Some(f) && f@ == field@,
    {
        Column { json_field: Some(field.to_owned()), ..self }
    }
}

/// A foreign-key constraint of one table column against another table.
#[derive(Debug, Clone)]
pub struct ForeignKey {
    pub column: String,
    pub references_table: String,
    pub references_column: String,
}

impl ForeignKey {
    /// A foreign key against the `id` column of `references_table`.
    pub fn new(column: &str, references_table: &str) -> (fk: ForeignKey)
        ensures
            fk.column@ == column@,
            fk.references_table@ == references_table@,
            fk.references_column@ == "id"@,
    {
        ForeignKey {
            column: column.to_owned(),
            references_table: references_table.to_owned(),
            references_column: "id".to_owned(),
        }
    }
}

/// An index over an ordered list of columns.
#[derive(Debug, Clone)]
pub struct Index {
    pub columns: Vec<String>,
    pub unique: bool,
}

impl Index {
    /// A non-unique index.
    pub fn on(columns: &[&str]) -> (ix: Index)
        ensures
            ix.columns@.map_values(|s: String| s@) == Seq::new(
                columns@.len(),
                |i: int| columns@[i]@,
            ),
            !ix.unique,
    {
        Index { columns: owned_strings(columns), unique: false }
    }

    /// A unique index.
    pub fn unique(columns: &[&str]) -> (ix: Index)
        ensures
            ix.columns@.map_values(|s: String| s@) == Seq::new(
                columns@.len(),
                |i: int| columns@[i]@,
            ),
            ix.unique,
    {
        Index { columns: owned_strings(columns), unique: true }
    }
}

/// Copies a borrowed list of names into owned strings.
pub fn owned_strings(names: &[&str]) -> (v: Vec<String>)
    ensures
        v@.map_values(|s: String| s@) == Seq::new(names@.len(), |i: int| names@[i]@),
{
    let mut v: Vec<String> = Vec::new();
    let mut k: usize = 0;
    while k < names.len()
        invariant
            k <= names@.len(),
            v@.len() == k,
            forall|i: int| 0 <= i < k ==> v@[i]@ == names@[i]@,
        decreases names@.len() - k,
    {
        v.push(names[k].to_owned());
        k += 1;
    }
    proof {
        assert(v@.map_values(|s: String| s@) =~= Seq::new(names@.len(), |i: int| names@[i]@));
    }
    v
}

/// How rows of a junction table are extracted from the nested structure of a
/// source record.
#[derive(Debug, Clone)]
pub enum ArraySource {
    /// `{"_key": X, "<array_field>": [{...}, {...}]}`: each element object
    /// becomes one row carrying the parent key.
    Simple { array_field: String, parent_id_column: String },
    /// `{"_key": X, "<array_field>": [1, 2, ...]}`: each bare integer becomes
    /// one row of (parent key, value).
    SimpleIntArray { array_field: String, parent_id_column: String, value_column: String },
    /// `{"activities": {"<activity>": {"<array_field>": [...]}}}`: rows carry
    /// the parent id and the activity name.
    BlueprintActivity { activity_column: String, array_field: String },
    /// `{"_key": X, "<array_field>": [{"_key": Y, "_value": [{...}]}]}`: rows
    /// carry the parent key and the nested key.
    NestedKeyValue { array_field: String, parent_id_column: String, nested_key_column: String },
    /// `{"_key": X, "_value": [{"_key": Y, "_value": [Z, ...]}]}`: innermost
    /// elements become rows of (parent key, first-level key, value).
    DoubleNested { parent_id_column: String, level_key_column: String },
}

/// Schema of one output table.
#[derive(Debug, Clone)]
pub struct TableSchema {
    pub name: String,
    pub source_file: String,
    pub columns: Vec<Column>,
    pub foreign_keys: Vec<ForeignKey>,
    pub indexes: Vec<Index>,
    /// Names of junction tables materialized from this table's nested arrays.
    pub child_tables: Vec<String>,
    /// Present exactly on junction tables.
    pub array_source: Option<ArraySource>,
}

impl TableSchema {
    /// The set of table names this table references through its foreign keys.
    pub open spec fn fk_targets(&self) -> Set<Seq<char>> {
        Set::new(|t: Seq<char>| exists|i: int|
            0 <= i < self.foreign_keys@.len() && self.foreign_keys@[i].references_table@ == t)
    }

    /// The distinct `references_table` names of all foreign keys, in first
    /// occurrence order, with self-references left out.
    pub fn dependencies(&self) -> (deps: Vec<String>)
        ensures
            forall|i: int| 0 <= i < deps@.len() ==> self.fk_targets().contains(#[trigger] deps@[i]@)
                && deps@[i]@ != self.name@,
            forall|k: int| 0 <= k < self.foreign_keys@.len()
                && (#[trigger] self.foreign_keys@[k]).references_table@ != self.name@
                ==> seq_has_name(deps@, self.foreign_keys@[k].references_table@),
            forall|i: int, j: int| 0 <= i < j < deps@.len() ==> deps@[i]@ != deps@[j]@,
    {
        let mut deps: Vec<String> = Vec::new();
        let mut k: usize = 0;
        while k < self.foreign_keys.len()
            invariant
                k <= self.foreign_keys@.len(),
                forall|i: int| 0 <= i < deps@.len() ==> self.fk_targets().contains(
                    #[trigger] deps@[i]@,
                ) && deps@[i]@ != self.name@,
                forall|m: int| 0 <= m < k && (#[trigger] self.foreign_keys@[m]).references_table@
                    != self.name@ ==> seq_has_name(
                    deps@,
                    self.foreign_keys@[m].references_table@,
                ),
                forall|i: int, j: int| 0 <= i < j < deps@.len() ==> deps@[i]@ != deps@[j]@,
            decreases self.foreign_keys@.len() - k,
        {
            let target = &self.foreign_keys[k].references_table;
            let ghost pre = deps@;
            if !target.eq(&self.name) && !contains_name(&deps, target) {
                deps.push(target.clone());
                proof {
                    assert(deps@[deps@.len() - 1]@ == target@);
                    assert(self.foreign_keys@[k as int].references_table@ == target@);
                    assert(self.fk_targets().contains(deps@[deps@.len() - 1]@));
                    assert forall|m: int| 0 <= m < k && (
                    #[trigger] self.foreign_keys@[m]).references_table@ != self.name@ implies
                        seq_has_name(deps@, self.foreign_keys@[m].references_table@) by {
                        lemma_seq_has_name_push(
                            pre,
                            deps@[deps@.len() - 1],
                            self.foreign_keys@[m].references_table@,
                        );
                        assert(deps@ =~= pre.push(deps@[deps@.len() - 1]));
                    }
                    assert(seq_has_name(deps@, self.foreign_keys@[k as int].references_table@));
                }
            }
            k += 1;
        }
        deps
    }
}

/// Whether some string in `s` views to the character sequence `t`.
pub open spec fn seq_has_name(s: Seq<String>, t: Seq<char>) -> bool {
    exists|i: int| 0 <= i < s.len() && (#[trigger] s[i]@) == t
}

pub proof fn lemma_seq_has_name_push(s: Seq<String>, x: String, t: Seq<char>)
    requires
        seq_has_name(s, t),
    ensures
        seq_has_name(s.push(x), t),
{
    let i = choose|i: int| 0 <= i < s.len() && (#[trigger] s[i]@) == t;
    assert(s.push(x)[i]@ == t);
}

/// Whether `names` holds a string whose characters equal those of `name`.
pub fn contains_name(names: &Vec<String>, name: &String) -> (r: bool)
    ensures
        r == seq_has_name(names@, name@),
{
    let mut k: usize = 0;
    while k < names.len()
        invariant
            k <= names@.len(),
            forall|i: int| 0 <= i < k ==> (#[trigger] names@[i]@) != name@,
        decreases names@.len() - k,
    {
        if names[k].eq(name) {
            return true;
        }
        k += 1;
    }
    false
}

/// The names in `s`, as character sequences.
pub open spec fn names_view(s: Seq<String>) -> Seq<Seq<char>> {
    s.map_values(|x: String| x@)
}

/// The mathematical shape of a [`Column`].
pub struct ColumnV {
    pub name: Seq<char>,
    pub col_type: ColumnType,
    pub nullable: bool,
    pub json_field: Option<Seq<char>>,
}

/// The shape of a [`Column`].
pub open spec fn column_view(c: Column) -> ColumnV {
    ColumnV {
        name: c.name@,
        col_type: c.col_type,
        nullable: c.nullable,
        json_field: match c.json_field {
            Some(f) => Some(f@),
            None => None,
        },
    }
}

/// The mathematical shape of a [`ForeignKey`].
pub struct ForeignKeyV {
    pub column: Seq<char>,
    pub references_table: Seq<char>,
    pub references_column: Seq<char>,
}

/// The shape of a [`ForeignKey`].
pub open spec fn fk_view(fk: ForeignKey) -> ForeignKeyV {
    ForeignKeyV {
        column: fk.column@,
        references_table: fk.references_table@,
        references_column: fk.references_column@,
    }
}

/// The mathematical shape of an [`Index`].
pub struct IndexV {
    pub columns: Seq<Seq<char>>,
    pub unique: bool,
}

/// The shape of an [`Index`].
pub open spec fn index_view(ix: Index) -> IndexV {
    IndexV { columns: names_view(ix.columns@), unique: ix.unique }
}

/// The mathematical shape of an [`ArraySource`].
pub enum ArraySourceV {
    Simple { array_field: Seq<char>, parent_id_column: Seq<char> },
    SimpleIntArray { array_field: Seq<char>, parent_id_column: Seq<char>, value_column: Seq<char> },
    BlueprintActivity { activity_column: Seq<char>, array_field: Seq<char> },
    NestedKeyValue {
        array_field: Seq<char>,
        parent_id_column: Seq<char>,
        nested_key_column: Seq<char>,
    },
    DoubleNested { parent_id_column: Seq<char>, level_key_column: Seq<char> },
}

/// The shape of an [`ArraySource`].
pub open spec fn array_source_view(src: ArraySource) -> ArraySourceV {
    match src {
        ArraySource::Simple { array_field, parent_id_column } => ArraySourceV::Simple {
            array_field: array_field@,
            parent_id_column: parent_id_column@,
        },
        ArraySource::SimpleIntArray {
            array_field,
            parent_id_column,
            value_column,
        } => ArraySourceV::SimpleIntArray {
            array_field: array_field@,
            parent_id_column: parent_id_column@,
            value_column: value_column@,
        },
        ArraySource::BlueprintActivity {
            activity_column,
            array_field,
        } => ArraySourceV::BlueprintActivity {
            activity_column: activity_column@,
            array_field: array_field@,
        },
        ArraySource::NestedKeyValue {
            array_field,
            parent_id_column,
            nested_key_column,
        } => ArraySourceV::NestedKeyValue {
            array_field: array_field@,
            parent_id_column: parent_id_column@,
            nested_key_column: nested_key_column@,
        },
        ArraySource::DoubleNested {
            parent_id_column,
            level_key_column,
        } => ArraySourceV::DoubleNested {
            parent_id_column: parent_id_column@,
            level_key_column: level_key_column@,
        },
    }
}

/// The mathematical shape of a [`TableSchema`].
pub struct TableSchemaV {
    pub name: Seq<char>,
    pub source_file: Seq<char>,
    pub columns: Seq<ColumnV>,
    pub foreign_keys: Seq<ForeignKeyV>,
    pub indexes: Seq<IndexV>,
    pub child_tables: Seq<Seq<char>>,
    pub array_source: Option<ArraySourceV>,
}

/// The shape of a [`TableSchema`].
pub open spec fn schema_view(t: TableSchema) -> TableSchemaV {
    TableSchemaV {
        name: t.name@,
        source_file: t.source_file@,
        columns: Seq::new(t.columns@.len(), |i: int| column_view(t.columns@[i])),
        foreign_keys: Seq::new(t.foreign_keys@.len(), |i: int| fk_view(t.foreign_keys@[i])),
        indexes: Seq::new(t.indexes@.len(), |i: int| index_view(t.indexes@[i])),
        child_tables: names_view(t.child_tables@),
        array_source: match t.array_source {
            Some(src) => Some(array_source_view(src)),
            None => None,
        },
    }
}

/// The fixed ordered list of supported language codes for localized columns.
pub open spec fn spec_languages() -> Seq<Seq<char>> {
    seq!["en"@, "de"@, "es"@, "fr"@, "ja"@, "ko"@, "ru"@, "zh"@]
}

/// The supported language codes, in their fixed order.
pub fn languages() -> (v: Vec<String>)
    ensures
        v@.map_values(|s: String| s@) == spec_languages(),
{
    let v: Vec<String> = vec![
        "en".to_owned(),
        "de".to_owned(),
        "es".to_owned(),
        "fr".to_owned(),
        "ja".to_owned(),
        "ko".to_owned(),
        "ru".to_owned(),
        "zh".to_owned(),
    ];
    proof {
        assert(v@.map_values(|s: String| s@) =~= spec_languages());
    }
    v
}

} // verus!
