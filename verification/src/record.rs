//! The record parser: interprets one line of source JSON against a table
//! schema and emits typed rows.

use vstd::prelude::*;

use crate::json::{
    json_arr_view, json_obj_view, json_view, lemma_json_arr_view, lemma_json_obj_view,
    parse_json_line, serialize_json, spec_get, spec_get_entries, spec_json_text, spec_parse_json,
    Json, JsonV,
};
use crate::numfmt::{i64_to_dec, spec_dec_int};
use crate::schema_types::{languages, spec_languages, ArraySource, Column, ColumnType, TableSchema};
use crate::strutil::push_char;

verus! {

/// A typed scalar bound into one column of an output row. `Real` keeps the
/// decimal rendering of the number as text.
#[derive(Debug, Clone)]
pub enum SqlValue {
    Null,
    Integer(i64),
    Real(String),
    Text(String),
}

/// The mathematical shape of a [`SqlValue`].
pub enum SqlV {
    Null,
    Int(i64),
    Real(Seq<char>),
    Text(Seq<char>),
}

/// The shape of a [`SqlValue`].
pub open spec fn sql_view(v: SqlValue) -> SqlV {
    match v {
        SqlValue::Null => SqlV::Null,
        SqlValue::Integer(i) => SqlV::Int(i),
        SqlValue::Real(s) => SqlV::Real(s@),
        SqlValue::Text(s) => SqlV::Text(s@),
    }
}

/// One output row: column names paired with their values, in the order the
/// parser emitted them. Each column name occurs at most once.
#[derive(Debug)]
pub struct ParsedRow {
    pub values: Vec<(String, SqlValue)>,
}

/// First value in `row` stored under `name`, if any.
pub open spec fn spec_row_get(row: Seq<(Seq<char>, SqlV)>, name: Seq<char>) -> Option<SqlV>
    decreases row.len(),
{
    if row.len() == 0 {
        None
    } else if row[0].0 == name {
        Some(row[0].1)
    } else {
        spec_row_get(row.drop_first(), name)
    }
}

proof fn lemma_row_get_skip(row: Seq<(Seq<char>, SqlV)>, name: Seq<char>, k: int)
    requires
        0 <= k <= row.len(),
        forall|i: int| 0 <= i < k ==> (#[trigger] row[i]).0 != name,
    ensures
        spec_row_get(row, name) == spec_row_get(row.skip(k), name),
    decreases k,
{
    if k > 0 {
        assert(row.drop_first().skip(k - 1) =~= row.skip(k));
        lemma_row_get_skip(row.drop_first(), name, k - 1);
    } else {
        assert(row.skip(0) =~= row);
    }
}

impl ParsedRow {
    /// The row as contracts see it: a sequence of (column name, value) pairs.
    pub open spec fn view_seq(&self) -> Seq<(Seq<char>, SqlV)> {
        Seq::new(self.values@.len(), |i: int| (self.values@[i].0@, sql_view(self.values@[i].1)))
    }

    /// An empty row.
    pub fn new() -> (r: ParsedRow)
        ensures
            r.view_seq() =~= Seq::<(Seq<char>, SqlV)>::empty(),
    {
        ParsedRow { values: Vec::new() }
    }

    /// Looks up the value stored under `name`.
    pub fn get<'a>(&'a self, name: &str) -> (r: Option<&'a SqlValue>)
        ensures
            match r {
                Some(v) => spec_row_get(self.view_seq(), name@) == Some(sql_view(*v)),
                None => spec_row_get(self.view_seq(), name@) is None,
            },
    {
        let ghost rv = self.view_seq();
        let mut k: usize = 0;
        while k < self.values.len()
            invariant
                rv == self.view_seq(),
                k <= self.values@.len(),
                rv.len() == self.values@.len(),
                forall|i: int| 0 <= i < self.values@.len() ==> (#[trigger] rv[i])
                    == (self.values@[i].0@, sql_view(self.values@[i].1)),
                forall|i: int| 0 <= i < k ==> (#[trigger] rv[i]).0 != name@,
            decreases self.values@.len() - k,
        {
            if self.values[k].0.as_str().eq(name) {
                proof {
                    lemma_row_get_skip(rv, name@, k as int);
                    assert(rv.skip(k as int)[0] == rv[k as int]);
                }
                return Some(&self.values[k].1);
            }
            k += 1;
        }
        proof {
            lemma_row_get_skip(rv, name@, k as int);
            assert(rv.skip(k as int) =~= Seq::empty());
        }
        None
    }
}

/// Why a source line was rejected.
#[derive(Debug, Clone, Copy, PartialEq, Eq, Structural)]
pub enum ParseError {
    /// The line is not well-formed JSON.
    MalformedJson,
    /// A junction parse was requested for a schema without an array source.
    NoArraySource,
    /// The record lacks an integer `_key` identifier.
    MissingKey,
    /// A blueprint record lacks both `blueprintTypeID` and `_key`.
    MissingBlueprintKey,
}

impl ParseError {
    /// A short description of the error.
    pub fn message(&self) -> (m: String)
        ensures
            self matches ParseError::MalformedJson ==> m@ == "Failed to parse JSON"@,
            self matches ParseError::NoArraySource ==> m@ == "Table has no array_source"@,
            self matches ParseError::MissingKey ==> m@ == "Missing _key in JSON"@,
            self matches ParseError::MissingBlueprintKey ==> m@
                == "Missing blueprintTypeID or _key in JSON"@,
    {
        match self {
            ParseError::MalformedJson => "Failed to parse JSON".to_owned(),
            ParseError::NoArraySource => "Table has no array_source".to_owned(),
            ParseError::MissingKey => "Missing _key in JSON".to_owned(),
            ParseError::MissingBlueprintKey => "Missing blueprintTypeID or _key in JSON".to_owned(),
        }
    }
}

/// The uppercase form of an ASCII lowercase letter; other characters are
/// unchanged.
pub open spec fn spec_upper(c: char) -> char {
    if c == 'a' {
        'A'
    } else if c == 'b' {
        'B'
    } else if c == 'c' {
        'C'
    } else if c == 'd' {
        'D'
    } else if c == 'e' {
        'E'
    } else if c == 'f' {
        'F'
    } else if c == 'g' {
        'G'
    } else if c == 'h' {
        'H'
    } else if c == 'i' {
        'I'
    } else if c == 'j' {
        'J'
    } else if c == 'k' {
        'K'
    } else if c == 'l' {
        'L'
    } else if c == 'm' {
        'M'
    } else if c == 'n' {
        'N'
    } else if c == 'o' {
        'O'
    } else if c == 'p' {
        'P'
    } else if c == 'q' {
        'Q'
    } else if c == 'r' {
        'R'
    } else if c == 's' {
        'S'
    } else if c == 't' {
        'T'
    } else if c == 'u' {
        'U'
    } else if c == 'v' {
        'V'
    } else if c == 'w' {
        'W'
    } else if c == 'x' {
        'X'
    } else if c == 'y' {
        'Y'
    } else if c == 'z' {
        'Z'
    } else {
        c
    }
}

fn upper_char(c: char) -> (r: char)
    ensures
        r == spec_upper(c),
{
    match c {
        'a' => 'A',
        'b' => 'B',
        'c' => 'C',
        'd' => 'D',
        'e' => 'E',
        'f' => 'F',
        'g' => 'G',
        'h' => 'H',
        'i' => 'I',
        'j' => 'J',
        'k' => 'K',
        'l' => 'L',
        'm' => 'M',
        'n' => 'N',
        'o' => 'O',
        'p' => 'P',
        'q' => 'Q',
        'r' => 'R',
        's' => 'S',
        't' => 'T',
        'u' => 'U',
        'v' => 'V',
        'w' => 'W',
        'x' => 'X',
        'y' => 'Y',
        'z' => 'Z',
        _ => c,
    }
}

/// camelCase transform of a snake_case name: each underscore is dropped and
/// the following character uppercased. `cap` records whether an underscore
/// was just crossed.
pub open spec fn spec_camel_rec(s: Seq<char>, cap: bool) -> Seq<char>
    decreases s.len(),
{
    if s.len() == 0 {
        Seq::empty()
    } else if s[0] == '_' {
        spec_camel_rec(s.drop_first(), true)
    } else if cap {
        seq![spec_upper(s[0])] + spec_camel_rec(s.drop_first(), false)
    } else {
        seq![s[0]] + spec_camel_rec(s.drop_first(), false)
    }
}

/// camelCase transform of a whole name.
pub open spec fn spec_camel_inner(s: Seq<char>) -> Seq<char> {
    spec_camel_rec(s, false)
}

/// The source field name for a column name: camelCase, with a name ending in
/// `_id` mapped to a field ending in `ID`.
pub open spec fn spec_camel(s: Seq<char>) -> Seq<char> {
    if s.len() >= 3 && s[s.len() - 3] == '_' && s[s.len() - 2] == 'i' && s[s.len() - 1] == 'd' {
        spec_camel_inner(s.take(s.len() - 3)) + seq!['I', 'D']
    } else {
        spec_camel_inner(s)
    }
}

/// camelCase transform without the `_id` special rule.
pub fn to_camel_case_inner(s: &str) -> (r: String)
    ensures
        r@ == spec_camel_inner(s@),
{
    let n = s.unicode_len();
    let mut out = String::new();
    let mut cap = false;
    let mut k: usize = 0;
    proof {
        assert(s@.skip(0) =~= s@);
    }
    while k < n
        invariant
            n == s@.len(),
            k <= n,
            spec_camel_rec(s@, false) == out@ + spec_camel_rec(s@.skip(k as int), cap),
        decreases n - k,
    {
        let c = s.get_char(k);
        proof {
            assert(s@.skip(k as int)[0] == s@[k as int]);
            assert(s@.skip(k as int).drop_first() =~= s@.skip(k as int + 1));
        }
        let ghost pre = out@;
        if c == '_' {
            cap = true;
        } else if cap {
            push_char(&mut out, upper_char(c));
            cap = false;
            proof {
                assert(pre + (seq![spec_upper(c)] + spec_camel_rec(s@.skip(k as int + 1), false))
                    =~= out@ + spec_camel_rec(s@.skip(k as int + 1), false));
            }
        } else {
            push_char(&mut out, c);
            proof {
                assert(pre + (seq![c] + spec_camel_rec(s@.skip(k as int + 1), false)) =~= out@
                    + spec_camel_rec(s@.skip(k as int + 1), false));
            }
        }
        k += 1;
    }
    proof {
        assert(s@.skip(n as int) =~= Seq::<char>::empty());
        assert(out@ =~= spec_camel_inner(s@));
    }
    out
}

/// Converts a snake_case column name to its source field name, mapping a
/// trailing `_id` to `ID`.
pub fn to_camel_case(s: &str) -> (r: String)
    ensures
        r@ == spec_camel(s@),
{
    let n = s.unicode_len();
    if n >= 3 && s.get_char(n - 3) == '_' && s.get_char(n - 2) == 'i' && s.get_char(n - 1) == 'd' {
        let prefix = s.substring_char(0, n - 3);
        proof {
            assert(prefix@ =~= s@.take(n as int - 3));
        }
        let mut out = to_camel_case_inner(prefix);
        push_char(&mut out, 'I');
        push_char(&mut out, 'D');
        proof {
            assert(out@ =~= spec_camel(s@));
        }
        out
    } else {
        to_camel_case_inner(s)
    }
}

/// The value a column of type `t` takes from field `key` of record `j`: a
/// missing field or JSON null gives Null; a type mismatch degrades to Null;
/// booleans coerce to integers 1 and 0; numbers in `Real` columns keep (or
/// take) a decimal rendering; `Json` columns keep the serialized subtree.
pub open spec fn spec_extract_value(j: JsonV, key: Seq<char>, t: ColumnType) -> SqlV {
    match spec_get(j, key) {
        Option::None => SqlV::Null,
        Option::Some(v) => match v {
            JsonV::Null => SqlV::Null,
            _ => match t {
                ColumnType::Integer => match v {
                    JsonV::Int(i) => SqlV::Int(i),
                    _ => SqlV::Null,
                },
                ColumnType::Real => match v {
                    JsonV::Int(i) => SqlV::Real(spec_dec_int(i as int)),
                    JsonV::Real(s) => SqlV::Real(s),
                    _ => SqlV::Null,
                },
                ColumnType::Text => match v {
                    JsonV::Text(s) => SqlV::Text(s),
                    _ => SqlV::Null,
                },
                ColumnType::Boolean => match v {
                    JsonV::Bool(b) => SqlV::Int(if b { 1 } else { 0 }),
                    _ => SqlV::Null,
                },
                ColumnType::Json => SqlV::Text(spec_json_text(v)),
                ColumnType::Localized => SqlV::Null,
            },
        },
    }
}

fn extract_value(json: &Json, key: &String, col_type: &ColumnType) -> (v: SqlValue)
    ensures
        sql_view(v) == spec_extract_value(json_view(*json), key@, *col_type),
{
    match json.get(key.as_str()) {
        Option::None => SqlValue::Null,
        Option::Some(val) => match val {
            Json::Null => SqlValue::Null,
            Json::Bool(b) => match col_type {
                ColumnType::Boolean => SqlValue::Integer(if *b { 1 } else { 0 }),
                ColumnType::Json => SqlValue::Text(serialize_json(val)),
                _ => SqlValue::Null,
            },
            Json::Int(i) => match col_type {
                ColumnType::Integer => SqlValue::Integer(*i),
                ColumnType::Real => SqlValue::Real(i64_to_dec(*i)),
                ColumnType::Json => SqlValue::Text(serialize_json(val)),
                _ => SqlValue::Null,
            },
            Json::Real(s) => match col_type {
                ColumnType::Real => SqlValue::Real(s.clone()),
                ColumnType::Json => SqlValue::Text(serialize_json(val)),
                _ => SqlValue::Null,
            },
            Json::Text(s) => match col_type {
                ColumnType::Text => SqlValue::Text(s.clone()),
                ColumnType::Json => SqlValue::Text(serialize_json(val)),
                _ => SqlValue::Null,
            },
            Json::Array(_) => match col_type {
                ColumnType::Json => SqlValue::Text(serialize_json(val)),
                _ => SqlValue::Null,
            },
            Json::Object(_) => match col_type {
                ColumnType::Json => SqlValue::Text(serialize_json(val)),
                _ => SqlValue::Null,
            },
        },
    }
}

/// The per-language cell for a localized column: the string under the
/// language key of the localized object, Null when the object or the entry
/// is absent or not a string.
pub open spec fn spec_loc_val(entry: Option<JsonV>, lang: Seq<char>) -> SqlV {
    match entry {
        Option::Some(JsonV::Obj(es)) => match spec_get_entries(es, lang) {
            Option::Some(JsonV::Text(s)) => SqlV::Text(s),
            _ => SqlV::Null,
        },
        _ => SqlV::Null,
    }
}

/// The expansion of a localized column over the languages in `langs`: one
/// `<name>_<lang>` cell per language.
pub open spec fn spec_localized(
    name: Seq<char>,
    entry: Option<JsonV>,
    langs: Seq<Seq<char>>,
) -> Seq<(Seq<char>, SqlV)>
    decreases langs.len(),
{
    if langs.len() == 0 {
        Seq::empty()
    } else {
        seq![(name + seq!['_'] + langs[0], spec_loc_val(entry, langs[0]))] + spec_localized(
            name,
            entry,
            langs.drop_first(),
        )
    }
}

/// The cells one declared column contributes to a simple row: a localized
/// column expands per language; any other column resolves its source field
/// (the explicit override when set, else `_key` for the `id` column, else
/// the camelCase transform) and coerces by its type.
pub open spec fn spec_record_col(c: Column, j: JsonV) -> Seq<(Seq<char>, SqlV)> {
    if c.col_type == ColumnType::Localized {
        spec_localized(c.name@, spec_get(j, spec_camel(c.name@)), spec_languages())
    } else {
        let key = match c.json_field {
            Some(f) => f@,
            None => if c.name@ == "id"@ {
                "_key"@
            } else {
                spec_camel(c.name@)
            },
        };
        seq![(c.name@, spec_extract_value(j, key, c.col_type))]
    }
}

/// The whole simple row for a record: the cells of every declared column, in
/// declaration order.
pub open spec fn spec_record_cols(cols: Seq<Column>, j: JsonV) -> Seq<(Seq<char>, SqlV)>
    decreases cols.len(),
{
    if cols.len() == 0 {
        Seq::empty()
    } else {
        spec_record_col(cols[0], j) + spec_record_cols(cols.drop_first(), j)
    }
}

/// Parses one record that is already in JSON form into the single row of a
/// non-junction table.
pub fn parse_record_json(json: &Json, schema: &TableSchema) -> (row: ParsedRow)
    ensures
        row.view_seq() == spec_record_cols(schema.columns@, json_view(*json)),
{
    let ghost jv = json_view(*json);
    let mut row = ParsedRow::new();
    let mut k: usize = 0;
    proof {
        assert(schema.columns@.skip(0) =~= schema.columns@);
    }
    while k < schema.columns.len()
        invariant
            jv == json_view(*json),
            k <= schema.columns@.len(),
            spec_record_cols(schema.columns@, jv) == row.view_seq() + spec_record_cols(
                schema.columns@.skip(k as int),
                jv,
            ),
        decreases schema.columns@.len() - k,
    {
        let ghost pre = row.view_seq();
        let col = &schema.columns[k];
        proof {
            assert(schema.columns@.skip(k as int)[0] == schema.columns@[k as int]);
            assert(schema.columns@.skip(k as int).drop_first() =~= schema.columns@.skip(
                k as int + 1,
            ));
        }
        if col.col_type == ColumnType::Localized {
            let json_key = to_camel_case(col.name.as_str());
            let entry = json.get(json_key.as_str());
            let ghost ev = spec_get(jv, spec_camel(col.name@));
            let langs = languages();
            let ghost lv = spec_languages();
            let mut m: usize = 0;
            proof {
                assert(lv.skip(0) =~= lv);
                assert(langs@.map_values(|s: String| s@) == lv);
                assert(pre + spec_localized(col.name@, ev, lv) + spec_record_cols(
                    schema.columns@.skip(k as int + 1),
                    jv,
                ) =~= pre + (spec_localized(col.name@, ev, lv) + spec_record_cols(
                    schema.columns@.skip(k as int + 1),
                    jv,
                )));
            }
            while m < langs.len()
                invariant
                    jv == json_view(*json),
                    ev == spec_get(jv, spec_camel(col.name@)),
                    m <= langs@.len(),
                    langs@.map_values(|s: String| s@) == lv,
                    lv.len() == langs@.len(),
                    match entry {
                        Option::Some(v) => ev == Some(json_view(*v)),
                        Option::None => ev is None,
                    },
                    pre + spec_localized(col.name@, ev, lv) == row.view_seq() + spec_localized(
                        col.name@,
                        ev,
                        lv.skip(m as int),
                    ),
                decreases langs@.len() - m,
            {
                let lang = &langs[m];
                proof {
                    assert(lv[m as int] == langs@.map_values(|s: String| s@)[m as int]);
                    assert(lv.skip(m as int)[0] == lv[m as int]);
                    assert(lv.skip(m as int).drop_first() =~= lv.skip(m as int + 1));
                }
                let mut col_name = col.name.clone();
                push_char(&mut col_name, '_');
                col_name.append(lang.as_str());
                proof {
                    assert(col_name@ =~= col.name@ + seq!['_'] + lv[m as int]);
                }
                let value: SqlValue = match entry {
                    Option::Some(obj) => match obj.get(lang.as_str()) {
                        Option::Some(Json::Text(s)) => SqlValue::Text(s.clone()),
                        _ => SqlValue::Null,
                    },
                    Option::None => SqlValue::Null,
                };
                proof {
                    assert(sql_view(value) == spec_loc_val(ev, lv[m as int]));
                }
                let ghost before = row.view_seq();
                row.values.push((col_name, value));
                proof {
                    assert(row.view_seq() =~= before.push((col.name@ + seq!['_'] + lv[m as int],
                        spec_loc_val(ev, lv[m as int]))));
                    assert(before.push((col.name@ + seq!['_'] + lv[m as int], spec_loc_val(
                        ev,
                        lv[m as int],
                    ))) =~= before + seq![
                        (col.name@ + seq!['_'] + lv[m as int], spec_loc_val(ev, lv[m as int])),
                    ]);
                    assert(row.view_seq() + spec_localized(col.name@, ev, lv.skip(m as int + 1))
                        =~= (before + seq![
                        (col.name@ + seq!['_'] + lv[m as int], spec_loc_val(ev, lv[m as int])),
                    ]) + spec_localized(col.name@, ev, lv.skip(m as int + 1)));
                    assert(before + (seq![
                        (col.name@ + seq!['_'] + lv[m as int], spec_loc_val(ev, lv[m as int])),
                    ] + spec_localized(col.name@, ev, lv.skip(m as int + 1))) =~= (before + seq![
                        (col.name@ + seq!['_'] + lv[m as int], spec_loc_val(ev, lv[m as int])),
                    ]) + spec_localized(col.name@, ev, lv.skip(m as int + 1)));
                }
                m += 1;
            }
            proof {
                assert(lv.skip(langs@.len() as int) =~= Seq::<Seq<char>>::empty());
                assert(spec_localized(col.name@, ev, lv.skip(langs@.len() as int))
                    =~= Seq::<(Seq<char>, SqlV)>::empty());
                assert(row.view_seq() =~= pre + spec_localized(col.name@, ev, lv));
                assert(row.view_seq() + spec_record_cols(schema.columns@.skip(k as int + 1), jv)
                    =~= (pre + spec_localized(col.name@, ev, lv)) + spec_record_cols(
                    schema.columns@.skip(k as int + 1),
                    jv,
                ));
                assert(pre + (spec_localized(col.name@, ev, lv) + spec_record_cols(
                    schema.columns@.skip(k as int + 1),
                    jv,
                )) =~= (pre + spec_localized(col.name@, ev, lv)) + spec_record_cols(
                    schema.columns@.skip(k as int + 1),
                    jv,
                ));
            }
        } else {
            let json_key: String = match &col.json_field {
                Option::Some(f) => f.clone(),
                Option::None => if col.name.as_str().eq("id") {
                    "_key".to_owned()
                } else {
                    to_camel_case(col.name.as_str())
                },
            };
            let value = extract_value(json, &json_key, &col.col_type);
            let ghost cell = (col.name@, spec_extract_value(
                jv,
                if col.json_field is Some {
                    col.json_field->0@
                } else if col.name@ == "id"@ {
                    "_key"@
                } else {
                    spec_camel(col.name@)
                },
                col.col_type,
            ));
            row.values.push((col.name.clone(), value));
            proof {
                assert(row.view_seq() =~= pre.push(cell));
                assert(pre.push(cell) =~= pre + seq![cell]);
                assert(row.view_seq() + spec_record_cols(schema.columns@.skip(k as int + 1), jv)
                    =~= (pre + seq![cell]) + spec_record_cols(
                    schema.columns@.skip(k as int + 1),
                    jv,
                ));
                assert(pre + (seq![cell] + spec_record_cols(schema.columns@.skip(k as int + 1), jv))
                    =~= (pre + seq![cell]) + spec_record_cols(
                    schema.columns@.skip(k as int + 1),
                    jv,
                ));
            }
        }
        k += 1;
    }
    proof {
        assert(schema.columns@.skip(schema.columns@.len() as int) =~= Seq::<Column>::empty());
        assert(row.view_seq() + Seq::<(Seq<char>, SqlV)>::empty() =~= row.view_seq());
    }
    row
}

/// An integer, when the JSON value is one.
pub open spec fn spec_as_int(v: JsonV) -> Option<i64> {
    match v {
        JsonV::Int(i) => Option::Some(i),
        _ => Option::None,
    }
}

/// The parent identifier of a junction record: its integer `_key` field.
pub open spec fn spec_parent_key(j: JsonV) -> Option<i64> {
    match spec_get(j, "_key"@) {
        Option::Some(v) => spec_as_int(v),
        Option::None => Option::None,
    }
}

/// The parent identifier of a blueprint record: its integer
/// `blueprintTypeID` field, or its integer `_key` field when
/// `blueprintTypeID` is absent.
pub open spec fn spec_blueprint_key(j: JsonV) -> Option<i64> {
    match spec_get(j, "blueprintTypeID"@) {
        Option::Some(v) => spec_as_int(v),
        Option::None => spec_parent_key(j),
    }
}

/// The shapes of the rows in `rows`.
pub open spec fn rows_view(rows: Seq<ParsedRow>) -> Seq<Seq<(Seq<char>, SqlV)>> {
    Seq::new(rows.len(), |i: int| rows[i].view_seq())
}

/// The cell one column contributes to a Simple junction row: the source
/// field is the explicit override when set, else the camelCase name.
pub open spec fn spec_simple_cell(c: Column, elem: JsonV) -> (Seq<char>, SqlV) {
    let key = match c.json_field {
        Option::Some(f) => f@,
        Option::None => spec_camel(c.name@),
    };
    (c.name@, spec_extract_value(elem, key, c.col_type))
}

/// The cells of the declared columns other than the parent-id column, for
/// one Simple junction row.
pub open spec fn spec_simple_cols(cols: Seq<Column>, elem: JsonV, picol: Seq<char>) -> Seq<
    (Seq<char>, SqlV),
>
    decreases cols.len(),
{
    if cols.len() == 0 {
        Seq::empty()
    } else {
        (if cols[0].name@ == picol {
            Seq::empty()
        } else {
            seq![spec_simple_cell(cols[0], elem)]
        }) + spec_simple_cols(cols.drop_first(), elem, picol)
    }
}

/// One Simple junction row: the parent id, then the element's own columns.
pub open spec fn spec_simple_row(
    cols: Seq<Column>,
    elem: JsonV,
    picol: Seq<char>,
    pid: i64,
) -> Seq<(Seq<char>, SqlV)> {
    seq![(picol, SqlV::Int(pid))] + spec_simple_cols(cols, elem, picol)
}

/// One Simple junction row per array element.
pub open spec fn spec_simple_rows(
    cols: Seq<Column>,
    elems: Seq<JsonV>,
    picol: Seq<char>,
    pid: i64,
) -> Seq<Seq<(Seq<char>, SqlV)>>
    decreases elems.len(),
{
    if elems.len() == 0 {
        Seq::empty()
    } else {
        seq![spec_simple_row(cols, elems[0], picol, pid)] + spec_simple_rows(
            cols,
            elems.drop_first(),
            picol,
            pid,
        )
    }
}

/// A Simple junction parse: fails without an integer `_key`; an absent or
/// non-array field yields no rows.
pub open spec fn spec_parse_simple(
    cols: Seq<Column>,
    j: JsonV,
    af: Seq<char>,
    picol: Seq<char>,
) -> Option<Seq<Seq<(Seq<char>, SqlV)>>> {
    match spec_parent_key(j) {
        Option::None => Option::None,
        Option::Some(pid) => Option::Some(
            match spec_get(j, af) {
                Option::Some(JsonV::Arr(elems)) => spec_simple_rows(cols, elems, picol, pid),
                _ => Seq::empty(),
            },
        ),
    }
}

/// One SimpleIntArray junction row per bare-integer element; other elements
/// contribute nothing.
pub open spec fn spec_int_rows(
    elems: Seq<JsonV>,
    picol: Seq<char>,
    vcol: Seq<char>,
    pid: i64,
) -> Seq<Seq<(Seq<char>, SqlV)>>
    decreases elems.len(),
{
    if elems.len() == 0 {
        Seq::empty()
    } else {
        (match elems[0] {
            JsonV::Int(v) => seq![seq![(picol, SqlV::Int(pid)), (vcol, SqlV::Int(v))]],
            _ => Seq::empty(),
        }) + spec_int_rows(elems.drop_first(), picol, vcol, pid)
    }
}

/// A SimpleIntArray junction parse.
pub open spec fn spec_parse_int_array(
    j: JsonV,
    af: Seq<char>,
    picol: Seq<char>,
    vcol: Seq<char>,
) -> Option<Seq<Seq<(Seq<char>, SqlV)>>> {
    match spec_parent_key(j) {
        Option::None => Option::None,
        Option::Some(pid) => Option::Some(
            match spec_get(j, af) {
                Option::Some(JsonV::Arr(elems)) => spec_int_rows(elems, picol, vcol, pid),
                _ => Seq::empty(),
            },
        ),
    }
}

/// The cells of the declared columns other than `blueprint_id` and the
/// activity column, for one BlueprintActivity row.
pub open spec fn spec_bp_cols(cols: Seq<Column>, elem: JsonV, acol: Seq<char>) -> Seq<
    (Seq<char>, SqlV),
>
    decreases cols.len(),
{
    if cols.len() == 0 {
        Seq::empty()
    } else {
        (if cols[0].name@ == "blueprint_id"@ || cols[0].name@ == acol {
            Seq::empty()
        } else {
            seq![(cols[0].name@, spec_extract_value(elem, spec_camel(cols[0].name@), cols[0].col_type))]
        }) + spec_bp_cols(cols.drop_first(), elem, acol)
    }
}

/// One BlueprintActivity row: the blueprint id, the activity name, then the
/// element's own columns.
pub open spec fn spec_bp_row(
    cols: Seq<Column>,
    elem: JsonV,
    acol: Seq<char>,
    aname: Seq<char>,
    bid: i64,
) -> Seq<(Seq<char>, SqlV)> {
    seq![("blueprint_id"@, SqlV::Int(bid)), (acol, SqlV::Text(aname))] + spec_bp_cols(
        cols,
        elem,
        acol,
    )
}

/// One BlueprintActivity row per element of one activity's array.
pub open spec fn spec_bp_elems(
    cols: Seq<Column>,
    elems: Seq<JsonV>,
    acol: Seq<char>,
    aname: Seq<char>,
    bid: i64,
) -> Seq<Seq<(Seq<char>, SqlV)>>
    decreases elems.len(),
{
    if elems.len() == 0 {
        Seq::empty()
    } else {
        seq![spec_bp_row(cols, elems[0], acol, aname, bid)] + spec_bp_elems(
            cols,
            elems.drop_first(),
            acol,
            aname,
            bid,
        )
    }
}

/// The rows of all activities, in the order the activities map lists them;
/// an activity without an array field contributes nothing.
pub open spec fn spec_bp_acts(
    cols: Seq<Column>,
    acts: Seq<(Seq<char>, JsonV)>,
    acol: Seq<char>,
    af: Seq<char>,
    bid: i64,
) -> Seq<Seq<(Seq<char>, SqlV)>>
    decreases acts.len(),
{
    if acts.len() == 0 {
        Seq::empty()
    } else {
        (match spec_get(acts[0].1, af) {
            Option::Some(JsonV::Arr(elems)) => spec_bp_elems(cols, elems, acol, acts[0].0, bid),
            _ => Seq::empty(),
        }) + spec_bp_acts(cols, acts.drop_first(), acol, af, bid)
    }
}

/// A BlueprintActivity junction parse: fails without an integer blueprint
/// identifier; an absent or non-object `activities` field yields no rows.
pub open spec fn spec_parse_blueprint(
    cols: Seq<Column>,
    j: JsonV,
    acol: Seq<char>,
    af: Seq<char>,
) -> Option<Seq<Seq<(Seq<char>, SqlV)>>> {
    match spec_blueprint_key(j) {
        Option::None => Option::None,
        Option::Some(bid) => Option::Some(
            match spec_get(j, "activities"@) {
                Option::Some(JsonV::Obj(acts)) => spec_bp_acts(cols, acts, acol, af, bid),
                _ => Seq::empty(),
            },
        ),
    }
}

/// The cells of the declared columns other than the parent-id and nested-key
/// columns, for one NestedKeyValue row.
pub open spec fn spec_nkv_cols(
    cols: Seq<Column>,
    elem: JsonV,
    picol: Seq<char>,
    nkcol: Seq<char>,
) -> Seq<(Seq<char>, SqlV)>
    decreases cols.len(),
{
    if cols.len() == 0 {
        Seq::empty()
    } else {
        (if cols[0].name@ == picol || cols[0].name@ == nkcol {
            Seq::empty()
        } else {
            seq![(cols[0].name@, spec_extract_value(elem, spec_camel(cols[0].name@), cols[0].col_type))]
        }) + spec_nkv_cols(cols.drop_first(), elem, picol, nkcol)
    }
}

/// One NestedKeyValue row: the parent id, the nested key, then the element's
/// own columns.
pub open spec fn spec_nkv_row(
    cols: Seq<Column>,
    elem: JsonV,
    picol: Seq<char>,
    nkcol: Seq<char>,
    pid: i64,
    nk: i64,
) -> Seq<(Seq<char>, SqlV)> {
    seq![(picol, SqlV::Int(pid)), (nkcol, SqlV::Int(nk))] + spec_nkv_cols(cols, elem, picol, nkcol)
}

/// One NestedKeyValue row per element of one wrapper's inner array.
pub open spec fn spec_nkv_inner(
    cols: Seq<Column>,
    elems: Seq<JsonV>,
    picol: Seq<char>,
    nkcol: Seq<char>,
    pid: i64,
    nk: i64,
) -> Seq<Seq<(Seq<char>, SqlV)>>
    decreases elems.len(),
{
    if elems.len() == 0 {
        Seq::empty()
    } else {
        seq![spec_nkv_row(cols, elems[0], picol, nkcol, pid, nk)] + spec_nkv_inner(
            cols,
            elems.drop_first(),
            picol,
            nkcol,
            pid,
            nk,
        )
    }
}

/// The rows of all `{_key, _value}` wrapper objects of a NestedKeyValue
/// array; wrappers without an integer `_key` or an array `_value` contribute
/// nothing.
pub open spec fn spec_nkv_outer(
    cols: Seq<Column>,
    outer: Seq<JsonV>,
    picol: Seq<char>,
    nkcol: Seq<char>,
    pid: i64,
) -> Seq<Seq<(Seq<char>, SqlV)>>
    decreases outer.len(),
{
    if outer.len() == 0 {
        Seq::empty()
    } else {
        (match spec_parent_key(outer[0]) {
            Option::None => Seq::empty(),
            Option::Some(nk) => match spec_get(outer[0], "_value"@) {
                Option::Some(JsonV::Arr(elems)) => spec_nkv_inner(
                    cols,
                    elems,
                    picol,
                    nkcol,
                    pid,
                    nk,
                ),
                _ => Seq::empty(),
            },
        }) + spec_nkv_outer(cols, outer.drop_first(), picol, nkcol, pid)
    }
}

/// A NestedKeyValue junction parse.
pub open spec fn spec_parse_nkv(
    cols: Seq<Column>,
    j: JsonV,
    af: Seq<char>,
    picol: Seq<char>,
    nkcol: Seq<char>,
) -> Option<Seq<Seq<(Seq<char>, SqlV)>>> {
    match spec_parent_key(j) {
        Option::None => Option::None,
        Option::Some(pid) => Option::Some(
            match spec_get(j, af) {
                Option::Some(JsonV::Arr(outer)) => spec_nkv_outer(cols, outer, picol, nkcol, pid),
                _ => Seq::empty(),
            },
        ),
    }
}

/// The cell one remaining column takes from a DoubleNested inner element: a
/// bare integer is taken as is; otherwise the element is read as an object.
pub open spec fn spec_dn_val(c: Column, elem: JsonV) -> SqlV {
    match elem {
        JsonV::Int(i) => SqlV::Int(i),
        _ => spec_extract_value(elem, spec_camel(c.name@), c.col_type),
    }
}

/// The cells of the declared columns other than the parent-id and level-key
/// columns, for one DoubleNested row.
pub open spec fn spec_dn_cols(
    cols: Seq<Column>,
    elem: JsonV,
    picol: Seq<char>,
    lkcol: Seq<char>,
) -> Seq<(Seq<char>, SqlV)>
    decreases cols.len(),
{
    if cols.len() == 0 {
        Seq::empty()
    } else {
        (if cols[0].name@ == picol || cols[0].name@ == lkcol {
            Seq::empty()
        } else {
            seq![(cols[0].name@, spec_dn_val(cols[0], elem))]
        }) + spec_dn_cols(cols.drop_first(), elem, picol, lkcol)
    }
}

/// One DoubleNested row.
pub open spec fn spec_dn_row(
    cols: Seq<Column>,
    elem: JsonV,
    picol: Seq<char>,
    lkcol: Seq<char>,
    pid: i64,
    lk: i64,
) -> Seq<(Seq<char>, SqlV)> {
    seq![(picol, SqlV::Int(pid)), (lkcol, SqlV::Int(lk))] + spec_dn_cols(cols, elem, picol, lkcol)
}

/// One DoubleNested row per element of one wrapper's inner array.
pub open spec fn spec_dn_inner(
    cols: Seq<Column>,
    elems: Seq<JsonV>,
    picol: Seq<char>,
    lkcol: Seq<char>,
    pid: i64,
    lk: i64,
) -> Seq<Seq<(Seq<char>, SqlV)>>
    decreases elems.len(),
{
    if elems.len() == 0 {
        Seq::empty()
    } else {
        seq![spec_dn_row(cols, elems[0], picol, lkcol, pid, lk)] + spec_dn_inner(
            cols,
            elems.drop_first(),
            picol,
            lkcol,
            pid,
            lk,
        )
    }
}

/// The rows of all `{_key, _value}` wrapper objects of a DoubleNested
/// record's own `_value` array.
pub open spec fn spec_dn_outer(
    cols: Seq<Column>,
    outer: Seq<JsonV>,
    picol: Seq<char>,
    lkcol: Seq<char>,
    pid: i64,
) -> Seq<Seq<(Seq<char>, SqlV)>>
    decreases outer.len(),
{
    if outer.len() == 0 {
        Seq::empty()
    } else {
        (match spec_parent_key(outer[0]) {
            Option::None => Seq::empty(),
            Option::Some(lk) => match spec_get(outer[0], "_value"@) {
                Option::Some(JsonV::Arr(elems)) => spec_dn_inner(
                    cols,
                    elems,
                    picol,
                    lkcol,
                    pid,
                    lk,
                ),
                _ => Seq::empty(),
            },
        }) + spec_dn_outer(cols, outer.drop_first(), picol, lkcol, pid)
    }
}

/// A DoubleNested junction parse.
pub open spec fn spec_parse_dn(
    cols: Seq<Column>,
    j: JsonV,
    picol: Seq<char>,
    lkcol: Seq<char>,
) -> Option<Seq<Seq<(Seq<char>, SqlV)>>> {
    match spec_parent_key(j) {
        Option::None => Option::None,
        Option::Some(pid) => Option::Some(
            match spec_get(j, "_value"@) {
                Option::Some(JsonV::Arr(outer)) => spec_dn_outer(cols, outer, picol, lkcol, pid),
                _ => Seq::empty(),
            },
        ),
    }
}

/// An integer field of a record: `Some` exactly when the field is present
/// and holds a JSON integer.
fn get_int_field(json: &Json, key: &str) -> (r: Option<i64>)
    ensures
        r == (match spec_get(json_view(*json), key@) {
            Option::Some(v) => spec_as_int(v),
            Option::None => Option::<i64>::None,
        }),
{
    match json.get(key) {
        Option::Some(v) => match v {
            Json::Int(i) => Option::Some(*i),
            Json::Null => Option::None,
            Json::Bool(_) => Option::None,
            Json::Real(_) => Option::None,
            Json::Text(_) => Option::None,
            Json::Array(_) => Option::None,
            Json::Object(_) => Option::None,
        },
        Option::None => Option::None,
    }
}

fn build_simple_row(cols: &Vec<Column>, elem: &Json, picol: &String, pid: i64) -> (row: ParsedRow)
    ensures
        row.view_seq() == spec_simple_row(cols@, json_view(*elem), picol@, pid),
{
    let ghost ev = json_view(*elem);
    let mut row = ParsedRow::new();
    row.values.push((picol.clone(), SqlValue::Integer(pid)));
    proof {
        assert(row.view_seq() =~= seq![(picol@, SqlV::Int(pid))]);
        assert(cols@.skip(0) =~= cols@);
    }
    let mut k: usize = 0;
    while k < cols.len()
        invariant
            ev == json_view(*elem),
            k <= cols@.len(),
            spec_simple_row(cols@, ev, picol@, pid) == row.view_seq() + spec_simple_cols(
                cols@.skip(k as int),
                ev,
                picol@,
            ),
        decreases cols@.len() - k,
    {
        let col = &cols[k];
        proof {
            assert(cols@.skip(k as int)[0] == cols@[k as int]);
            assert(cols@.skip(k as int).drop_first() =~= cols@.skip(k as int + 1));
        }
        let ghost pre = row.view_seq();
        let ghost rest = spec_simple_cols(cols@.skip(k as int + 1), ev, picol@);
        if !col.name.eq(picol) {
            let json_key: String = match &col.json_field {
                Option::Some(f) => f.clone(),
                Option::None => to_camel_case(col.name.as_str()),
            };
            let value = extract_value(elem, &json_key, &col.col_type);
            let ghost cell = spec_simple_cell(cols@[k as int], ev);
            row.values.push((col.name.clone(), value));
            proof {
                assert(sql_view(value) == cell.1);
                assert(row.view_seq() =~= pre.push(cell));
                assert(pre.push(cell) =~= pre + seq![cell]);
                assert(row.view_seq() + rest =~= (pre + seq![cell]) + rest);
                assert(pre + (seq![cell] + rest) =~= (pre + seq![cell]) + rest);
            }
        } else {
            proof {
                assert(Seq::<(Seq<char>, SqlV)>::empty() + rest =~= rest);
            }
        }
        k += 1;
    }
    proof {
        assert(cols@.skip(cols@.len() as int) =~= Seq::<Column>::empty());
        assert(row.view_seq() + Seq::<(Seq<char>, SqlV)>::empty() =~= row.view_seq());
    }
    row
}

fn build_bp_row(cols: &Vec<Column>, elem: &Json, acol: &String, aname: &String, bid: i64) -> (row:
    ParsedRow)
    ensures
        row.view_seq() == spec_bp_row(cols@, json_view(*elem), acol@, aname@, bid),
{
    let ghost ev = json_view(*elem);
    let mut row = ParsedRow::new();
    row.values.push(("blueprint_id".to_owned(), SqlValue::Integer(bid)));
    proof {
        assert(row.view_seq() =~= seq![("blueprint_id"@, SqlV::Int(bid))]);
    }
    let ghost first = row.view_seq();
    row.values.push((acol.clone(), SqlValue::Text(aname.clone())));
    proof {
        assert(row.view_seq() =~= first.push((acol@, SqlV::Text(aname@))));
        assert(first.push((acol@, SqlV::Text(aname@))) =~= seq![
            ("blueprint_id"@, SqlV::Int(bid)),
            (acol@, SqlV::Text(aname@)),
        ]);
        assert(cols@.skip(0) =~= cols@);
    }
    let mut k: usize = 0;
    while k < cols.len()
        invariant
            ev == json_view(*elem),
            k <= cols@.len(),
            spec_bp_row(cols@, ev, acol@, aname@, bid) == row.view_seq() + spec_bp_cols(
                cols@.skip(k as int),
                ev,
                acol@,
            ),
        decreases cols@.len() - k,
    {
        let col = &cols[k];
        proof {
            assert(cols@.skip(k as int)[0] == cols@[k as int]);
            assert(cols@.skip(k as int).drop_first() =~= cols@.skip(k as int + 1));
        }
        let ghost pre = row.view_seq();
        let ghost rest = spec_bp_cols(cols@.skip(k as int + 1), ev, acol@);
        if !col.name.as_str().eq("blueprint_id") && !col.name.eq(acol) {
            let json_key = to_camel_case(col.name.as_str());
            let value = extract_value(elem, &json_key, &col.col_type);
            let ghost cell = (cols@[k as int].name@, spec_extract_value(
                ev,
                spec_camel(cols@[k as int].name@),
                cols@[k as int].col_type,
            ));
            row.values.push((col.name.clone(), value));
            proof {
                assert(sql_view(value) == cell.1);
                assert(row.view_seq() =~= pre.push(cell));
                assert(pre.push(cell) =~= pre + seq![cell]);
                assert(row.view_seq() + rest =~= (pre + seq![cell]) + rest);
                assert(pre + (seq![cell] + rest) =~= (pre + seq![cell]) + rest);
            }
        } else {
            proof {
                assert(Seq::<(Seq<char>, SqlV)>::empty() + rest =~= rest);
            }
        }
        k += 1;
    }
    proof {
        assert(cols@.skip(cols@.len() as int) =~= Seq::<Column>::empty());
        assert(row.view_seq() + Seq::<(Seq<char>, SqlV)>::empty() =~= row.view_seq());
    }
    row
}

fn build_nkv_row(
    cols: &Vec<Column>,
    elem: &Json,
    picol: &String,
    nkcol: &String,
    pid: i64,
    nk: i64,
) -> (row: ParsedRow)
    ensures
        row.view_seq() == spec_nkv_row(cols@, json_view(*elem), picol@, nkcol@, pid, nk),
{
    let ghost ev = json_view(*elem);
    let mut row = ParsedRow::new();
    row.values.push((picol.clone(), SqlValue::Integer(pid)));
    proof {
        assert(row.view_seq() =~= seq![(picol@, SqlV::Int(pid))]);
    }
    let ghost first = row.view_seq();
    row.values.push((nkcol.clone(), SqlValue::Integer(nk)));
    proof {
        assert(row.view_seq() =~= first.push((nkcol@, SqlV::Int(nk))));
        assert(first.push((nkcol@, SqlV::Int(nk))) =~= seq![
            (picol@, SqlV::Int(pid)),
            (nkcol@, SqlV::Int(nk)),
        ]);
        assert(cols@.skip(0) =~= cols@);
    }
    let mut k: usize = 0;
    while k < cols.len()
        invariant
            ev == json_view(*elem),
            k <= cols@.len(),
            spec_nkv_row(cols@, ev, picol@, nkcol@, pid, nk) == row.view_seq() + spec_nkv_cols(
                cols@.skip(k as int),
                ev,
                picol@,
                nkcol@,
            ),
        decreases cols@.len() - k,
    {
        let col = &cols[k];
        proof {
            assert(cols@.skip(k as int)[0] == cols@[k as int]);
            assert(cols@.skip(k as int).drop_first() =~= cols@.skip(k as int + 1));
        }
        let ghost pre = row.view_seq();
        let ghost rest = spec_nkv_cols(cols@.skip(k as int + 1), ev, picol@, nkcol@);
        if !col.name.eq(picol) && !col.name.eq(nkcol) {
            let json_key = to_camel_case(col.name.as_str());
            let value = extract_value(elem, &json_key, &col.col_type);
            let ghost cell = (cols@[k as int].name@, spec_extract_value(
                ev,
                spec_camel(cols@[k as int].name@),
                cols@[k as int].col_type,
            ));
            row.values.push((col.name.clone(), value));
            proof {
                assert(sql_view(value) == cell.1);
                assert(row.view_seq() =~= pre.push(cell));
                assert(pre.push(cell) =~= pre + seq![cell]);
                assert(row.view_seq() + rest =~= (pre + seq![cell]) + rest);
                assert(pre + (seq![cell] + rest) =~= (pre + seq![cell]) + rest);
            }
        } else {
            proof {
                assert(Seq::<(Seq<char>, SqlV)>::empty() + rest =~= rest);
            }
        }
        k += 1;
    }
    proof {
        assert(cols@.skip(cols@.len() as int) =~= Seq::<Column>::empty());
        assert(row.view_seq() + Seq::<(Seq<char>, SqlV)>::empty() =~= row.view_seq());
    }
    row
}

fn build_dn_row(
    cols: &Vec<Column>,
    elem: &Json,
    picol: &String,
    lkcol: &String,
    pid: i64,
    lk: i64,
) -> (row: ParsedRow)
    ensures
        row.view_seq() == spec_dn_row(cols@, json_view(*elem), picol@, lkcol@, pid, lk),
{
    let ghost ev = json_view(*elem);
    let mut row = ParsedRow::new();
    row.values.push((picol.clone(), SqlValue::Integer(pid)));
    proof {
        assert(row.view_seq() =~= seq![(picol@, SqlV::Int(pid))]);
    }
    let ghost first = row.view_seq();
    row.values.push((lkcol.clone(), SqlValue::Integer(lk)));
    proof {
        assert(row.view_seq() =~= first.push((lkcol@, SqlV::Int(lk))));
        assert(first.push((lkcol@, SqlV::Int(lk))) =~= seq![
            (picol@, SqlV::Int(pid)),
            (lkcol@, SqlV::Int(lk)),
        ]);
        assert(cols@.skip(0) =~= cols@);
    }
    let mut k: usize = 0;
    while k < cols.len()
        invariant
            ev == json_view(*elem),
            k <= cols@.len(),
            spec_dn_row(cols@, ev, picol@, lkcol@, pid, lk) == row.view_seq() + spec_dn_cols(
                cols@.skip(k as int),
                ev,
                picol@,
                lkcol@,
            ),
        decreases cols@.len() - k,
    {
        let col = &cols[k];
        proof {
            assert(cols@.skip(k as int)[0] == cols@[k as int]);
            assert(cols@.skip(k as int).drop_first() =~= cols@.skip(k as int + 1));
        }
        let ghost pre = row.view_seq();
        let ghost rest = spec_dn_cols(cols@.skip(k as int + 1), ev, picol@, lkcol@);
        if !col.name.eq(picol) && !col.name.eq(lkcol) {
            let value: SqlValue = match elem {
                Json::Int(i) => SqlValue::Integer(*i),
                _ => {
                    let json_key = to_camel_case(col.name.as_str());
                    extract_value(elem, &json_key, &col.col_type)
                },
            };
            let ghost cell = (cols@[k as int].name@, spec_dn_val(cols@[k as int], ev));
            row.values.push((col.name.clone(), value));
            proof {
                assert(sql_view(value) == cell.1);
                assert(row.view_seq() =~= pre.push(cell));
                assert(pre.push(cell) =~= pre + seq![cell]);
                assert(row.view_seq() + rest =~= (pre + seq![cell]) + rest);
                assert(pre + (seq![cell] + rest) =~= (pre + seq![cell]) + rest);
            }
        } else {
            proof {
                assert(Seq::<(Seq<char>, SqlV)>::empty() + rest =~= rest);
            }
        }
        k += 1;
    }
    proof {
        assert(cols@.skip(cols@.len() as int) =~= Seq::<Column>::empty());
        assert(row.view_seq() + Seq::<(Seq<char>, SqlV)>::empty() =~= row.view_seq());
    }
    row
}

fn parse_simple_array(
    json: &Json,
    schema: &TableSchema,
    array_field: &String,
    parent_id_column: &String,
) -> (r: Result<Vec<ParsedRow>, ParseError>)
    ensures
        match spec_parse_simple(
            schema.columns@,
            json_view(*json),
            array_field@,
            parent_id_column@,
        ) {
            Option::None => r matches Err(e) && e == ParseError::MissingKey,
            Option::Some(rs) => r matches Ok(rows) && rows_view(rows@) == rs,
        },
{
    let ghost jv = json_view(*json);
    let pid: i64 = match get_int_field(json, "_key") {
        Option::Some(p) => p,
        Option::None => {
            return Err(ParseError::MissingKey);
        },
    };
    let ghost cols = schema.columns@;
    let ghost picol = parent_id_column@;
    let mut rows: Vec<ParsedRow> = Vec::new();
    match json.get(array_field.as_str()) {
        Option::Some(arr) => match arr {
            Json::Array(elems) => {
                let ghost ev = json_arr_view(elems@);
                let ghost total = spec_simple_rows(cols, ev, picol, pid);
                proof {
                    lemma_json_arr_view(elems@);
                    assert(ev.skip(0) =~= ev);
                    assert(rows_view(rows@) =~= Seq::<Seq<(Seq<char>, SqlV)>>::empty());
                    assert(rows_view(rows@) + total =~= total);
                }
                let mut x: usize = 0;
                while x < elems.len()
                    invariant
                        ev == json_arr_view(elems@),
                        total == spec_simple_rows(cols, ev, picol, pid),
                        cols == schema.columns@,
                        picol == parent_id_column@,
                        x <= elems@.len(),
                        ev.len() == elems@.len(),
                        forall|i: int| 0 <= i < elems@.len() ==> ev[i] == json_view(
                            #[trigger] elems@[i],
                        ),
                        total == rows_view(rows@) + spec_simple_rows(
                            cols,
                            ev.skip(x as int),
                            picol,
                            pid,
                        ),
                    decreases elems@.len() - x,
                {
                    proof {
                        assert(ev.skip(x as int)[0] == ev[x as int]);
                        assert(ev.skip(x as int).drop_first() =~= ev.skip(x as int + 1));
                    }
                    let row = build_simple_row(&schema.columns, &elems[x], parent_id_column, pid);
                    let ghost before = rows_view(rows@);
                    let ghost cell = spec_simple_row(cols, ev[x as int], picol, pid);
                    let ghost rest = spec_simple_rows(cols, ev.skip(x as int + 1), picol, pid);
                    rows.push(row);
                    proof {
                        assert(rows_view(rows@) =~= before.push(cell));
                        assert(before.push(cell) =~= before + seq![cell]);
                        assert(rows_view(rows@) + rest =~= (before + seq![cell]) + rest);
                        assert(before + (seq![cell] + rest) =~= (before + seq![cell]) + rest);
                    }
                    x += 1;
                }
                proof {
                    assert(ev.skip(elems@.len() as int) =~= Seq::<JsonV>::empty());
                    assert(rows_view(rows@) + Seq::<Seq<(Seq<char>, SqlV)>>::empty() =~= rows_view(
                        rows@,
                    ));
                }
            },
            _ => {
                proof {
                    assert(rows_view(rows@) =~= Seq::<Seq<(Seq<char>, SqlV)>>::empty());
                }
            },
        },
        Option::None => {
            proof {
                assert(rows_view(rows@) =~= Seq::<Seq<(Seq<char>, SqlV)>>::empty());
            }
        },
    }
    Ok(rows)
}

fn parse_simple_int_array(
    json: &Json,
    array_field: &String,
    parent_id_column: &String,
    value_column: &String,
) -> (r: Result<Vec<ParsedRow>, ParseError>)
    ensures
        match spec_parse_int_array(
            json_view(*json),
            array_field@,
            parent_id_column@,
            value_column@,
        ) {
            Option::None => r matches Err(e) && e == ParseError::MissingKey,
            Option::Some(rs) => r matches Ok(rows) && rows_view(rows@) == rs,
        },
{
    let ghost jv = json_view(*json);
    let pid: i64 = match get_int_field(json, "_key") {
        Option::Some(p) => p,
        Option::None => {
            return Err(ParseError::MissingKey);
        },
    };
    let ghost picol = parent_id_column@;
    let ghost vcol = value_column@;
    let mut rows: Vec<ParsedRow> = Vec::new();
    match json.get(array_field.as_str()) {
        Option::Some(arr) => match arr {
            Json::Array(elems) => {
                let ghost ev = json_arr_view(elems@);
                let ghost total = spec_int_rows(ev, picol, vcol, pid);
                proof {
                    lemma_json_arr_view(elems@);
                    assert(ev.skip(0) =~= ev);
                    assert(rows_view(rows@) =~= Seq::<Seq<(Seq<char>, SqlV)>>::empty());
                    assert(rows_view(rows@) + total =~= total);
                }
                let mut x: usize = 0;
                while x < elems.len()
                    invariant
                        ev == json_arr_view(elems@),
                        total == spec_int_rows(ev, picol, vcol, pid),
                        picol == parent_id_column@,
                        vcol == value_column@,
                        x <= elems@.len(),
                        ev.len() == elems@.len(),
                        forall|i: int| 0 <= i < elems@.len() ==> ev[i] == json_view(
                            #[trigger] elems@[i],
                        ),
                        total == rows_view(rows@) + spec_int_rows(
                            ev.skip(x as int),
                            picol,
                            vcol,
                            pid,
                        ),
                    decreases elems@.len() - x,
                {
                    proof {
                        assert(ev.skip(x as int)[0] == ev[x as int]);
                        assert(ev.skip(x as int).drop_first() =~= ev.skip(x as int + 1));
                    }
                    let ghost rest = spec_int_rows(ev.skip(x as int + 1), picol, vcol, pid);
                    match &elems[x] {
                        Json::Int(v) => {
                            let mut row = ParsedRow::new();
                            row.values.push((parent_id_column.clone(), SqlValue::Integer(pid)));
                            proof {
                                assert(row.view_seq() =~= seq![(picol, SqlV::Int(pid))]);
                            }
                            let ghost half = row.view_seq();
                            row.values.push((value_column.clone(), SqlValue::Integer(*v)));
                            proof {
                                assert(row.view_seq() =~= half.push((vcol, SqlV::Int(*v))));
                                assert(half.push((vcol, SqlV::Int(*v))) =~= seq![
                                    (picol, SqlV::Int(pid)),
                                    (vcol, SqlV::Int(*v)),
                                ]);
                            }
                            let ghost before = rows_view(rows@);
                            let ghost cell = row.view_seq();
                            rows.push(row);
                            proof {
                                assert(rows_view(rows@) =~= before.push(cell));
                                assert(before.push(cell) =~= before + seq![cell]);
                                assert(rows_view(rows@) + rest =~= (before + seq![cell]) + rest);
                                assert(before + (seq![cell] + rest) =~= (before + seq![cell])
                                    + rest);
                            }
                        },
                        _ => {
                            proof {
                                assert(Seq::<Seq<(Seq<char>, SqlV)>>::empty() + rest =~= rest);
                            }
                        },
                    }
                    x += 1;
                }
                proof {
                    assert(ev.skip(elems@.len() as int) =~= Seq::<JsonV>::empty());
                    assert(rows_view(rows@) + Seq::<Seq<(Seq<char>, SqlV)>>::empty() =~= rows_view(
                        rows@,
                    ));
                }
            },
            _ => {
                proof {
                    assert(rows_view(rows@) =~= Seq::<Seq<(Seq<char>, SqlV)>>::empty());
                }
            },
        },
        Option::None => {
            proof {
                assert(rows_view(rows@) =~= Seq::<Seq<(Seq<char>, SqlV)>>::empty());
            }
        },
    }
    Ok(rows)
}

fn parse_blueprint_activity(
    json: &Json,
    schema: &TableSchema,
    activity_column: &String,
    array_field: &String,
) -> (r: Result<Vec<ParsedRow>, ParseError>)
    ensures
        match spec_parse_blueprint(
            schema.columns@,
            json_view(*json),
            activity_column@,
            array_field@,
        ) {
            Option::None => r matches Err(e) && e == ParseError::MissingBlueprintKey,
            Option::Some(rs) => r matches Ok(rows) && rows_view(rows@) == rs,
        },
{
    let ghost jv = json_view(*json);
    let bid: i64 = match json.get("blueprintTypeID") {
        Option::Some(v) => match v {
            Json::Int(i) => *i,
            _ => {
                return Err(ParseError::MissingBlueprintKey);
            },
        },
        Option::None => match get_int_field(json, "_key") {
            Option::Some(p) => p,
            Option::None => {
                return Err(ParseError::MissingBlueprintKey);
            },
        },
    };
    let ghost cols = schema.columns@;
    let ghost acol = activity_column@;
    let ghost af = array_field@;
    let mut rows: Vec<ParsedRow> = Vec::new();
    match json.get("activities") {
        Option::Some(act) => match act {
            Json::Object(acts) => {
                let ghost av = json_obj_view(acts@);
                let ghost total = spec_bp_acts(cols, av, acol, af, bid);
                proof {
                    lemma_json_obj_view(acts@);
                    assert(av.skip(0) =~= av);
                    assert(rows_view(rows@) =~= Seq::<Seq<(Seq<char>, SqlV)>>::empty());
                    assert(rows_view(rows@) + total =~= total);
                }
                let mut a: usize = 0;
                while a < acts.len()
                    invariant
                        av == json_obj_view(acts@),
                        total == spec_bp_acts(cols, av, acol, af, bid),
                        cols == schema.columns@,
                        acol == activity_column@,
                        af == array_field@,
                        a <= acts@.len(),
                        av.len() == acts@.len(),
                        forall|i: int| 0 <= i < acts@.len() ==> av[i] == ((
                        #[trigger] acts@[i]).0@, json_view(acts@[i].1)),
                        total == rows_view(rows@) + spec_bp_acts(
                            cols,
                            av.skip(a as int),
                            acol,
                            af,
                            bid,
                        ),
                    decreases acts@.len() - a,
                {
                    proof {
                        assert(av.skip(a as int)[0] == av[a as int]);
                        assert(av.skip(a as int).drop_first() =~= av.skip(a as int + 1));
                    }
                    let aname = &acts[a].0;
                    let adata = &acts[a].1;
                    let ghost an = av[a as int].0;
                    let ghost base = rows_view(rows@);
                    let ghost contribution = (match spec_get(av[a as int].1, af) {
                        Option::Some(JsonV::Arr(e2)) => spec_bp_elems(cols, e2, acol, an, bid),
                        _ => Seq::<Seq<(Seq<char>, SqlV)>>::empty(),
                    });
                    match adata.get(array_field.as_str()) {
                        Option::Some(arr2) => match arr2 {
                            Json::Array(elems) => {
                                let ghost ev = json_arr_view(elems@);
                                proof {
                                    lemma_json_arr_view(elems@);
                                    assert(ev.skip(0) =~= ev);
                                    assert(contribution == spec_bp_elems(cols, ev, acol, an, bid));
                                    assert(base + contribution =~= rows_view(rows@) + contribution);
                                }
                                let mut x: usize = 0;
                                while x < elems.len()
                                    invariant
                                        ev == json_arr_view(elems@),
                                        cols == schema.columns@,
                                        acol == activity_column@,
                                        an == aname@,
                                        contribution == spec_bp_elems(cols, ev, acol, an, bid),
                                        x <= elems@.len(),
                                        ev.len() == elems@.len(),
                                        forall|i: int| 0 <= i < elems@.len() ==> ev[i] == json_view(
                                            #[trigger] elems@[i],
                                        ),
                                        base + contribution == rows_view(rows@) + spec_bp_elems(
                                            cols,
                                            ev.skip(x as int),
                                            acol,
                                            an,
                                            bid,
                                        ),
                                    decreases elems@.len() - x,
                                {
                                    proof {
                                        assert(ev.skip(x as int)[0] == ev[x as int]);
                                        assert(ev.skip(x as int).drop_first() =~= ev.skip(
                                            x as int + 1,
                                        ));
                                    }
                                    let row = build_bp_row(
                                        &schema.columns,
                                        &elems[x],
                                        activity_column,
                                        aname,
                                        bid,
                                    );
                                    let ghost before = rows_view(rows@);
                                    let ghost cell = spec_bp_row(cols, ev[x as int], acol, an, bid);
                                    let ghost rest = spec_bp_elems(
                                        cols,
                                        ev.skip(x as int + 1),
                                        acol,
                                        an,
                                        bid,
                                    );
                                    rows.push(row);
                                    proof {
                                        assert(rows_view(rows@) =~= before.push(cell));
                                        assert(before.push(cell) =~= before + seq![cell]);
                                        assert(rows_view(rows@) + rest =~= (before + seq![cell])
                                            + rest);
                                        assert(before + (seq![cell] + rest) =~= (before
                                            + seq![cell]) + rest);
                                    }
                                    x += 1;
                                }
                                proof {
                                    assert(ev.skip(elems@.len() as int) =~= Seq::<JsonV>::empty());
                                    assert(rows_view(rows@) + Seq::<Seq<(Seq<char>, SqlV)>>::empty()
                                        =~= rows_view(rows@));
                                }
                            },
                            _ => {
                                proof {
                                    assert(contribution =~= Seq::<Seq<(Seq<char>, SqlV)>>::empty());
                                    assert(base + contribution =~= base);
                                }
                            },
                        },
                        Option::None => {
                            proof {
                                assert(contribution =~= Seq::<Seq<(Seq<char>, SqlV)>>::empty());
                                assert(base + contribution =~= base);
                            }
                        },
                    }
                    proof {
                        assert(spec_bp_acts(cols, av.skip(a as int), acol, af, bid) == contribution
                            + spec_bp_acts(cols, av.skip(a as int + 1), acol, af, bid));
                        assert(base + (contribution + spec_bp_acts(
                            cols,
                            av.skip(a as int + 1),
                            acol,
                            af,
                            bid,
                        )) =~= (base + contribution) + spec_bp_acts(
                            cols,
                            av.skip(a as int + 1),
                            acol,
                            af,
                            bid,
                        ));
                    }
                    a += 1;
                }
                proof {
                    assert(av.skip(acts@.len() as int) =~= Seq::<(Seq<char>, JsonV)>::empty());
                    assert(rows_view(rows@) + Seq::<Seq<(Seq<char>, SqlV)>>::empty() =~= rows_view(
                        rows@,
                    ));
                }
            },
            _ => {
                proof {
                    assert(rows_view(rows@) =~= Seq::<Seq<(Seq<char>, SqlV)>>::empty());
                }
            },
        },
        Option::None => {
            proof {
                assert(rows_view(rows@) =~= Seq::<Seq<(Seq<char>, SqlV)>>::empty());
            }
        },
    }
    Ok(rows)
}

fn parse_nested_key_value(
    json: &Json,
    schema: &TableSchema,
    array_field: &String,
    parent_id_column: &String,
    nested_key_column: &String,
) -> (r: Result<Vec<ParsedRow>, ParseError>)
    ensures
        match spec_parse_nkv(
            schema.columns@,
            json_view(*json),
            array_field@,
            parent_id_column@,
            nested_key_column@,
        ) {
            Option::None => r matches Err(e) && e == ParseError::MissingKey,
            Option::Some(rs) => r matches Ok(rows) && rows_view(rows@) == rs,
        },
{
    let ghost jv = json_view(*json);
    let pid: i64 = match get_int_field(json, "_key") {
        Option::Some(p) => p,
        Option::None => {
            return Err(ParseError::MissingKey);
        },
    };
    let ghost cols = schema.columns@;
    let ghost picol = parent_id_column@;
    let ghost nkcol = nested_key_column@;
    let mut rows: Vec<ParsedRow> = Vec::new();
    match json.get(array_field.as_str()) {
        Option::Some(arr) => match arr {
            Json::Array(outer) => {
                let ghost ov = json_arr_view(outer@);
                let ghost total = spec_nkv_outer(cols, ov, picol, nkcol, pid);
                proof {
                    lemma_json_arr_view(outer@);
                    assert(ov.skip(0) =~= ov);
                    assert(rows_view(rows@) =~= Seq::<Seq<(Seq<char>, SqlV)>>::empty());
                    assert(rows_view(rows@) + total =~= total);
                }
                let mut w: usize = 0;
                while w < outer.len()
                    invariant
                        ov == json_arr_view(outer@),
                        total == spec_nkv_outer(cols, ov, picol, nkcol, pid),
                        cols == schema.columns@,
                        picol == parent_id_column@,
                        nkcol == nested_key_column@,
                        w <= outer@.len(),
                        ov.len() == outer@.len(),
                        forall|i: int| 0 <= i < outer@.len() ==> ov[i] == json_view(
                            #[trigger] outer@[i],
                        ),
                        total == rows_view(rows@) + spec_nkv_outer(
                            cols,
                            ov.skip(w as int),
                            picol,
                            nkcol,
                            pid,
                        ),
                    decreases outer@.len() - w,
                {
                    proof {
                        assert(ov.skip(w as int)[0] == ov[w as int]);
                        assert(ov.skip(w as int).drop_first() =~= ov.skip(w as int + 1));
                    }
                    let outer_item = &outer[w];
                    let ghost base = rows_view(rows@);
                    let ghost contribution = (match spec_parent_key(ov[w as int]) {
                        Option::None => Seq::<Seq<(Seq<char>, SqlV)>>::empty(),
                        Option::Some(nk0) => match spec_get(ov[w as int], "_value"@) {
                            Option::Some(JsonV::Arr(e2)) => spec_nkv_inner(
                                cols,
                                e2,
                                picol,
                                nkcol,
                                pid,
                                nk0,
                            ),
                            _ => Seq::<Seq<(Seq<char>, SqlV)>>::empty(),
                        },
                    });
                    match get_int_field(outer_item, "_key") {
                        Option::Some(nk) => {
                            match outer_item.get("_value") {
                                Option::Some(inner) => match inner {
                                    Json::Array(elems) => {
                                        let ghost ev = json_arr_view(elems@);
                                        proof {
                                            lemma_json_arr_view(elems@);
                                            assert(ev.skip(0) =~= ev);
                                            assert(contribution == spec_nkv_inner(
                                                cols,
                                                ev,
                                                picol,
                                                nkcol,
                                                pid,
                                                nk,
                                            ));
                                            assert(base + contribution =~= rows_view(rows@)
                                                + contribution);
                                        }
                                        let mut x: usize = 0;
                                        while x < elems.len()
                                            invariant
                                                ev == json_arr_view(elems@),
                                                cols == schema.columns@,
                                                picol == parent_id_column@,
                                                nkcol == nested_key_column@,
                                                contribution == spec_nkv_inner(
                                                    cols,
                                                    ev,
                                                    picol,
                                                    nkcol,
                                                    pid,
                                                    nk,
                                                ),
                                                x <= elems@.len(),
                                                ev.len() == elems@.len(),
                                                forall|i: int| 0 <= i < elems@.len() ==> ev[i]
                                                    == json_view(#[trigger] elems@[i]),
                                                base + contribution == rows_view(rows@)
                                                    + spec_nkv_inner(
                                                    cols,
                                                    ev.skip(x as int),
                                                    picol,
                                                    nkcol,
                                                    pid,
                                                    nk,
                                                ),
                                            decreases elems@.len() - x,
                                        {
                                            proof {
                                                assert(ev.skip(x as int)[0] == ev[x as int]);
                                                assert(ev.skip(x as int).drop_first() =~= ev.skip(
                                                    x as int + 1,
                                                ));
                                            }
                                            let row = build_nkv_row(
                                                &schema.columns,
                                                &elems[x],
                                                parent_id_column,
                                                nested_key_column,
                                                pid,
                                                nk,
                                            );
                                            let ghost before = rows_view(rows@);
                                            let ghost cell = spec_nkv_row(
                                                cols,
                                                ev[x as int],
                                                picol,
                                                nkcol,
                                                pid,
                                                nk,
                                            );
                                            let ghost rest = spec_nkv_inner(
                                                cols,
                                                ev.skip(x as int + 1),
                                                picol,
                                                nkcol,
                                                pid,
                                                nk,
                                            );
                                            rows.push(row);
                                            proof {
                                                assert(rows_view(rows@) =~= before.push(cell));
                                                assert(before.push(cell) =~= before + seq![cell]);
                                                assert(rows_view(rows@) + rest =~= (before
                                                    + seq![cell]) + rest);
                                                assert(before + (seq![cell] + rest) =~= (before
                                                    + seq![cell]) + rest);
                                            }
                                            x += 1;
                                        }
                                        proof {
                                            assert(ev.skip(elems@.len() as int)
                                                =~= Seq::<JsonV>::empty());
                                            assert(rows_view(rows@) + Seq::<
                                                Seq<(Seq<char>, SqlV)>,
                                            >::empty() =~= rows_view(rows@));
                                        }
                                    },
                                    _ => {
                                        proof {
                                            assert(contribution =~= Seq::<
                                                Seq<(Seq<char>, SqlV)>,
                                            >::empty());
                                            assert(base + contribution =~= base);
                                        }
                                    },
                                },
                                Option::None => {
                                    proof {
                                        assert(contribution =~= Seq::<
                                            Seq<(Seq<char>, SqlV)>,
                                        >::empty());
                                        assert(base + contribution =~= base);
                                    }
                                },
                            }
                        },
                        Option::None => {
                            proof {
                                assert(contribution =~= Seq::<Seq<(Seq<char>, SqlV)>>::empty());
                                assert(base + contribution =~= base);
                            }
                        },
                    }
                    proof {
                        assert(spec_nkv_outer(cols, ov.skip(w as int), picol, nkcol, pid)
                            == contribution + spec_nkv_outer(
                            cols,
                            ov.skip(w as int + 1),
                            picol,
                            nkcol,
                            pid,
                        ));
                        assert(base + (contribution + spec_nkv_outer(
                            cols,
                            ov.skip(w as int + 1),
                            picol,
                            nkcol,
                            pid,
                        )) =~= (base + contribution) + spec_nkv_outer(
                            cols,
                            ov.skip(w as int + 1),
                            picol,
                            nkcol,
                            pid,
                        ));
                    }
                    w += 1;
                }
                proof {
                    assert(ov.skip(outer@.len() as int) =~= Seq::<JsonV>::empty());
                    assert(rows_view(rows@) + Seq::<Seq<(Seq<char>, SqlV)>>::empty() =~= rows_view(
                        rows@,
                    ));
                }
            },
            _ => {
                proof {
                    assert(rows_view(rows@) =~= Seq::<Seq<(Seq<char>, SqlV)>>::empty());
                }
            },
        },
        Option::None => {
            proof {
                assert(rows_view(rows@) =~= Seq::<Seq<(Seq<char>, SqlV)>>::empty());
            }
        },
    }
    Ok(rows)
}

fn parse_double_nested(
    json: &Json,
    schema: &TableSchema,
    parent_id_column: &String,
    level_key_column: &String,
) -> (r: Result<Vec<ParsedRow>, ParseError>)
    ensures
        match spec_parse_dn(
            schema.columns@,
            json_view(*json),
            parent_id_column@,
            level_key_column@,
        ) {
            Option::None => r matches Err(e) && e == ParseError::MissingKey,
            Option::Some(rs) => r matches Ok(rows) && rows_view(rows@) == rs,
        },
{
    let ghost jv = json_view(*json);
    let pid: i64 = match get_int_field(json, "_key") {
        Option::Some(p) => p,
        Option::None => {
            return Err(ParseError::MissingKey);
        },
    };
    let ghost cols = schema.columns@;
    let ghost picol = parent_id_column@;
    let ghost lkcol = level_key_column@;
    let mut rows: Vec<ParsedRow> = Vec::new();
    match json.get("_value") {
        Option::Some(arr) => match arr {
            Json::Array(outer) => {
                let ghost ov = json_arr_view(outer@);
                let ghost total = spec_dn_outer(cols, ov, picol, lkcol, pid);
                proof {
                    lemma_json_arr_view(outer@);
                    assert(ov.skip(0) =~= ov);
                    assert(rows_view(rows@) =~= Seq::<Seq<(Seq<char>, SqlV)>>::empty());
                    assert(rows_view(rows@) + total =~= total);
                }
                let mut w: usize = 0;
                while w < outer.len()
                    invariant
                        ov == json_arr_view(outer@),
                        total == spec_dn_outer(cols, ov, picol, lkcol, pid),
                        cols == schema.columns@,
                        picol == parent_id_column@,
                        lkcol == level_key_column@,
                        w <= outer@.len(),
                        ov.len() == outer@.len(),
                        forall|i: int| 0 <= i < outer@.len() ==> ov[i] == json_view(
                            #[trigger] outer@[i],
                        ),
                        total == rows_view(rows@) + spec_dn_outer(
                            cols,
                            ov.skip(w as int),
                            picol,
                            lkcol,
                            pid,
                        ),
                    decreases outer@.len() - w,
                {
                    proof {
                        assert(ov.skip(w as int)[0] == ov[w as int]);
                        assert(ov.skip(w as int).drop_first() =~= ov.skip(w as int + 1));
                    }
                    let outer_item = &outer[w];
                    let ghost base = rows_view(rows@);
                    let ghost contribution = (match spec_parent_key(ov[w as int]) {
                        Option::None => Seq::<Seq<(Seq<char>, SqlV)>>::empty(),
                        Option::Some(lk0) => match spec_get(ov[w as int], "_value"@) {
                            Option::Some(JsonV::Arr(e2)) => spec_dn_inner(
                                cols,
                                e2,
                                picol,
                                lkcol,
                                pid,
                                lk0,
                            ),
                            _ => Seq::<Seq<(Seq<char>, SqlV)>>::empty(),
                        },
                    });
                    match get_int_field(outer_item, "_key") {
                        Option::Some(lk) => {
                            match outer_item.get("_value") {
                                Option::Some(inner) => match inner {
                                    Json::Array(elems) => {
                                        let ghost ev = json_arr_view(elems@);
                                        proof {
                                            lemma_json_arr_view(elems@);
                                            assert(ev.skip(0) =~= ev);
                                            assert(contribution == spec_dn_inner(
                                                cols,
                                                ev,
                                                picol,
                                                lkcol,
                                                pid,
                                                lk,
                                            ));
                                            assert(base + contribution =~= rows_view(rows@)
                                                + contribution);
                                        }
                                        let mut x: usize = 0;
                                        while x < elems.len()
                                            invariant
                                                ev == json_arr_view(elems@),
                                                cols == schema.columns@,
                                                picol == parent_id_column@,
                                                lkcol == level_key_column@,
                                                contribution == spec_dn_inner(
                                                    cols,
                                                    ev,
                                                    picol,
                                                    lkcol,
                                                    pid,
                                                    lk,
                                                ),
                                                x <= elems@.len(),
                                                ev.len() == elems@.len(),
                                                forall|i: int| 0 <= i < elems@.len() ==> ev[i]
                                                    == json_view(#[trigger] elems@[i]),
                                                base + contribution == rows_view(rows@)
                                                    + spec_dn_inner(
                                                    cols,
                                                    ev.skip(x as int),
                                                    picol,
                                                    lkcol,
                                                    pid,
                                                    lk,
                                                ),
                                            decreases elems@.len() - x,
                                        {
                                            proof {
                                                assert(ev.skip(x as int)[0] == ev[x as int]);
                                                assert(ev.skip(x as int).drop_first() =~= ev.skip(
                                                    x as int + 1,
                                                ));
                                            }
                                            let row = build_dn_row(
                                                &schema.columns,
                                                &elems[x],
                                                parent_id_column,
                                                level_key_column,
                                                pid,
                                                lk,
                                            );
                                            let ghost before = rows_view(rows@);
                                            let ghost cell = spec_dn_row(
                                                cols,
                                                ev[x as int],
                                                picol,
                                                lkcol,
                                                pid,
                                                lk,
                                            );
                                            let ghost rest = spec_dn_inner(
                                                cols,
                                                ev.skip(x as int + 1),
                                                picol,
                                                lkcol,
                                                pid,
                                                lk,
                                            );
                                            rows.push(row);
                                            proof {
                                                assert(rows_view(rows@) =~= before.push(cell));
                                                assert(before.push(cell) =~= before + seq![cell]);
                                                assert(rows_view(rows@) + rest =~= (before
                                                    + seq![cell]) + rest);
                                                assert(before + (seq![cell] + rest) =~= (before
                                                    + seq![cell]) + rest);
                                            }
                                            x += 1;
                                        }
                                        proof {
                                            assert(ev.skip(elems@.len() as int)
                                                =~= Seq::<JsonV>::empty());
                                            assert(rows_view(rows@) + Seq::<
                                                Seq<(Seq<char>, SqlV)>,
                                            >::empty() =~= rows_view(rows@));
                                        }
                                    },
                                    _ => {
                                        proof {
                                            assert(contribution =~= Seq::<
                                                Seq<(Seq<char>, SqlV)>,
                                            >::empty());
                                            assert(base + contribution =~= base);
                                        }
                                    },
                                },
                                Option::None => {
                                    proof {
                                        assert(contribution =~= Seq::<
                                            Seq<(Seq<char>, SqlV)>,
                                        >::empty());
                                        assert(base + contribution =~= base);
                                    }
                                },
                            }
                        },
                        Option::None => {
                            proof {
                                assert(contribution =~= Seq::<Seq<(Seq<char>, SqlV)>>::empty());
                                assert(base + contribution =~= base);
                            }
                        },
                    }
                    proof {
                        assert(spec_dn_outer(cols, ov.skip(w as int), picol, lkcol, pid)
                            == contribution + spec_dn_outer(
                            cols,
                            ov.skip(w as int + 1),
                            picol,
                            lkcol,
                            pid,
                        ));
                        assert(base + (contribution + spec_dn_outer(
                            cols,
                            ov.skip(w as int + 1),
                            picol,
                            lkcol,
                            pid,
                        )) =~= (base + contribution) + spec_dn_outer(
                            cols,
                            ov.skip(w as int + 1),
                            picol,
                            lkcol,
                            pid,
                        ));
                    }
                    w += 1;
                }
                proof {
                    assert(ov.skip(outer@.len() as int) =~= Seq::<JsonV>::empty());
                    assert(rows_view(rows@) + Seq::<Seq<(Seq<char>, SqlV)>>::empty() =~= rows_view(
                        rows@,
                    ));
                }
            },
            _ => {
                proof {
                    assert(rows_view(rows@) =~= Seq::<Seq<(Seq<char>, SqlV)>>::empty());
                }
            },
        },
        Option::None => {
            proof {
                assert(rows_view(rows@) =~= Seq::<Seq<(Seq<char>, SqlV)>>::empty());
            }
        },
    }
    Ok(rows)
}

/// What a junction parse of record `j` against array source `src` yields:
/// `None` when the required identifier is absent, else the rows.
pub open spec fn spec_parse_junction(src: ArraySource, cols: Seq<Column>, j: JsonV) -> Option<
    Seq<Seq<(Seq<char>, SqlV)>>,
> {
    match src {
        ArraySource::Simple { array_field, parent_id_column } => spec_parse_simple(
            cols,
            j,
            array_field@,
            parent_id_column@,
        ),
        ArraySource::SimpleIntArray { array_field, parent_id_column, value_column } => {
            spec_parse_int_array(j, array_field@, parent_id_column@, value_column@)
        },
        ArraySource::BlueprintActivity { activity_column, array_field } => spec_parse_blueprint(
            cols,
            j,
            activity_column@,
            array_field@,
        ),
        ArraySource::NestedKeyValue { array_field, parent_id_column, nested_key_column } => {
            spec_parse_nkv(cols, j, array_field@, parent_id_column@, nested_key_column@)
        },
        ArraySource::DoubleNested { parent_id_column, level_key_column } => spec_parse_dn(
            cols,
            j,
            parent_id_column@,
            level_key_column@,
        ),
    }
}

/// The error a junction parse reports when the record's identifier is
/// absent.
pub open spec fn spec_missing_key_error(src: ArraySource) -> ParseError {
    if src matches ArraySource::BlueprintActivity { .. } {
        ParseError::MissingBlueprintKey
    } else {
        ParseError::MissingKey
    }
}

/// Parses one record that is already in JSON form into the rows of a
/// junction table, dispatching on the schema's array source.
pub fn parse_junction_json(json: &Json, schema: &TableSchema) -> (r: Result<
    Vec<ParsedRow>,
    ParseError,
>)
    ensures
        match schema.array_source {
            Option::None => r matches Err(e) && e == ParseError::NoArraySource,
            Option::Some(src) => match spec_parse_junction(src, schema.columns@, json_view(*json)) {
                Option::None => r matches Err(e) && e == spec_missing_key_error(src),
                Option::Some(rs) => r matches Ok(rows) && rows_view(rows@) == rs,
            },
        },
{
    match &schema.array_source {
        Option::None => Err(ParseError::NoArraySource),
        Option::Some(src) => match src {
            ArraySource::Simple { array_field, parent_id_column } => parse_simple_array(
                json,
                schema,
                array_field,
                parent_id_column,
            ),
            ArraySource::SimpleIntArray { array_field, parent_id_column, value_column } => {
                parse_simple_int_array(json, array_field, parent_id_column, value_column)
            },
            ArraySource::BlueprintActivity { activity_column, array_field } => {
                parse_blueprint_activity(json, schema, activity_column, array_field)
            },
            ArraySource::NestedKeyValue {
                array_field,
                parent_id_column,
                nested_key_column,
            } => parse_nested_key_value(
                json,
                schema,
                array_field,
                parent_id_column,
                nested_key_column,
            ),
            ArraySource::DoubleNested { parent_id_column, level_key_column } => parse_double_nested(
                json,
                schema,
                parent_id_column,
                level_key_column,
            ),
        },
    }
}

/// Parses a line of JSON text into the rows of a junction table.
pub fn parse_junction_records(line: &str, schema: &TableSchema) -> (r: Result<
    Vec<ParsedRow>,
    ParseError,
>)
    ensures
        match spec_parse_json(line@) {
            Option::None => r matches Err(e) && e == ParseError::MalformedJson,
            Option::Some(jv) => match schema.array_source {
                Option::None => r matches Err(e) && e == ParseError::NoArraySource,
                Option::Some(src) => match spec_parse_junction(src, schema.columns@, jv) {
                    Option::None => r matches Err(e) && e == spec_missing_key_error(src),
                    Option::Some(rs) => r matches Ok(rows) && rows_view(rows@) == rs,
                },
            },
        },
{
    match parse_json_line(line) {
        Option::None => Err(ParseError::MalformedJson),
        Option::Some(json) => parse_junction_json(&json, schema),
    }
}

/// Parses a line of JSON text into the single row of a non-junction table.
pub fn parse_record(line: &str, schema: &TableSchema) -> (r: Result<ParsedRow, ParseError>)
    ensures
        match spec_parse_json(line@) {
            Option::None => r matches Err(e) && e == ParseError::MalformedJson,
            Option::Some(jv) => r matches Ok(row) && row.view_seq() == spec_record_cols(
                schema.columns@,
                jv,
            ),
        },
{
    match parse_json_line(line) {
        Option::None => Err(ParseError::MalformedJson),
        Option::Some(json) => Ok(parse_record_json(&json, schema)),
    }
}

} // verus!
