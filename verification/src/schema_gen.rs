//! Generation of the CREATE TABLE and CREATE INDEX statements for a table
//! schema, verified against character-sequence specifications.

use vstd::prelude::*;

use crate::schema_types::{
    languages, names_view, spec_languages, Column, ColumnType, ForeignKey, TableSchema,
};

verus! {

/// The storage type keyword for a column type. Localized columns are
/// expanded into per-language text columns before this is consulted.
pub open spec fn spec_sql_type(t: ColumnType) -> Seq<char> {
    match t {
        ColumnType::Integer => "INTEGER"@,
        ColumnType::Real => "REAL"@,
        ColumnType::Text => "TEXT"@,
        ColumnType::Boolean => "INTEGER"@,
        ColumnType::Json => "TEXT"@,
        ColumnType::Localized => "TEXT"@,
    }
}

/// The declaration line of one non-localized column: its name, its storage
/// type, PRIMARY KEY on the `id` column, NOT NULL when required.
pub open spec fn spec_col_line(c: Column) -> Seq<char> {
    "    "@ + c.name@ + " "@ + spec_sql_type(c.col_type) + (if c.name@ == "id"@ {
        " PRIMARY KEY"@
    } else {
        Seq::<char>::empty()
    }) + (if !c.nullable {
        " NOT NULL"@
    } else {
        Seq::<char>::empty()
    })
}

/// The declaration lines of a localized column: one TEXT column per
/// language.
pub open spec fn spec_loc_lines(name: Seq<char>, langs: Seq<Seq<char>>) -> Seq<Seq<char>>
    decreases langs.len(),
{
    if langs.len() == 0 {
        Seq::empty()
    } else {
        seq!["    "@ + name + seq!['_'] + langs[0] + " TEXT"@] + spec_loc_lines(
            name,
            langs.drop_first(),
        )
    }
}

/// The declaration lines of all columns, in declaration order.
pub open spec fn spec_col_lines(cols: Seq<Column>, langs: Seq<Seq<char>>) -> Seq<Seq<char>>
    decreases cols.len(),
{
    if cols.len() == 0 {
        Seq::empty()
    } else {
        (if cols[0].col_type == ColumnType::Localized {
            spec_loc_lines(cols[0].name@, langs)
        } else {
            seq![spec_col_line(cols[0])]
        }) + spec_col_lines(cols.drop_first(), langs)
    }
}

/// The constraint line of one foreign key.
pub open spec fn spec_fk_line(fk: ForeignKey) -> Seq<char> {
    "    FOREIGN KEY ("@ + fk.column@ + ") REFERENCES "@ + fk.references_table@ + "("@
        + fk.references_column@ + ")"@
}

/// The constraint lines of all foreign keys.
pub open spec fn spec_fk_lines(fks: Seq<ForeignKey>) -> Seq<Seq<char>>
    decreases fks.len(),
{
    if fks.len() == 0 {
        Seq::empty()
    } else {
        seq![spec_fk_line(fks[0])] + spec_fk_lines(fks.drop_first())
    }
}

/// Lines joined with a comma and a line break.
pub open spec fn spec_join_lines(lines: Seq<Seq<char>>) -> Seq<char>
    decreases lines.len(),
{
    if lines.len() == 0 {
        Seq::empty()
    } else if lines.len() == 1 {
        lines[0]
    } else {
        lines[0] + ",\n"@ + spec_join_lines(lines.drop_first())
    }
}

proof fn lemma_join_snoc(lines: Seq<Seq<char>>, k: int)
    requires
        0 <= k < lines.len(),
    ensures
        k == 0 ==> spec_join_lines(lines.take(1)) == lines[0],
        k > 0 ==> spec_join_lines(lines.take(k + 1)) == spec_join_lines(lines.take(k)) + ",\n"@
            + lines[k],
    decreases k,
{
    if k == 0 {
        assert(lines.take(1) =~= seq![lines[0]]);
    } else {
        lemma_join_snoc(lines.drop_first(), k - 1);
        assert(lines.take(k + 1).drop_first() =~= lines.drop_first().take(k));
        assert(lines.take(k).drop_first() =~= lines.drop_first().take(k - 1));
        assert(lines.take(k + 1)[0] == lines[0]);
        assert(lines.take(k)[0] == lines[0]);
        assert(lines.drop_first().take(k)[k - 1] == lines[k]);
        if k == 1 {
            assert(lines.drop_first().take(1) =~= seq![lines[1]]);
        } else {
            assert((lines[0] + ",\n"@ + (spec_join_lines(lines.drop_first().take(k - 1)) + ",\n"@
                + lines[k])) =~= ((lines[0] + ",\n"@ + spec_join_lines(
                lines.drop_first().take(k - 1),
            )) + ",\n"@ + lines[k]));
        }
    }
}

/// The whole CREATE TABLE statement for a table.
pub open spec fn spec_create_table(t: TableSchema) -> Seq<char> {
    "CREATE TABLE "@ + t.name@ + " (\n"@ + spec_join_lines(
        spec_col_lines(t.columns@, spec_languages()) + spec_fk_lines(t.foreign_keys@),
    ) + "\n)"@
}

fn sql_type_str(t: &ColumnType) -> (r: &'static str)
    ensures
        r@ == spec_sql_type(*t),
{
    match t {
        ColumnType::Integer => "INTEGER",
        ColumnType::Real => "REAL",
        ColumnType::Text => "TEXT",
        ColumnType::Boolean => "INTEGER",
        ColumnType::Json => "TEXT",
        ColumnType::Localized => "TEXT",
    }
}

/// Generates the CREATE TABLE statement for a table schema: each localized
/// column expands into one TEXT column per language, the `id` column is the
/// primary key, and foreign-key constraints follow the columns.
pub fn generate_create_table(schema: &TableSchema) -> (sql: String)
    ensures
        sql@ == spec_create_table(*schema),
{
    let langs = languages();
    let ghost lv = spec_languages();
    let mut lines: Vec<String> = Vec::new();
    let ghost colseq = schema.columns@;
    proof {
        assert(colseq.skip(0) =~= colseq);
        assert(names_view(lines@) + spec_col_lines(colseq, lv) =~= spec_col_lines(colseq, lv));
    }
    let mut k: usize = 0;
    while k < schema.columns.len()
        invariant
            colseq == schema.columns@,
            lv == spec_languages(),
            langs@.map_values(|s: String| s@) == lv,
            k <= colseq.len(),
            spec_col_lines(colseq, lv) == names_view(lines@) + spec_col_lines(
                colseq.skip(k as int),
                lv,
            ),
        decreases colseq.len() - k,
    {
        let col = &schema.columns[k];
        proof {
            assert(colseq.skip(k as int)[0] == colseq[k as int]);
            assert(colseq.skip(k as int).drop_first() =~= colseq.skip(k as int + 1));
        }
        let ghost pre = names_view(lines@);
        let ghost rest = spec_col_lines(colseq.skip(k as int + 1), lv);
        if col.col_type == ColumnType::Localized {
            let mut m: usize = 0;
            proof {
                assert(lv.skip(0) =~= lv);
                assert(pre + (spec_loc_lines(col.name@, lv) + rest) =~= (pre + spec_loc_lines(
                    col.name@,
                    lv,
                )) + rest);
            }
            while m < langs.len()
                invariant
                    lv == spec_languages(),
                    langs@.map_values(|s: String| s@) == lv,
                    m <= langs@.len(),
                    lv.len() == langs@.len(),
                    pre + spec_loc_lines(col.name@, lv) == names_view(lines@) + spec_loc_lines(
                        col.name@,
                        lv.skip(m as int),
                    ),
                decreases langs@.len() - m,
            {
                proof {
                    assert(lv[m as int] == langs@.map_values(|s: String| s@)[m as int]);
                    assert(lv.skip(m as int)[0] == lv[m as int]);
                    assert(lv.skip(m as int).drop_first() =~= lv.skip(m as int + 1));
                }
                let mut line = "    ".to_owned();
                line.append(col.name.as_str());
                line.append("_");
                line.append(langs[m].as_str());
                line.append(" TEXT");
                proof {
                    reveal_strlit("_");
                    assert(line@ =~= "    "@ + col.name@ + seq!['_'] + lv[m as int] + " TEXT"@);
                }
                let ghost before = names_view(lines@);
                lines.push(line);
                proof {
                    assert(names_view(lines@) =~= before + seq![line@]);
                    assert(before + (seq![line@] + spec_loc_lines(
                        col.name@,
                        lv.skip(m as int + 1),
                    )) =~= (before + seq![line@]) + spec_loc_lines(
                        col.name@,
                        lv.skip(m as int + 1),
                    ));
                }
                m += 1;
            }
            proof {
                assert(lv.skip(langs@.len() as int) =~= Seq::<Seq<char>>::empty());
                assert(spec_loc_lines(col.name@, lv.skip(langs@.len() as int)) =~= Seq::<
                    Seq<char>,
                >::empty());
                assert(names_view(lines@) + Seq::<Seq<char>>::empty() =~= names_view(lines@));
                assert(names_view(lines@) + rest =~= (pre + spec_loc_lines(col.name@, lv)) + rest);
            }
        } else {
            let mut line = "    ".to_owned();
            line.append(col.name.as_str());
            line.append(" ");
            line.append(sql_type_str(&col.col_type));
            if col.name.as_str().eq("id") {
                line.append(" PRIMARY KEY");
            }
            if !col.nullable {
                line.append(" NOT NULL");
            }
            proof {
                assert(line@ =~= spec_col_line(colseq[k as int]));
            }
            let ghost before = names_view(lines@);
            lines.push(line);
            proof {
                assert(names_view(lines@) =~= before + seq![spec_col_line(colseq[k as int])]);
                assert(before + (seq![spec_col_line(colseq[k as int])] + rest) =~= (before + seq![
                    spec_col_line(colseq[k as int]),
                ]) + rest);
            }
        }
        k += 1;
    }
    proof {
        assert(colseq.skip(colseq.len() as int) =~= Seq::<Column>::empty());
        assert(names_view(lines@) + Seq::<Seq<char>>::empty() =~= names_view(lines@));
        assert(names_view(lines@) == spec_col_lines(colseq, lv));
    }

    let ghost fkseq = schema.foreign_keys@;
    let ghost base_lines = names_view(lines@);
    proof {
        assert(fkseq.skip(0) =~= fkseq);
        assert(base_lines + (spec_fk_lines(fkseq)) =~= base_lines + spec_fk_lines(fkseq));
    }
    let mut f: usize = 0;
    while f < schema.foreign_keys.len()
        invariant
            fkseq == schema.foreign_keys@,
            f <= fkseq.len(),
            base_lines + spec_fk_lines(fkseq) == names_view(lines@) + spec_fk_lines(
                fkseq.skip(f as int),
            ),
        decreases fkseq.len() - f,
    {
        let fk = &schema.foreign_keys[f];
        proof {
            assert(fkseq.skip(f as int)[0] == fkseq[f as int]);
            assert(fkseq.skip(f as int).drop_first() =~= fkseq.skip(f as int + 1));
        }
        let mut line = "    FOREIGN KEY (".to_owned();
        line.append(fk.column.as_str());
        line.append(") REFERENCES ");
        line.append(fk.references_table.as_str());
        line.append("(");
        line.append(fk.references_column.as_str());
        line.append(")");
        proof {
            assert(line@ =~= spec_fk_line(fkseq[f as int]));
        }
        let ghost before = names_view(lines@);
        lines.push(line);
        proof {
            assert(names_view(lines@) =~= before + seq![spec_fk_line(fkseq[f as int])]);
            assert(before + (seq![spec_fk_line(fkseq[f as int])] + spec_fk_lines(
                fkseq.skip(f as int + 1),
            )) =~= (before + seq![spec_fk_line(fkseq[f as int])]) + spec_fk_lines(
                fkseq.skip(f as int + 1),
            ));
        }
        f += 1;
    }
    proof {
        assert(fkseq.skip(fkseq.len() as int) =~= Seq::<ForeignKey>::empty());
        assert(names_view(lines@) + Seq::<Seq<char>>::empty() =~= names_view(lines@));
        assert(names_view(lines@) == spec_col_lines(colseq, lv) + spec_fk_lines(fkseq));
    }

    let ghost all_lines = names_view(lines@);
    let mut sql = "CREATE TABLE ".to_owned();
    sql.append(schema.name.as_str());
    sql.append(" (\n");
    let ghost head = "CREATE TABLE "@ + schema.name@ + " (\n"@;
    proof {
        assert(sql@ =~= head);
    }
    let mut j: usize = 0;
    while j < lines.len()
        invariant
            all_lines == names_view(lines@),
            head == "CREATE TABLE "@ + schema.name@ + " (\n"@,
            j <= lines@.len(),
            all_lines.len() == lines@.len(),
            forall|i: int| 0 <= i < lines@.len() ==> (#[trigger] all_lines[i]) == lines@[i]@,
            j == 0 ==> sql@ == head,
            j > 0 ==> sql@ == head + spec_join_lines(all_lines.take(j as int)),
        decreases lines@.len() - j,
    {
        if j > 0 {
            sql.append(",\n");
        }
        sql.append(lines[j].as_str());
        proof {
            lemma_join_snoc(all_lines, j as int);
            if j == 0 {
                assert(sql@ =~= head + spec_join_lines(all_lines.take(1)));
            } else {
                assert(sql@ =~= head + (spec_join_lines(all_lines.take(j as int)) + ",\n"@
                    + all_lines[j as int]));
            }
        }
        j += 1;
    }
    sql.append("\n)");
    proof {
        if lines@.len() == 0 {
            assert(all_lines.len() == 0);
            assert(spec_join_lines(all_lines) == Seq::<char>::empty());
            assert(sql@ =~= head + spec_join_lines(all_lines) + "\n)"@);
        } else {
            assert(all_lines.take(lines@.len() as int) =~= all_lines);
            assert(sql@ =~= head + spec_join_lines(all_lines) + "\n)"@);
        }
        assert(sql@ =~= spec_create_table(*schema));
    }
    sql
}

/// An index statement over one column.
pub open spec fn spec_col_index(tname: Seq<char>, col: Seq<char>) -> Seq<char> {
    "CREATE INDEX idx_"@ + tname + seq!['_'] + col + " ON "@ + tname + "("@ + col + ")"@
}

/// One index statement per foreign-key column.
pub open spec fn spec_fk_indexes(tname: Seq<char>, fks: Seq<ForeignKey>) -> Seq<Seq<char>>
    decreases fks.len(),
{
    if fks.len() == 0 {
        Seq::empty()
    } else {
        seq![spec_col_index(tname, fks[0].column@)] + spec_fk_indexes(tname, fks.drop_first())
    }
}

/// Whether the columns hold a localized `name` column.
pub open spec fn spec_has_localized_name(cols: Seq<Column>) -> bool {
    exists|i: int| 0 <= i < cols.len() && (#[trigger] cols[i]).name@ == "name"@ && cols[i].col_type
        == ColumnType::Localized
}

/// Whether some foreign key is declared on the column named `nm`.
pub open spec fn spec_fk_dominated(fks: Seq<ForeignKey>, nm: Seq<char>) -> bool {
    exists|k: int| 0 <= k < fks.len() && (#[trigger] fks[k]).column@ == nm
}

/// Whether a column name marks a common filter column that gets an ad hoc
/// index: published, deleted, activity, security_status, and the `is_` and
/// `visible_` flag families.
pub open spec fn spec_should_index(nm: Seq<char>) -> bool {
    ||| nm == "published"@
    ||| nm == "deleted"@
    ||| nm == "activity"@
    ||| nm == "security_status"@
    ||| (nm.len() >= 3 && nm[0] == 'i' && nm[1] == 's' && nm[2] == '_')
    ||| (nm.len() >= 8 && nm[0] == 'v' && nm[1] == 'i' && nm[2] == 's' && nm[3] == 'i' && nm[4]
        == 'b' && nm[5] == 'l' && nm[6] == 'e' && nm[7] == '_')
}

/// The ad hoc filter-column index statements: one per filter column not
/// already covered by a foreign-key index.
pub open spec fn spec_filter_indexes(
    tname: Seq<char>,
    cols: Seq<Column>,
    fks: Seq<ForeignKey>,
) -> Seq<Seq<char>>
    decreases cols.len(),
{
    if cols.len() == 0 {
        Seq::empty()
    } else {
        (if !spec_fk_dominated(fks, cols[0].name@) && spec_should_index(cols[0].name@) {
            seq![spec_col_index(tname, cols[0].name@)]
        } else {
            Seq::<Seq<char>>::empty()
        }) + spec_filter_indexes(tname, cols.drop_first(), fks)
    }
}

/// The statement indexing the English name of a table with a localized
/// `name` column.
pub open spec fn spec_name_en_index(tname: Seq<char>) -> Seq<char> {
    "CREATE INDEX idx_"@ + tname + "_name_en ON "@ + tname + "(name_en)"@
}

/// The composite unique index of a junction table with exactly two foreign
/// keys.
pub open spec fn spec_composite_index(tname: Seq<char>, c0: Seq<char>, c1: Seq<char>) -> Seq<
    char,
> {
    "CREATE UNIQUE INDEX idx_"@ + tname + "_composite ON "@ + tname + "("@ + c0 + ", "@ + c1
        + ")"@
}

/// All index statements for a table: foreign-key indexes, the English name
/// index, the composite unique index of a two-key junction table, and the ad
/// hoc filter-column indexes, in that order.
pub open spec fn spec_generate_indexes(t: TableSchema) -> Seq<Seq<char>> {
    spec_fk_indexes(t.name@, t.foreign_keys@) + (if spec_has_localized_name(t.columns@) {
        seq![spec_name_en_index(t.name@)]
    } else {
        Seq::<Seq<char>>::empty()
    }) + (if t.array_source is Some && t.foreign_keys@.len() == 2 {
        seq![
            spec_composite_index(
                t.name@,
                t.foreign_keys@[0].column@,
                t.foreign_keys@[1].column@,
            ),
        ]
    } else {
        Seq::<Seq<char>>::empty()
    }) + spec_filter_indexes(t.name@, t.columns@, t.foreign_keys@)
}

fn build_col_index(tname: &String, col: &String) -> (r: String)
    ensures
        r@ == spec_col_index(tname@, col@),
{
    let mut stmt = "CREATE INDEX idx_".to_owned();
    stmt.append(tname.as_str());
    stmt.append("_");
    stmt.append(col.as_str());
    stmt.append(" ON ");
    stmt.append(tname.as_str());
    stmt.append("(");
    stmt.append(col.as_str());
    stmt.append(")");
    proof {
        reveal_strlit("_");
        assert(stmt@ =~= spec_col_index(tname@, col@));
    }
    stmt
}

fn fk_dominated(fks: &Vec<ForeignKey>, name: &String) -> (r: bool)
    ensures
        r == spec_fk_dominated(fks@, name@),
{
    let mut k: usize = 0;
    while k < fks.len()
        invariant
            k <= fks@.len(),
            forall|i: int| 0 <= i < k ==> (#[trigger] fks@[i]).column@ != name@,
        decreases fks@.len() - k,
    {
        if fks[k].column.eq(name) {
            return true;
        }
        k += 1;
    }
    false
}

fn should_index(name: &String) -> (r: bool)
    ensures
        r == spec_should_index(name@),
{
    let s = name.as_str();
    if s.eq("published") || s.eq("deleted") || s.eq("activity") || s.eq("security_status") {
        return true;
    }
    let n = s.unicode_len();
    if n >= 3 && s.get_char(0) == 'i' && s.get_char(1) == 's' && s.get_char(2) == '_' {
        return true;
    }
    if n >= 8 && s.get_char(0) == 'v' && s.get_char(1) == 'i' && s.get_char(2) == 's'
        && s.get_char(3) == 'i' && s.get_char(4) == 'b' && s.get_char(5) == 'l' && s.get_char(6)
        == 'e' && s.get_char(7) == '_' {
        return true;
    }
    false
}

/// Generates the CREATE INDEX statements for a table: foreign-key columns,
/// the English localized name, the composite unique key of two-key junction
/// tables, and common filter columns.
pub fn generate_indexes(schema: &TableSchema) -> (stmts: Vec<String>)
    ensures
        names_view(stmts@) == spec_generate_indexes(*schema),
{
    let mut stmts: Vec<String> = Vec::new();
    let ghost tname = schema.name@;
    let ghost fkseq = schema.foreign_keys@;
    let ghost colseq = schema.columns@;

    proof {
        assert(fkseq.skip(0) =~= fkseq);
        assert(names_view(stmts@) + spec_fk_indexes(tname, fkseq) =~= spec_fk_indexes(
            tname,
            fkseq,
        ));
    }
    let mut f: usize = 0;
    while f < schema.foreign_keys.len()
        invariant
            tname == schema.name@,
            fkseq == schema.foreign_keys@,
            f <= fkseq.len(),
            spec_fk_indexes(tname, fkseq) == names_view(stmts@) + spec_fk_indexes(
                tname,
                fkseq.skip(f as int),
            ),
        decreases fkseq.len() - f,
    {
        proof {
            assert(fkseq.skip(f as int)[0] == fkseq[f as int]);
            assert(fkseq.skip(f as int).drop_first() =~= fkseq.skip(f as int + 1));
        }
        let stmt = build_col_index(&schema.name, &schema.foreign_keys[f].column);
        let ghost before = names_view(stmts@);
        let ghost cell = spec_col_index(tname, fkseq[f as int].column@);
        let ghost rest = spec_fk_indexes(tname, fkseq.skip(f as int + 1));
        stmts.push(stmt);
        proof {
            assert(names_view(stmts@) =~= before + seq![cell]);
            assert(before + (seq![cell] + rest) =~= (before + seq![cell]) + rest);
        }
        f += 1;
    }
    proof {
        assert(fkseq.skip(fkseq.len() as int) =~= Seq::<ForeignKey>::empty());
        assert(names_view(stmts@) + Seq::<Seq<char>>::empty() =~= names_view(stmts@));
        assert(names_view(stmts@) == spec_fk_indexes(tname, fkseq));
    }

    let mut has_name = false;
    let mut c: usize = 0;
    while c < schema.columns.len()
        invariant
            colseq == schema.columns@,
            c <= colseq.len(),
            has_name == exists|i: int|
                0 <= i < c && (#[trigger] colseq[i]).name@ == "name"@ && colseq[i].col_type
                    == ColumnType::Localized,
        decreases colseq.len() - c,
    {
        if schema.columns[c].name.as_str().eq("name") && schema.columns[c].col_type
            == ColumnType::Localized {
            has_name = true;
        }
        c += 1;
    }
    proof {
        assert(has_name == spec_has_localized_name(colseq));
    }
    let ghost part1 = names_view(stmts@);
    if has_name {
        let mut stmt = "CREATE INDEX idx_".to_owned();
        stmt.append(schema.name.as_str());
        stmt.append("_name_en ON ");
        stmt.append(schema.name.as_str());
        stmt.append("(name_en)");
        proof {
            assert(stmt@ =~= spec_name_en_index(tname));
        }
        stmts.push(stmt);
        proof {
            assert(names_view(stmts@) =~= part1 + seq![spec_name_en_index(tname)]);
        }
    } else {
        proof {
            assert(names_view(stmts@) =~= part1 + Seq::<Seq<char>>::empty());
        }
    }

    let ghost part2 = names_view(stmts@);
    if schema.array_source.is_some() && schema.foreign_keys.len() == 2 {
        let mut stmt = "CREATE UNIQUE INDEX idx_".to_owned();
        stmt.append(schema.name.as_str());
        stmt.append("_composite ON ");
        stmt.append(schema.name.as_str());
        stmt.append("(");
        stmt.append(schema.foreign_keys[0].column.as_str());
        stmt.append(", ");
        stmt.append(schema.foreign_keys[1].column.as_str());
        stmt.append(")");
        proof {
            assert(stmt@ =~= spec_composite_index(
                tname,
                fkseq[0].column@,
                fkseq[1].column@,
            ));
        }
        stmts.push(stmt);
        proof {
            assert(names_view(stmts@) =~= part2 + seq![
                spec_composite_index(tname, fkseq[0].column@, fkseq[1].column@),
            ]);
        }
    } else {
        proof {
            assert(names_view(stmts@) =~= part2 + Seq::<Seq<char>>::empty());
        }
    }

    let ghost part3 = names_view(stmts@);
    proof {
        assert(colseq.skip(0) =~= colseq);
        assert(part3 + spec_filter_indexes(tname, colseq, fkseq) =~= part3 + spec_filter_indexes(
            tname,
            colseq,
            fkseq,
        ));
    }
    let mut x: usize = 0;
    while x < schema.columns.len()
        invariant
            tname == schema.name@,
            fkseq == schema.foreign_keys@,
            colseq == schema.columns@,
            x <= colseq.len(),
            part3 + spec_filter_indexes(tname, colseq, fkseq) == names_view(stmts@)
                + spec_filter_indexes(tname, colseq.skip(x as int), fkseq),
        decreases colseq.len() - x,
    {
        let col = &schema.columns[x];
        proof {
            assert(colseq.skip(x as int)[0] == colseq[x as int]);
            assert(colseq.skip(x as int).drop_first() =~= colseq.skip(x as int + 1));
        }
        let ghost rest = spec_filter_indexes(tname, colseq.skip(x as int + 1), fkseq);
        let dominated = fk_dominated(&schema.foreign_keys, &col.name);
        if !dominated && should_index(&col.name) {
            let stmt = build_col_index(&schema.name, &col.name);
            let ghost before = names_view(stmts@);
            let ghost cell = spec_col_index(tname, colseq[x as int].name@);
            stmts.push(stmt);
            proof {
                assert(names_view(stmts@) =~= before + seq![cell]);
                assert(before + (seq![cell] + rest) =~= (before + seq![cell]) + rest);
            }
        } else {
            proof {
                assert(Seq::<Seq<char>>::empty() + rest =~= rest);
            }
        }
        x += 1;
    }
    proof {
        assert(colseq.skip(colseq.len() as int) =~= Seq::<Column>::empty());
        assert(names_view(stmts@) + Seq::<Seq<char>>::empty() =~= names_view(stmts@));
        assert(names_view(stmts@) =~= spec_generate_indexes(*schema));
    }
    stmts
}

/// The physical column names of a table, with each localized column
/// expanded into one `<name>_<lang>` column per language.
pub open spec fn spec_column_names(cols: Seq<Column>, langs: Seq<Seq<char>>) -> Seq<Seq<char>>
    decreases cols.len(),
{
    if cols.len() == 0 {
        Seq::empty()
    } else {
        (if cols[0].col_type == ColumnType::Localized {
            spec_loc_names(cols[0].name@, langs)
        } else {
            seq![cols[0].name@]
        }) + spec_column_names(cols.drop_first(), langs)
    }
}

/// The per-language column names of one localized column.
pub open spec fn spec_loc_names(name: Seq<char>, langs: Seq<Seq<char>>) -> Seq<Seq<char>>
    decreases langs.len(),
{
    if langs.len() == 0 {
        Seq::empty()
    } else {
        seq![name + seq!['_'] + langs[0]] + spec_loc_names(name, langs.drop_first())
    }
}

/// The physical column names of a table, in declaration order, localized
/// columns expanded per language.
pub fn get_column_names(schema: &TableSchema) -> (names: Vec<String>)
    ensures
        names_view(names@) == spec_column_names(schema.columns@, spec_languages()),
{
    let langs = languages();
    let ghost lv = spec_languages();
    let ghost colseq = schema.columns@;
    let mut names: Vec<String> = Vec::new();
    proof {
        assert(colseq.skip(0) =~= colseq);
        assert(names_view(names@) + spec_column_names(colseq, lv) =~= spec_column_names(
            colseq,
            lv,
        ));
    }
    let mut k: usize = 0;
    while k < schema.columns.len()
        invariant
            colseq == schema.columns@,
            lv == spec_languages(),
            langs@.map_values(|s: String| s@) == lv,
            k <= colseq.len(),
            spec_column_names(colseq, lv) == names_view(names@) + spec_column_names(
                colseq.skip(k as int),
                lv,
            ),
        decreases colseq.len() - k,
    {
        let col = &schema.columns[k];
        proof {
            assert(colseq.skip(k as int)[0] == colseq[k as int]);
            assert(colseq.skip(k as int).drop_first() =~= colseq.skip(k as int + 1));
        }
        let ghost pre = names_view(names@);
        let ghost rest = spec_column_names(colseq.skip(k as int + 1), lv);
        if col.col_type == ColumnType::Localized {
            let mut m: usize = 0;
            proof {
                assert(lv.skip(0) =~= lv);
                assert(pre + (spec_loc_names(col.name@, lv) + rest) =~= (pre + spec_loc_names(
                    col.name@,
                    lv,
                )) + rest);
            }
            while m < langs.len()
                invariant
                    lv == spec_languages(),
                    langs@.map_values(|s: String| s@) == lv,
                    m <= langs@.len(),
                    lv.len() == langs@.len(),
                    pre + spec_loc_names(col.name@, lv) == names_view(names@) + spec_loc_names(
                        col.name@,
                        lv.skip(m as int),
                    ),
                decreases langs@.len() - m,
            {
                proof {
                    assert(lv[m as int] == langs@.map_values(|s: String| s@)[m as int]);
                    assert(lv.skip(m as int)[0] == lv[m as int]);
                    assert(lv.skip(m as int).drop_first() =~= lv.skip(m as int + 1));
                }
                let mut cn = col.name.clone();
                cn.append("_");
                cn.append(langs[m].as_str());
                proof {
                    reveal_strlit("_");
                    assert(cn@ =~= col.name@ + seq!['_'] + lv[m as int]);
                }
                let ghost before = names_view(names@);
                names.push(cn);
                proof {
                    assert(names_view(names@) =~= before + seq![
                        col.name@ + seq!['_'] + lv[m as int],
                    ]);
                    assert(before + (seq![col.name@ + seq!['_'] + lv[m as int]] + spec_loc_names(
                        col.name@,
                        lv.skip(m as int + 1),
                    )) =~= (before + seq![col.name@ + seq!['_'] + lv[m as int]]) + spec_loc_names(
                        col.name@,
                        lv.skip(m as int + 1),
                    ));
                }
                m += 1;
            }
            proof {
                assert(lv.skip(langs@.len() as int) =~= Seq::<Seq<char>>::empty());
                assert(spec_loc_names(col.name@, lv.skip(langs@.len() as int)) =~= Seq::<
                    Seq<char>,
                >::empty());
                assert(names_view(names@) + Seq::<Seq<char>>::empty() =~= names_view(names@));
                assert(names_view(names@) + rest =~= (pre + spec_loc_names(col.name@, lv)) + rest);
            }
        } else {
            let ghost before = names_view(names@);
            names.push(col.name.clone());
            proof {
                assert(names_view(names@) =~= before + seq![colseq[k as int].name@]);
                assert(before + (seq![colseq[k as int].name@] + rest) =~= (before + seq![
                    colseq[k as int].name@,
                ]) + rest);
            }
        }
        k += 1;
    }
    proof {
        assert(colseq.skip(colseq.len() as int) =~= Seq::<Column>::empty());
        assert(names_view(names@) + Seq::<Seq<char>>::empty() =~= names_view(names@));
    }
    names
}

} // verus!

