//! The dependency resolver: given include or exclude filters over the table
//! registry, computes which tables to process and orders them so that every
//! table follows its foreign-key parents.

use vstd::prelude::*;

use crate::schema_types::{
    column_view, fk_view, index_view, names_view, schema_view, seq_has_name, ArraySource, Column,
    ForeignKey, Index, TableSchema, TableSchemaV,
};
use crate::tables::{all_tables, find_table, spec_registry};

verus! {

/// Whether some table in `ts` is named `nm`.
pub open spec fn tables_have_name(ts: Seq<TableSchema>, nm: Seq<char>) -> bool {
    exists|i: int| 0 <= i < ts.len() && (#[trigger] ts[i]).name@ == nm
}

/// Whether the table named `nm` in `ts` is marked in `inc`.
pub open spec fn included_name(ts: Seq<TableSchema>, inc: Seq<bool>, nm: Seq<char>) -> bool {
    exists|i: int| 0 <= i < ts.len() && (#[trigger] ts[i]).name@ == nm && inc[i]
}

/// Whether `ds` lists exactly the non-self foreign-key targets of `t`:
/// every listed name is a target other than `t`'s own name, and every such
/// target is listed.
pub open spec fn deps_ok(t: TableSchema, ds: Seq<String>) -> bool {
    &&& forall|k: int| 0 <= k < ds.len() ==> t.fk_targets().contains((#[trigger] ds[k])@) && ds[k]@
        != t.name@
    &&& forall|m: int| 0 <= m < t.foreign_keys@.len() && (
    #[trigger] t.foreign_keys@[m]).references_table@ != t.name@ ==> seq_has_name(
        ds,
        t.foreign_keys@[m].references_table@,
    )
}

/// The shapes of the given tables, in order.
pub open spec fn views_of(s: Seq<TableSchema>) -> Seq<TableSchemaV> {
    Seq::new(s.len(), |i: int| schema_view(s[i]))
}

/// Whether some table shape in `ts` is named `nm`.
pub open spec fn views_have_name(ts: Seq<TableSchemaV>, nm: Seq<char>) -> bool {
    exists|i: int| 0 <= i < ts.len() && (#[trigger] ts[i]).name == nm
}

pub proof fn lemma_have_name_bridge(ts: Seq<TableSchema>, nm: Seq<char>)
    ensures
        views_have_name(views_of(ts), nm) <==> tables_have_name(ts, nm),
{
    if views_have_name(views_of(ts), nm) {
        let i = choose|i: int| 0 <= i < views_of(ts).len() && (#[trigger] views_of(ts)[i]).name
            == nm;
        assert(ts[i].name@ == nm);
    }
    if tables_have_name(ts, nm) {
        let i = choose|i: int| 0 <= i < ts.len() && (#[trigger] ts[i]).name@ == nm;
        assert(views_of(ts)[i].name == nm);
    }
}

/// Whether the table shape named `a` lists `b` as a foreign-key target or
/// a child table.
pub open spec fn edge_v(ts: Seq<TableSchemaV>, a: Seq<char>, b: Seq<char>) -> bool {
    exists|i: int|
        #![auto]
        0 <= i < ts.len() && ts[i].name == a && ((exists|k: int|
            0 <= k < ts[i].foreign_keys.len() && (#[trigger] ts[i].foreign_keys[k]).references_table
                == b) || (exists|c: int|
            0 <= c < ts[i].child_tables.len() && (#[trigger] ts[i].child_tables[c]) == b))
}

/// Whether consecutive names of `p` are joined by shape-level edges.
pub open spec fn is_path_v(ts: Seq<TableSchemaV>, p: Seq<Seq<char>>) -> bool {
    forall|i: int| 0 <= i < p.len() - 1 ==> edge_v(ts, #[trigger] p[i], p[i + 1])
}

/// Whether `n` is reachable from some root name along shape-level edges.
pub open spec fn reachable_v(ts: Seq<TableSchemaV>, roots: Seq<String>, n: Seq<char>) -> bool {
    exists|p: Seq<Seq<char>>|
        #![auto]
        p.len() >= 1 && seq_has_name(roots, p[0]) && p.last() == n && is_path_v(ts, p)
}

pub proof fn lemma_reachable_to_views(ts: Seq<TableSchema>, roots: Seq<String>, n: Seq<char>)
    requires
        reachable(ts, roots, n),
    ensures
        reachable_v(views_of(ts), roots, n),
{
    let p = choose|p: Seq<Seq<char>>|
        #![auto]
        p.len() >= 1 && seq_has_name(roots, p[0]) && p.last() == n && is_path(ts, p);
    assert forall|i: int| 0 <= i < p.len() - 1 implies edge_v(
        views_of(ts),
        #[trigger] p[i],
        p[i + 1],
    ) by {
        assert(edge(ts, p[i], p[i + 1]));
        let w = choose|w: int|
            0 <= w < ts.len() && (#[trigger] ts[w]).name@ == p[i] && (ts[w].fk_targets().contains(
                p[i + 1],
            ) || exists|c: int|
                0 <= c < ts[w].child_tables@.len() && (#[trigger] ts[w].child_tables@[c])@ == p[i
                    + 1]);
        assert(views_of(ts)[w].name == p[i]);
        if ts[w].fk_targets().contains(p[i + 1]) {
            let k = choose|k: int|
                0 <= k < ts[w].foreign_keys@.len() && (
                #[trigger] ts[w].foreign_keys@[k]).references_table@ == p[i + 1];
            assert(views_of(ts)[w].foreign_keys[k] == fk_view(ts[w].foreign_keys@[k]));
            assert(views_of(ts)[w].foreign_keys[k].references_table == p[i + 1]);
        } else {
            let c = choose|c: int|
                0 <= c < ts[w].child_tables@.len() && (#[trigger] ts[w].child_tables@[c])@ == p[i
                    + 1];
            assert(views_of(ts)[w].child_tables[c] == p[i + 1]);
        }
    }
    assert(p.len() >= 1 && seq_has_name(roots, p[0]) && p.last() == n && is_path_v(
        views_of(ts),
        p,
    ));
}

/// Whether the registry construction admits the table shape `t` after the
/// shapes in `acc`: its name is fresh, every foreign-key target other than
/// itself is already present, and no earlier table references its name.
pub open spec fn spec_admit(acc: Seq<TableSchemaV>, t: TableSchemaV) -> bool {
    &&& !views_have_name(acc, t.name)
    &&& forall|k: int| 0 <= k < t.foreign_keys.len() ==> ((
    #[trigger] t.foreign_keys[k]).references_table == t.name || views_have_name(
        acc,
        t.foreign_keys[k].references_table,
    ))
    &&& forall|i: int, k: int|
        #![auto]
        0 <= i < acc.len() && 0 <= k < acc[i].foreign_keys.len()
            ==> acc[i].foreign_keys[k].references_table != t.name
}

/// The registry tables the resolver keeps, scanned in order: each table is
/// admitted exactly when [`spec_admit`] allows it after the tables already
/// kept.
pub open spec fn spec_registry_kept(s: Seq<TableSchemaV>) -> Seq<TableSchemaV>
    decreases s.len(),
{
    if s.len() == 0 {
        Seq::empty()
    } else {
        let acc = spec_registry_kept(s.drop_last());
        acc + if spec_admit(acc, s.last()) {
            seq![s.last()]
        } else {
            Seq::<TableSchemaV>::empty()
        }
    }
}

/// Whether some table with index below `bound`, other than `j`, is named
/// `nm` and lists table `j`'s name among its dependencies.
pub open spec fn rev_name_ok(
    ts: Seq<TableSchema>,
    ds: Seq<Vec<String>>,
    j: int,
    nm: Seq<char>,
    bound: int,
) -> bool {
    exists|m: int|
        #![auto]
        0 <= m < bound && m != j && ts[m].name@ == nm && seq_has_name(ds[m]@, ts[j].name@)
}

proof fn lemma_rev_name_mono(
    ts: Seq<TableSchema>,
    ds: Seq<Vec<String>>,
    j: int,
    nm: Seq<char>,
    b1: int,
    b2: int,
)
    requires
        rev_name_ok(ts, ds, j, nm, b1),
        b1 <= b2,
    ensures
        rev_name_ok(ts, ds, j, nm, b2),
{
    let m = choose|m: int|
        #![auto]
        0 <= m < b1 && m != j && ts[m].name@ == nm && seq_has_name(ds[m]@, ts[j].name@);
    assert(0 <= m < b2 && m != j && ts[m].name@ == nm && seq_has_name(ds[m]@, ts[j].name@));
}

/// Whether `rv` lists exactly the names of the tables (other than `j`)
/// whose dependency lists name table `j`, each once.
pub open spec fn rev_ok(ts: Seq<TableSchema>, ds: Seq<Vec<String>>, j: int, rv: Seq<String>) -> bool {
    &&& forall|x: int| 0 <= x < rv.len() ==> rev_name_ok(ts, ds, j, (#[trigger] rv[x])@, ts.len() as int)
    &&& forall|m: int| 0 <= m < ts.len() && m != j && seq_has_name(
        (#[trigger] ds[m])@,
        ts[j].name@,
    ) ==> seq_has_name(rv, ts[m].name@)
    &&& forall|x: int, y: int| 0 <= x < y < rv.len() ==> rv[x]@ != rv[y]@
}

/// Whether every foreign-key target of `t` is either `t`'s own name or the
/// name of some table in `tables`.
fn targets_resolve(tables: &Vec<TableSchema>, t: &TableSchema) -> (r: bool)
    ensures
        r == (forall|k: int| 0 <= k < t.foreign_keys@.len() ==> ((
        #[trigger] t.foreign_keys@[k]).references_table@ == t.name@ || tables_have_name(
            tables@,
            t.foreign_keys@[k].references_table@,
        ))),
{
    let mut k: usize = 0;
    while k < t.foreign_keys.len()
        invariant
            k <= t.foreign_keys@.len(),
            forall|x: int| 0 <= x < k ==> ((#[trigger] t.foreign_keys@[x]).references_table@
                == t.name@ || tables_have_name(tables@, t.foreign_keys@[x].references_table@)),
        decreases t.foreign_keys@.len() - k,
    {
        let target = &t.foreign_keys[k].references_table;
        if !target.eq(&t.name) {
            match find_table(tables, target.as_str()) {
                Some(_) => {},
                None => {
                    proof {
                        assert(!tables_have_name(
                            tables@,
                            t.foreign_keys@[k as int].references_table@,
                        ));
                    }
                    return false;
                },
            }
        }
        k += 1;
    }
    true
}

/// Whether any foreign key of any table in `tables` references `name`.
fn references_name(tables: &Vec<TableSchema>, name: &String) -> (r: bool)
    ensures
        r == (exists|i: int, k: int|
            #![auto]
            0 <= i < tables@.len() && 0 <= k < tables@[i].foreign_keys@.len()
                && tables@[i].foreign_keys@[k].references_table@ == name@),
{
    let mut i: usize = 0;
    while i < tables.len()
        invariant
            i <= tables@.len(),
            forall|x: int, k: int|
                #![auto]
                0 <= x < i && 0 <= k < tables@[x].foreign_keys@.len()
                    ==> tables@[x].foreign_keys@[k].references_table@ != name@,
        decreases tables@.len() - i,
    {
        let mut k: usize = 0;
        while k < tables[i].foreign_keys.len()
            invariant
                i < tables@.len(),
                k <= tables@[i as int].foreign_keys@.len(),
                forall|x: int| 0 <= x < k ==> (
                #[trigger] tables@[i as int].foreign_keys@[x]).references_table@ != name@,
            decreases tables@[i as int].foreign_keys@.len() - k,
        {
            if tables[i].foreign_keys[k].references_table.eq(name) {
                return true;
            }
            k += 1;
        }
        i += 1;
    }
    false
}

/// Resolves table filters against the registry.
pub struct DependencyResolver {
    /// The registry tables, in their declared order; names are distinct.
    pub tables: Vec<TableSchema>,
    /// `deps[i]`: the distinct foreign-key target names of `tables[i]`.
    pub deps: Vec<Vec<String>>,
    /// `reverse_deps[i]`: the names of the tables whose dependency lists
    /// name `tables[i]`, each once; kept for diagnostics.
    pub reverse_deps: Vec<Vec<String>>,
}

impl DependencyResolver {
    /// The registry as this resolver sees it.
    pub open spec fn tables_seq(&self) -> Seq<TableSchema> {
        self.tables@
    }

    /// The resolver's internal consistency: the dependency cache is parallel
    /// to the registry and lists exactly each table's foreign-key targets,
    /// and table names are distinct.
    pub open spec fn wf(&self) -> bool {
        &&& self.deps@.len() == self.tables@.len()
        &&& forall|i: int, j: int| 0 <= i < j < self.tables@.len() ==> (#[trigger] self.tables@[i]).name@
            != (#[trigger] self.tables@[j]).name@
        &&& forall|i: int| 0 <= i < self.tables@.len() ==> deps_ok(
            self.tables@[i],
            (#[trigger] self.deps@[i])@,
        )
        &&& forall|i: int, j: int|
            0 <= i < self.tables@.len() && 0 <= j < self.tables@.len() && i != j && (
            #[trigger] self.tables@[i]).fk_targets().contains((#[trigger] self.tables@[j]).name@)
                ==> j < i
    }

    /// The reverse dependency map is exact: entry `j` names exactly the
    /// tables that depend on table `j`.
    pub open spec fn rev_wf(&self) -> bool {
        &&& self.reverse_deps@.len() == self.tables@.len()
        &&& forall|j: int| 0 <= j < self.tables@.len() ==> rev_ok(
            self.tables@,
            self.deps@,
            j,
            (#[trigger] self.reverse_deps@[j])@,
        )
    }

    /// Builds the resolver over the whole registry, admitting each table in
    /// declared order exactly when its name is fresh, its foreign-key
    /// targets other than itself are already admitted, and no admitted
    /// table references its name; so names are distinct and every non-self
    /// foreign-key target stands at a strictly earlier position.
    pub fn new() -> (r: DependencyResolver)
        ensures
            r.wf(),
            r.rev_wf(),
            views_of(r.tables@) == spec_registry_kept(spec_registry()),
    {
        let raw = all_tables();
        let mut tables: Vec<TableSchema> = Vec::new();
        let mut k: usize = 0;
        proof {
            assert(spec_registry().take(0) =~= Seq::<TableSchemaV>::empty());
            assert(views_of(tables@) =~= spec_registry_kept(spec_registry().take(0)));
        }
        while k < raw.len()
            invariant
                k <= raw@.len(),
                raw@.len() == spec_registry().len(),
                forall|i: int| 0 <= i < raw@.len() ==> schema_view(#[trigger] raw@[i])
                    == spec_registry()[i],
                views_of(tables@) == spec_registry_kept(spec_registry().take(k as int)),
                forall|i: int, j: int| 0 <= i < j < tables@.len() ==> (#[trigger] tables@[i]).name@
                    != (#[trigger] tables@[j]).name@,
                forall|i: int, j: int|
                    0 <= i < tables@.len() && 0 <= j < tables@.len() && i != j && (
                    #[trigger] tables@[i]).fk_targets().contains((#[trigger] tables@[j]).name@)
                        ==> j < i,
            decreases raw@.len() - k,
        {
            let t = &raw[k];
            let ghost av = views_of(tables@);
            let ghost tv = spec_registry()[k as int];
            proof {
                assert(schema_view(raw@[k as int]) == tv);
                assert(spec_registry().take(k as int + 1).drop_last() =~= spec_registry().take(
                    k as int,
                ));
                assert(spec_registry().take(k as int + 1).last() == tv);
            }
            let fresh = find_table(&tables, t.name.as_str()).is_none();
            let resolved = targets_resolve(&tables, t);
            let referenced = references_name(&tables, &t.name);
            proof {
                lemma_have_name_bridge(tables@, t.name@);
                assert(tv.name == t.name@);
                assert(fresh <==> !views_have_name(av, tv.name));
                assert(schema_view(raw@[k as int]).foreign_keys.len()
                    == raw@[k as int].foreign_keys@.len());
                assert forall|x: int| 0 <= x < tv.foreign_keys.len() implies (
                #[trigger] tv.foreign_keys[x]).references_table
                    == raw@[k as int].foreign_keys@[x].references_table@ by {
                    assert(tv.foreign_keys[x] == fk_view(raw@[k as int].foreign_keys@[x]));
                }
                assert forall|x: int|
                    0 <= x < raw@[k as int].foreign_keys@.len() implies (tables_have_name(
                    tables@,
                    (#[trigger] raw@[k as int].foreign_keys@[x]).references_table@,
                ) <==> views_have_name(av, raw@[k as int].foreign_keys@[x].references_table@)) by {
                    lemma_have_name_bridge(
                        tables@,
                        raw@[k as int].foreign_keys@[x].references_table@,
                    );
                }
                assert forall|i: int, x: int|
                    #![auto]
                    0 <= i < av.len() && 0 <= x < av[i].foreign_keys.len() implies
                    av[i].foreign_keys[x].references_table
                        == tables@[i].foreign_keys@[x].references_table@ by {
                    assert(av[i] == schema_view(tables@[i]));
                    assert(av[i].foreign_keys[x] == fk_view(tables@[i].foreign_keys@[x]));
                }
                if fresh && resolved && !referenced {
                    assert forall|x: int| 0 <= x < tv.foreign_keys.len() implies ((
                    #[trigger] tv.foreign_keys[x]).references_table == tv.name || views_have_name(
                        av,
                        tv.foreign_keys[x].references_table,
                    )) by {
                        assert(raw@[k as int].foreign_keys@[x].references_table@ == t.name@
                            || tables_have_name(
                            tables@,
                            raw@[k as int].foreign_keys@[x].references_table@,
                        ));
                    }
                    assert forall|i: int, x: int|
                        #![auto]
                        0 <= i < av.len() && 0 <= x < av[i].foreign_keys.len() implies
                        av[i].foreign_keys[x].references_table != tv.name by {
                        assert(tables@[i].foreign_keys@[x].references_table@ != t.name@);
                    }
                    assert(spec_admit(av, tv));
                } else {
                    if !fresh {
                        assert(!spec_admit(av, tv));
                    } else if !resolved {
                        let x = choose|x: int|
                            0 <= x < t.foreign_keys@.len() && !((
                            #[trigger] t.foreign_keys@[x]).references_table@ == t.name@
                                || tables_have_name(
                                tables@,
                                t.foreign_keys@[x].references_table@,
                            ));
                        assert(!(tv.foreign_keys[x].references_table == tv.name
                            || views_have_name(av, tv.foreign_keys[x].references_table)));
                        assert(!spec_admit(av, tv));
                    } else {
                        let (i, x) = choose|i: int, x: int|
                            #![auto]
                            0 <= i < tables@.len() && 0 <= x < tables@[i].foreign_keys@.len()
                                && tables@[i].foreign_keys@[x].references_table@ == t.name@;
                        assert(av[i].foreign_keys.len() == tables@[i].foreign_keys@.len());
                        assert(av[i].foreign_keys[x].references_table == tv.name);
                        assert(!spec_admit(av, tv));
                    }
                }
            }
            if fresh && resolved && !referenced {
                let ghost pre = tables@;
                tables.push(clone_schema(t));
                proof {
                    assert(schema_view(tables@[tables@.len() - 1]) == tv);
                    assert(views_of(tables@) =~= av + seq![tv]);
                    assert(views_of(tables@) == spec_registry_kept(
                        spec_registry().take(k as int + 1),
                    ));
                    let newi = tables@.len() - 1;
                    assert(tables@[newi].name@ == tv.name);
                    // the fresh name keeps names distinct
                    assert forall|i: int| 0 <= i < newi implies (#[trigger] tables@[i]).name@
                        != tables@[newi].name@ by {
                        assert(views_of(pre)[i].name == tables@[i].name@);
                        assert(!views_have_name(av, tv.name));
                    }
                    // the admit checks keep the ordering property
                    assert forall|i: int, j: int|
                        0 <= i < tables@.len() && 0 <= j < tables@.len() && i != j && (
                        #[trigger] tables@[i]).fk_targets().contains((
                        #[trigger] tables@[j]).name@) implies j < i by {
                        if i == newi {
                            // the new table's targets are already present
                            let x = choose|x: int|
                                0 <= x < tables@[i].foreign_keys@.len() && (
                                #[trigger] tables@[i].foreign_keys@[x]).references_table@
                                    == tables@[j].name@;
                            assert(tv.foreign_keys[x].references_table == tables@[j].name@);
                            if tables@[j].name@ == tv.name {
                                assert(j == newi);
                            } else {
                                assert(views_have_name(av, tables@[j].name@));
                            }
                        } else if j == newi {
                            // no earlier table references the new name
                            let x = choose|x: int|
                                0 <= x < tables@[i].foreign_keys@.len() && (
                                #[trigger] tables@[i].foreign_keys@[x]).references_table@
                                    == tables@[j].name@;
                            assert(av[i].foreign_keys[x].references_table == tv.name);
                            assert(false);
                        }
                    }
                }
            } else {
                proof {
                    assert(spec_registry_kept(spec_registry().take(k as int + 1)) =~= av);
                    assert(views_of(tables@) == spec_registry_kept(
                        spec_registry().take(k as int + 1),
                    ));
                }
            }
            k += 1;
        }
        proof {
            assert(spec_registry().take(spec_registry().len() as int) =~= spec_registry());
        }

        let mut deps: Vec<Vec<String>> = Vec::new();
        let mut reverse_deps: Vec<Vec<String>> = Vec::new();
        let mut i: usize = 0;
        while i < tables.len()
            invariant
                i <= tables@.len(),
                deps@.len() == i,
                forall|m: int| 0 <= m < i ==> deps_ok(tables@[m], (#[trigger] deps@[m])@),
            decreases tables@.len() - i,
        {
            deps.push(tables[i].dependencies());
            proof {
                let ds = deps@[i as int]@;
                assert forall|k: int| 0 <= k < ds.len() implies tables@[i as int].fk_targets()
                    .contains((#[trigger] ds[k])@) && ds[k]@ != tables@[i as int].name@ by {}
                assert forall|m: int|
                    0 <= m < tables@[i as int].foreign_keys@.len() && (
                    #[trigger] tables@[i as int].foreign_keys@[m]).references_table@
                        != tables@[i as int].name@ implies seq_has_name(
                    ds,
                    tables@[i as int].foreign_keys@[m].references_table@,
                ) by {}
                assert(deps_ok(tables@[i as int], ds));
            }
            i += 1;
        }
        let mut j: usize = 0;
        while j < tables.len()
            invariant
                j <= tables@.len(),
                deps@.len() == tables@.len(),
                reverse_deps@.len() == j,
                forall|i1: int, i2: int| 0 <= i1 < i2 < tables@.len() ==> (
                #[trigger] tables@[i1]).name@ != (#[trigger] tables@[i2]).name@,
                forall|jj: int| 0 <= jj < j ==> rev_ok(
                    tables@,
                    deps@,
                    jj,
                    (#[trigger] reverse_deps@[jj])@,
                ),
            decreases tables@.len() - j,
        {
            let mut rev: Vec<String> = Vec::new();
            let mut m: usize = 0;
            while m < tables.len()
                invariant
                    m <= tables@.len(),
                    j < tables@.len(),
                    deps@.len() == tables@.len(),
                    forall|i1: int, i2: int| 0 <= i1 < i2 < tables@.len() ==> (
                    #[trigger] tables@[i1]).name@ != (#[trigger] tables@[i2]).name@,
                    forall|x: int| 0 <= x < rev@.len() ==> rev_name_ok(
                        tables@,
                        deps@,
                        j as int,
                        (#[trigger] rev@[x])@,
                        m as int,
                    ),
                    forall|mm: int| 0 <= mm < m && mm != j && seq_has_name(
                        (#[trigger] deps@[mm])@,
                        tables@[j as int].name@,
                    ) ==> seq_has_name(rev@, tables@[mm].name@),
                    forall|x: int, y: int| 0 <= x < y < rev@.len() ==> rev@[x]@ != rev@[y]@,
                decreases tables@.len() - m,
            {
                let ghost pre = rev@;
                if m != j {
                    if crate::schema_types::contains_name(&deps[m], &tables[j].name) {
                        rev.push(tables[m].name.clone());
                        proof {
                            assert(rev@[rev@.len() - 1]@ == tables@[m as int].name@);
                            assert(seq_has_name(deps@[m as int]@, tables@[j as int].name@));
                            assert(rev_name_ok(
                                tables@,
                                deps@,
                                j as int,
                                tables@[m as int].name@,
                                m + 1,
                            )) by {
                                let mw = m as int;
                                assert(0 <= mw < m + 1 && mw != j && tables@[mw].name@
                                    == tables@[m as int].name@ && seq_has_name(
                                    deps@[mw]@,
                                    tables@[j as int].name@,
                                ));
                            }
                            assert forall|x: int| 0 <= x < pre.len() implies (
                            #[trigger] rev@[x])@ != tables@[m as int].name@ by {
                                assert(rev_name_ok(tables@, deps@, j as int, pre[x]@, m as int));
                                let m0 = choose|m0: int|
                                    #![auto]
                                    0 <= m0 < m && m0 != j && tables@[m0].name@ == pre[x]@
                                        && seq_has_name(deps@[m0]@, tables@[j as int].name@);
                                assert(tables@[m0].name@ != tables@[m as int].name@);
                            }
                            assert forall|mm: int| 0 <= mm < m + 1 && mm != j && seq_has_name(
                                (#[trigger] deps@[mm])@,
                                tables@[j as int].name@,
                            ) implies seq_has_name(rev@, tables@[mm].name@) by {
                                if mm < m {
                                    crate::schema_types::lemma_seq_has_name_push(
                                        pre,
                                        rev@[rev@.len() - 1],
                                        tables@[mm].name@,
                                    );
                                    assert(rev@ =~= pre.push(rev@[rev@.len() - 1]));
                                } else {
                                    assert(rev@[rev@.len() - 1]@ == tables@[mm].name@);
                                }
                            }
                        }
                    }
                }
                proof {
                    assert forall|x: int| 0 <= x < rev@.len() implies rev_name_ok(
                        tables@,
                        deps@,
                        j as int,
                        (#[trigger] rev@[x])@,
                        m + 1,
                    ) by {
                        if x < pre.len() {
                            assert(rev@[x] == pre[x]);
                            assert(rev_name_ok(tables@, deps@, j as int, pre[x]@, m as int));
                            lemma_rev_name_mono(
                                tables@,
                                deps@,
                                j as int,
                                pre[x]@,
                                m as int,
                                m + 1,
                            );
                        } else {
                            assert(rev@[x]@ == tables@[m as int].name@);
                        }
                    }
                }
                m += 1;
            }
            let ghost grev = rev@;
            reverse_deps.push(rev);
            proof {
                assert(reverse_deps@[j as int]@ == grev);
                assert forall|x: int| 0 <= x < grev.len() implies rev_name_ok(
                    tables@,
                    deps@,
                    j as int,
                    (#[trigger] grev[x])@,
                    tables@.len() as int,
                ) by {
                    assert(rev_name_ok(tables@, deps@, j as int, grev[x]@, m as int));
                }
                assert(rev_ok(tables@, deps@, j as int, reverse_deps@[j as int]@));
            }
            j += 1;
        }
        DependencyResolver { tables, deps, reverse_deps }
    }
}

/// The number of `true` entries in `s`.
pub open spec fn count_true(s: Seq<bool>) -> int
    decreases s.len(),
{
    if s.len() == 0 {
        0
    } else {
        (if s[0] {
            1int
        } else {
            0int
        }) + count_true(s.drop_first())
    }
}

proof fn lemma_count_true_bounds(s: Seq<bool>)
    ensures
        0 <= count_true(s) <= s.len(),
    decreases s.len(),
{
    if s.len() > 0 {
        lemma_count_true_bounds(s.drop_first());
    }
}

proof fn lemma_count_true_update(s: Seq<bool>, i: int, b: bool)
    requires
        0 <= i < s.len(),
    ensures
        count_true(s.update(i, b)) == count_true(s) + (if b {
            1int
        } else {
            0int
        }) - (if s[i] {
            1int
        } else {
            0int
        }),
    decreases s.len(),
{
    if i == 0 {
        assert(s.update(0, b)[0] == b);
        assert(s.update(0, b).drop_first() =~= s.drop_first());
    } else {
        assert(s.update(i, b)[0] == s[0]);
        assert(s.update(i, b).drop_first() =~= s.drop_first().update(i - 1, b));
        lemma_count_true_update(s.drop_first(), i - 1, b);
    }
}

impl DependencyResolver {
    /// The running state of a topological sort: every emitted table is a
    /// visited, included registry table; every visited table is emitted;
    /// emitted names are distinct; and each emitted table's included,
    /// non-self foreign-key targets were emitted earlier.
    /// Whether `result[p]` is a copy of some visited, included registry
    /// table.
    pub open spec fn emitted_from(
        &self,
        inc: Seq<bool>,
        vis: Seq<bool>,
        result: Seq<TableSchema>,
        p: int,
    ) -> bool {
        exists|m: int|
            #![auto]
            0 <= m < self.tables@.len() && vis[m] && inc[m] && schema_view(result[p])
                == schema_view(self.tables@[m])
    }

    /// Whether `out[p]` is a copy of some included registry table.
    pub open spec fn drawn_from(&self, inc: Seq<bool>, out: Seq<TableSchema>, p: int) -> bool {
        exists|m: int|
            #![auto]
            0 <= m < self.tables@.len() && inc[m] && schema_view(out[p]) == schema_view(
                self.tables@[m],
            )
    }

    pub open spec fn sort_state(&self, inc: Seq<bool>, vis: Seq<bool>, result: Seq<TableSchema>) -> bool {
        &&& forall|p: int| 0 <= p < result.len() ==> #[trigger] self.emitted_from(
            inc,
            vis,
            result,
            p,
        )
        &&& forall|m: int| 0 <= m < self.tables@.len() && #[trigger] vis[m] ==> inc[m]
        &&& forall|m: int| 0 <= m < self.tables@.len() && #[trigger] vis[m] ==> exists|p: int|
            #![auto]
            0 <= p < result.len() && result[p].name@ == self.tables@[m].name@
        &&& forall|p: int, q: int| 0 <= p < q < result.len() ==> (#[trigger] result[p]).name@
            != (#[trigger] result[q]).name@
        &&& forall|p: int, k: int|
            #![auto]
            0 <= p < result.len() && 0 <= k < result[p].foreign_keys@.len()
                && result[p].foreign_keys@[k].references_table@ != result[p].name@ && included_name(
                self.tables@,
                inc,
                result[p].foreign_keys@[k].references_table@,
            ) ==> exists|q: int|
                0 <= q < p && result[q].name@ == result[p].foreign_keys@[k].references_table@
    }

    /// A depth-first post-order visit of table `i` and its included
    /// foreign-key parents. On success the marker set is restored, `i` is
    /// visited, and the sort state is maintained.
    fn visit(
        &self,
        i: usize,
        included: &Vec<bool>,
        visited: &mut Vec<bool>,
        temp: &mut Vec<bool>,
        result: &mut Vec<TableSchema>,
    ) -> (r: Result<(), String>)
        requires
            self.wf(),
            included@.len() == self.tables@.len(),
            old(visited)@.len() == self.tables@.len(),
            old(temp)@.len() == self.tables@.len(),
            i < self.tables@.len(),
            included@[i as int],
            forall|m: int| 0 <= m < self.tables@.len() && old(temp)@[m] ==> m > i,
            self.sort_state(included@, old(visited)@, old(result)@),
        ensures
            r is Ok,
            match r {
                Ok(_) => {
                    &&& final(visited)@.len() == self.tables@.len()
                    &&& final(temp)@ == old(temp)@
                    &&& forall|m: int| 0 <= m < self.tables@.len() && old(visited)@[m]
                        ==> final(visited)@[m]
                    &&& forall|m: int| 0 <= m < self.tables@.len() && old(temp)@[m]
                        ==> final(visited)@[m] == old(visited)@[m]
                    &&& final(visited)@[i as int]
                    &&& self.sort_state(included@, final(visited)@, final(result)@)
                },
                Err(_) => true,
            },
        decreases self.tables@.len() - count_true(old(temp)@),
{
        let n = self.tables.len();
        if temp[i] {
            proof {
                // the marker set holds only larger indices, never `i` itself
                assert(false);
            }
            let mut msg = "Circular dependency detected at: ".to_owned();
            msg.append(self.tables[i].name.as_str());
            return Err(msg);
        }
        if visited[i] {
            return Ok(());
        }
        let ghost temp0 = temp@;
        temp.set(i, true);
        proof {
            lemma_count_true_update(temp0, i as int, true);
            lemma_count_true_bounds(temp@);
        }

        let deps = &self.deps[i];
        let mut d: usize = 0;
        while d < deps.len()
            invariant
                self.wf(),
                included@.len() == self.tables@.len(),
                visited@.len() == self.tables@.len(),
                temp@.len() == self.tables@.len(),
                i < self.tables@.len(),
                included@[i as int],
                deps == self.deps@[i as int],
                d <= deps@.len(),
                temp0 == old(temp)@,
                temp0.len() == self.tables@.len(),
                forall|m: int| 0 <= m < self.tables@.len() && temp0[m] ==> m > i,
                temp@ == temp0.update(i as int, true),
                count_true(temp@) == count_true(temp0) + 1,
                !old(visited)@[i as int],
                forall|m: int| 0 <= m < self.tables@.len() && old(visited)@[m] ==> visited@[m],
                forall|m: int| 0 <= m < self.tables@.len() && temp@[m] ==> visited@[m]
                    == old(visited)@[m],
                self.sort_state(included@, visited@, result@),
                forall|dd: int, j: int|
                    #![auto]
                    0 <= dd < d && 0 <= j < self.tables@.len() && self.tables@[j].name@
                        == deps@[dd]@ && included@[j] && j != i ==> visited@[j],
            decreases deps@.len() - d,
        {
            let dep = &deps[d];
            match crate::tables::find_table(&self.tables, dep.as_str()) {
                Some(j) => {
                    if j != i && included[j] {
                        proof {
                            // the target stands strictly earlier in the registry
                            assert(self.tables@[i as int].fk_targets().contains(
                                self.tables@[j as int].name@,
                            ));
                            assert(j < i);
                        }
                        if temp[j] {
                            proof {
                                // the marker set holds `i` and larger indices
                                // only, yet the target sits strictly below `i`
                                assert(temp0[j as int]);
                                assert(false);
                            }
                            let mut msg = "Circular dependency detected at: ".to_owned();
                            msg.append(self.tables[j].name.as_str());
                            return Err(msg);
                        }
                        if !visited[j] {
                            proof {
                                lemma_count_true_bounds(temp@);
                            }
                            let res = self.visit(j, included, visited, temp, result);
                            if let Err(e) = res {
                                proof {
                                    assert(false);
                                }
                                return Err(e);
                            }
                        }
                    }
                },
                None => {},
            }
            proof {
                assert forall|dd: int, j: int|
                    #![auto]
                    0 <= dd < d + 1 && 0 <= j < self.tables@.len() && self.tables@[j].name@
                        == deps@[dd]@ && included@[j] && j != i implies visited@[j] by {
                    if dd == d {
                        assert(self.tables@[j].name@ == deps@[d as int]@);
                    }
                }
            }
            d += 1;
        }

        let ghost vis_after = visited@;
        temp.set(i, false);
        proof {
            assert(temp@ =~= temp0);
            assert(vis_after[i as int] == old(visited)@[i as int]);
        }
        visited.set(i, true);
        let ghost res0 = result@;
        let entry = clone_schema(&self.tables[i]);
        result.push(entry);
        proof {
            let n = self.tables@.len() as int;
            let tv = schema_view(self.tables@[i as int]);
            let p_new = res0.len() as int;
            assert(result@[p_new] == entry);
            assert(schema_view(entry) == tv);
            assert(forall|p: int| 0 <= p < p_new ==> result@[p] == res0[p]);
            assert(entry.name@ == schema_view(entry).name);
            assert(entry.name@ == self.tables@[i as int].name@);
            // the new entry's name is fresh: `i` was unvisited until now, and
            // every earlier emitted name is the name of a visited table
            assert forall|p: int| 0 <= p < p_new implies (#[trigger] result@[p]).name@
                != result@[p_new].name@ by {
                assert(self.emitted_from(included@, vis_after, res0, p));
                let m = choose|m: int|
                    #![auto]
                    0 <= m < n && vis_after[m] && included@[m] && schema_view(res0[p])
                        == schema_view(self.tables@[m]);
                assert(res0[p].name@ == self.tables@[m].name@);
                if m == i {
                    assert(false);
                }
            }
            // each included non-self target of the new entry was visited, so
            // it stands somewhere among the earlier entries
            assert forall|k: int|
                #![auto]
                0 <= k < result@[p_new].foreign_keys@.len()
                    && result@[p_new].foreign_keys@[k].references_table@ != result@[p_new].name@
                    && included_name(
                    self.tables@,
                    included@,
                    result@[p_new].foreign_keys@[k].references_table@,
                ) implies exists|q: int|
                0 <= q < p_new && result@[q].name@
                    == result@[p_new].foreign_keys@[k].references_table@ by {
                let target = result@[p_new].foreign_keys@[k].references_table@;
                assert(schema_view(entry).foreign_keys == tv.foreign_keys);
                assert(schema_view(entry).foreign_keys.len() == entry.foreign_keys@.len());
                assert(schema_view(entry).foreign_keys[k] == fk_view(entry.foreign_keys@[k]));
                assert(tv.foreign_keys[k] == fk_view(self.tables@[i as int].foreign_keys@[k]));
                assert(self.tables@[i as int].foreign_keys@[k].references_table@ == target);
                assert(result@[p_new].name@ == self.tables@[i as int].name@);
                // the target is not a self-reference, so the dependency
                // cache of `i` lists it
                assert(self.tables@[i as int].foreign_keys@[k].references_table@
                    != self.tables@[i as int].name@);
                assert(seq_has_name(self.deps@[i as int]@, target));
                let dd = choose|dd: int|
                    0 <= dd < self.deps@[i as int]@.len() && (#[trigger] self.deps@[i as int]@[dd]@)
                        == target;
                // the included table of that name was visited by the loop
                let j = choose|j: int|
                    0 <= j < n && (#[trigger] self.tables@[j]).name@ == target && included@[j];
                assert(j != i);
                assert(vis_after[j]);
                let q = choose|q: int|
                    #![auto]
                    0 <= q < res0.len() && res0[q].name@ == self.tables@[j].name@;
                assert(result@[q].name@ == target);
            }
            // re-establish the sort state over the extended result
            assert forall|p: int| 0 <= p < result@.len() implies #[trigger] self.emitted_from(
                included@,
                visited@,
                result@,
                p,
            ) by {
                if p < p_new {
                    assert(self.emitted_from(included@, vis_after, res0, p));
                    let m = choose|m: int|
                        #![auto]
                        0 <= m < n && vis_after[m] && included@[m] && schema_view(res0[p])
                            == schema_view(self.tables@[m]);
                    assert(visited@[m] && schema_view(result@[p]) == schema_view(self.tables@[m]));
                } else {
                    assert(visited@[i as int] && schema_view(result@[p]) == schema_view(
                        self.tables@[i as int],
                    ));
                }
            }
            assert forall|m: int| 0 <= m < n && #[trigger] visited@[m] implies exists|p: int|
                #![auto]
                0 <= p < result@.len() && result@[p].name@ == self.tables@[m].name@ by {
                if m == i {
                    assert(result@[p_new].name@ == self.tables@[i as int].name@);
                } else {
                    assert(vis_after[m]);
                    let p = choose|p: int|
                        #![auto]
                        0 <= p < res0.len() && res0[p].name@ == self.tables@[m].name@;
                    assert(result@[p].name@ == self.tables@[m].name@);
                }
            }
            assert forall|p: int, q: int| 0 <= p < q < result@.len() implies (
            #[trigger] result@[p]).name@ != (#[trigger] result@[q]).name@ by {
                if q < p_new {
                    assert(res0[p].name@ != res0[q].name@);
                }
            }
            assert forall|p: int, k: int|
                #![auto]
                0 <= p < result@.len() && 0 <= k < result@[p].foreign_keys@.len()
                    && result@[p].foreign_keys@[k].references_table@ != result@[p].name@
                    && included_name(
                    self.tables@,
                    included@,
                    result@[p].foreign_keys@[k].references_table@,
                ) implies exists|q: int|
                0 <= q < p && result@[q].name@ == result@[p].foreign_keys@[k].references_table@ by {
                if p < p_new {
                    assert(result@[p] == res0[p]);
                    let q = choose|q: int|
                        0 <= q < p && (#[trigger] res0[q].name@) == res0[p].foreign_keys@[k].references_table@;
                    assert(result@[q].name@ == result@[p].foreign_keys@[k].references_table@);
                }
            }
            assert(self.sort_state(included@, visited@, result@));
        }
        Ok(())
    }

    /// Orders the included subset of the registry so that every table
    /// follows its included foreign-key parents; fails on a circular
    /// dependency.
    fn topological_sort(&self, included: &Vec<bool>) -> (r: Result<Vec<TableSchema>, String>)
        requires
            self.wf(),
            included@.len() == self.tables@.len(),
        ensures
            r is Ok,
            match r {
                Ok(out) => {
                    &&& forall|p: int| 0 <= p < out@.len() ==> #[trigger] self.drawn_from(
                        included@,
                        out@,
                        p,
                    )
                    &&& forall|m: int| 0 <= m < self.tables@.len() && #[trigger] included@[m]
                        ==> exists|p: int|
                        #![auto]
                        0 <= p < out@.len() && out@[p].name@ == self.tables@[m].name@
                    &&& forall|p: int, q: int| 0 <= p < q < out@.len() ==> (
                    #[trigger] out@[p]).name@ != (#[trigger] out@[q]).name@
                    &&& forall|p: int, k: int|
                        #![auto]
                        0 <= p < out@.len() && 0 <= k < out@[p].foreign_keys@.len()
                            && out@[p].foreign_keys@[k].references_table@ != out@[p].name@
                            && included_name(
                            self.tables@,
                            included@,
                            out@[p].foreign_keys@[k].references_table@,
                        ) ==> exists|q: int|
                            0 <= q < p && out@[q].name@
                                == out@[p].foreign_keys@[k].references_table@
                },
                Err(_) => true,
            },
    {
        let n = self.tables.len();
        let mut visited: Vec<bool> = Vec::new();
        let mut temp: Vec<bool> = Vec::new();
        let mut k: usize = 0;
        while k < n
            invariant
                n == self.tables@.len(),
                visited@.len() == k,
                temp@.len() == k,
                k <= self.tables@.len(),
                forall|m: int| 0 <= m < k ==> !visited@[m] && !temp@[m],
            decreases self.tables@.len() - k,
        {
            visited.push(false);
            temp.push(false);
            k += 1;
        }
        let mut result: Vec<TableSchema> = Vec::new();
        let mut i: usize = 0;
        while i < n
            invariant
                self.wf(),
                included@.len() == self.tables@.len(),
                visited@.len() == self.tables@.len(),
                temp@.len() == self.tables@.len(),
                i <= self.tables@.len(),
                n == self.tables@.len(),
                forall|m: int| 0 <= m < self.tables@.len() ==> !temp@[m],
                self.sort_state(included@, visited@, result@),
                forall|m: int| 0 <= m < i && #[trigger] included@[m] ==> visited@[m],
            decreases self.tables@.len() - i,
        {
            if included[i] && !visited[i] {
                let res = self.visit(i, included, &mut visited, &mut temp, &mut result);
                if let Err(e) = res {
                    proof {
                        assert(false);
                    }
                    return Err(e);
                }
            }
            i += 1;
        }
        proof {
            assert forall|m: int| 0 <= m < self.tables@.len() && #[trigger] included@[m] implies
                exists|p: int|
                #![auto]
                0 <= p < result@.len() && result@[p].name@ == self.tables@[m].name@ by {
                assert(visited@[m]);
            }
            assert forall|p: int| 0 <= p < result@.len() implies #[trigger] self.drawn_from(
                included@,
                result@,
                p,
            ) by {
                assert(self.emitted_from(included@, visited@, result@, p));
            }
        }
        Ok(result)
    }
}

/// Whether the index `m` is an element of `q`.
pub open spec fn in_q(q: Seq<usize>, m: int) -> bool {
    exists|t: int| 0 <= t < q.len() && (#[trigger] q[t]) as int == m
}

proof fn lemma_count_all_false(s: Seq<bool>)
    requires
        forall|m: int| 0 <= m < s.len() ==> !s[m],
    ensures
        count_true(s) == 0,
    decreases s.len(),
{
    if s.len() > 0 {
        lemma_count_all_false(s.drop_first());
    }
}

proof fn lemma_included_name_monotone(
    ts: Seq<TableSchema>,
    inc0: Seq<bool>,
    inc1: Seq<bool>,
    nm: Seq<char>,
)
    requires
        included_name(ts, inc0, nm),
        forall|m: int| 0 <= m < ts.len() && inc0[m] ==> inc1[m],
    ensures
        included_name(ts, inc1, nm),
{
    let i = choose|i: int| 0 <= i < ts.len() && (#[trigger] ts[i]).name@ == nm && inc0[i];
    assert(ts[i].name@ == nm && inc1[i]);
}

/// Whether any foreign key of `t` references a name in `exc`.
pub open spec fn fk_excluded(t: TableSchema, exc: Seq<String>) -> bool {
    exists|k: int| 0 <= k < t.foreign_keys@.len() && seq_has_name(
        exc,
        (#[trigger] t.foreign_keys@[k]).references_table@,
    )
}

/// Whether the table named `a` lists `b` as a foreign-key target or a child
/// table.
pub open spec fn edge(ts: Seq<TableSchema>, a: Seq<char>, b: Seq<char>) -> bool {
    exists|i: int|
        0 <= i < ts.len() && (#[trigger] ts[i]).name@ == a && (ts[i].fk_targets().contains(b)
            || exists|c: int| 0 <= c < ts[i].child_tables@.len() && (
            #[trigger] ts[i].child_tables@[c])@ == b)
}

/// Whether consecutive names of `p` are joined by edges.
pub open spec fn is_path(ts: Seq<TableSchema>, p: Seq<Seq<char>>) -> bool {
    forall|i: int| 0 <= i < p.len() - 1 ==> edge(ts, #[trigger] p[i], p[i + 1])
}

/// Whether `n` is reachable from some root name along foreign-key-target
/// and child-table edges.
pub open spec fn reachable(ts: Seq<TableSchema>, roots: Seq<String>, n: Seq<char>) -> bool {
    exists|p: Seq<Seq<char>>|
        #![auto]
        p.len() >= 1 && seq_has_name(roots, p[0]) && p.last() == n && is_path(ts, p)
}

proof fn lemma_reachable_root(ts: Seq<TableSchema>, roots: Seq<String>, x: int)
    requires
        0 <= x < roots.len(),
    ensures
        reachable(ts, roots, roots[x]@),
{
    let p = seq![roots[x]@];
    assert(seq_has_name(roots, p[0]));
    assert(is_path(ts, p));
    assert(p.len() >= 1 && seq_has_name(roots, p[0]) && p.last() == roots[x]@ && is_path(ts, p));
}

proof fn lemma_reachable_step(
    ts: Seq<TableSchema>,
    roots: Seq<String>,
    a: Seq<char>,
    b: Seq<char>,
)
    requires
        reachable(ts, roots, a),
        edge(ts, a, b),
    ensures
        reachable(ts, roots, b),
{
    let p = choose|p: Seq<Seq<char>>|
        #![auto]
        p.len() >= 1 && seq_has_name(roots, p[0]) && p.last() == a && is_path(ts, p);
    let q = p.push(b);
    assert(q[0] == p[0]);
    assert(q.last() == b);
    assert forall|i: int| 0 <= i < q.len() - 1 implies edge(ts, #[trigger] q[i], q[i + 1]) by {
        if i < p.len() - 1 {
            assert(q[i] == p[i] && q[i + 1] == p[i + 1]);
            assert(edge(ts, p[i], p[i + 1]));
        } else {
            assert(q[i] == p.last() && q[i + 1] == b);
        }
    }
    assert(q.len() >= 1 && seq_has_name(roots, q[0]) && q.last() == b && is_path(ts, q));
}

impl DependencyResolver {
    /// The foreign-key target set of table `m`.
    pub open spec fn fk_targets_of(&self, m: int) -> Set<Seq<char>> {
        self.tables@[m].fk_targets()
    }

    /// Whether table `m`'s foreign-key targets and child tables are all
    /// marked in `inc`.
    pub open spec fn closed_in(&self, inc: Seq<bool>, m: int) -> bool {
        &&& forall|k: int| 0 <= k < self.tables@[m].foreign_keys@.len() ==> included_name(
            self.tables@,
            inc,
            (#[trigger] self.tables@[m].foreign_keys@[k]).references_table@,
        )
        &&& forall|c: int| 0 <= c < self.tables@[m].child_tables@.len() ==> included_name(
            self.tables@,
            inc,
            (#[trigger] self.tables@[m].child_tables@[c])@,
        )
    }

    proof fn lemma_closed_monotone(&self, inc0: Seq<bool>, inc1: Seq<bool>, m: int)
        requires
            0 <= m < self.tables@.len(),
            self.closed_in(inc0, m),
            forall|x: int| 0 <= x < self.tables@.len() && inc0[x] ==> inc1[x],
        ensures
            self.closed_in(inc1, m),
    {
        assert forall|k: int| 0 <= k < self.tables@[m].foreign_keys@.len() implies included_name(
            self.tables@,
            inc1,
            (#[trigger] self.tables@[m].foreign_keys@[k]).references_table@,
        ) by {
            lemma_included_name_monotone(
                self.tables@,
                inc0,
                inc1,
                self.tables@[m].foreign_keys@[k].references_table@,
            );
        }
        assert forall|c: int| 0 <= c < self.tables@[m].child_tables@.len() implies included_name(
            self.tables@,
            inc1,
            (#[trigger] self.tables@[m].child_tables@[c])@,
        ) by {
            lemma_included_name_monotone(
                self.tables@,
                inc0,
                inc1,
                self.tables@[m].child_tables@[c]@,
            );
        }
    }

    /// Resolves an include list: the requested tables, their foreign-key
    /// parents and their child tables, transitively, in dependency order.
    /// Fails when a requested name, or a name reached through the closure,
    /// is not in the registry, or when a circular dependency is found.
    #[verifier::rlimit(60)]
    pub fn resolve_includes(&self, requested: &Vec<String>) -> (r: Result<Vec<TableSchema>, String>)
        requires
            self.wf(),
        ensures
            match r {
                Ok(out) => {
                    &&& forall|x: int| 0 <= x < requested@.len() ==> tables_have_name(
                        self.tables@,
                        (#[trigger] requested@[x])@,
                    )
                    &&& forall|x: int| 0 <= x < requested@.len() ==> tables_have_name(
                        out@,
                        (#[trigger] requested@[x])@,
                    )
                    &&& forall|p: int| 0 <= p < out@.len() ==> #[trigger] self.from_registry(
                        out@,
                        p,
                    )
                    &&& forall|p: int, q: int| 0 <= p < q < out@.len() ==> (
                    #[trigger] out@[p]).name@ != (#[trigger] out@[q]).name@
                    &&& forall|p: int, k: int|
                        #![auto]
                        0 <= p < out@.len() && 0 <= k < out@[p].foreign_keys@.len()
                            && out@[p].foreign_keys@[k].references_table@ != out@[p].name@
                            ==> exists|q: int|
                            0 <= q < p && out@[q].name@
                                == out@[p].foreign_keys@[k].references_table@
                    &&& forall|p: int, c: int|
                        #![auto]
                        0 <= p < out@.len() && 0 <= c < out@[p].child_tables@.len()
                            ==> tables_have_name(out@, out@[p].child_tables@[c]@)
                    &&& forall|p: int| 0 <= p < out@.len() ==> reachable(
                        self.tables@,
                        requested@,
                        (#[trigger] out@[p]).name@,
                    )
                },
                Err(msg) => exists|x: Seq<char>|
                    #![auto]
                    reachable(self.tables@, requested@, x) && !tables_have_name(self.tables@, x)
                        && msg@ == "Unknown table: "@ + x,
            },
    {
        let n = self.tables.len();
        let mut included: Vec<bool> = Vec::new();
        let mut z: usize = 0;
        while z < n
            invariant
                n == self.tables@.len(),
                included@.len() == z,
                z <= n,
                forall|m: int| 0 <= m < z ==> !included@[m],
            decreases n - z,
        {
            included.push(false);
            z += 1;
        }
        proof {
            lemma_count_all_false(included@);
        }
        let mut queue: Vec<usize> = Vec::new();

        let mut x: usize = 0;
        while x < requested.len()
            invariant
                self.wf(),
                n == self.tables@.len(),
                included@.len() == n,
                x <= requested@.len(),
                0 <= count_true(included@) <= n,
                forall|t: int| 0 <= t < queue@.len() ==> (#[trigger] queue@[t]) < n && included@[
                    queue@[t] as int
                ],
                forall|m: int| 0 <= m < n && #[trigger] included@[m] ==> in_q(queue@, m),
                forall|m: int| 0 <= m < n && #[trigger] included@[m] ==> reachable(
                    self.tables@,
                    requested@,
                    self.tables@[m].name@,
                ),
                forall|y: int| 0 <= y < x ==> tables_have_name(
                    self.tables@,
                    (#[trigger] requested@[y])@,
                ) && included_name(self.tables@, included@, requested@[y]@),
            decreases requested@.len() - x,
        {
            let name = &requested[x];
            match crate::tables::find_table(&self.tables, name.as_str()) {
                None => {
                    let mut msg = "Unknown table: ".to_owned();
                    msg.append(name.as_str());
                    proof {
                        lemma_reachable_root(self.tables@, requested@, x as int);
                        assert(!tables_have_name(self.tables@, name@));
                        assert(msg@ =~= "Unknown table: "@ + name@);
                    }
                    return Err(msg);
                },
                Some(i) => {
                    let ghost inc0 = included@;
                    let ghost q0 = queue@;
                    if !included[i] {
                        included.set(i, true);
                        queue.push(i);
                        proof {
                            lemma_count_true_update(inc0, i as int, true);
                            lemma_count_true_bounds(included@);
                            lemma_reachable_root(self.tables@, requested@, x as int);
                            assert(reachable(self.tables@, requested@, self.tables@[i as int].name@));
                            assert(queue@ =~= q0.push(i));
                            assert forall|t: int| 0 <= t < queue@.len() implies (
                            #[trigger] queue@[t]) < n && included@[queue@[t] as int] by {
                                if t < q0.len() {
                                    assert(q0[t] < n && inc0[q0[t] as int]);
                                }
                            }
                            assert forall|m: int| 0 <= m < n && #[trigger] included@[m] implies
                                in_q(queue@, m) by {
                                if m == i as int {
                                    assert(queue@[queue@.len() - 1] as int == m);
                                } else {
                                    assert(inc0[m]);
                                    let t = choose|t: int|
                                        0 <= t < q0.len() && (#[trigger] q0[t]) as int == m;
                                    assert(queue@[t] as int == m);
                                }
                            }
                            assert forall|y: int| 0 <= y < x + 1 implies tables_have_name(
                                self.tables@,
                                (#[trigger] requested@[y])@,
                            ) && included_name(self.tables@, included@, requested@[y]@) by {
                                if y < x {
                                    lemma_included_name_monotone(
                                        self.tables@,
                                        inc0,
                                        included@,
                                        requested@[y]@,
                                    );
                                } else {
                                    assert(self.tables@[i as int].name@ == name@ && included@[
                                        i as int
                                    ]);
                                }
                            }
                        }
                    } else {
                        proof {
                            assert(self.tables@[i as int].name@ == name@ && included@[i as int]);
                        }
                    }
                },
            }
            x += 1;
        }

        while queue.len() > 0
            invariant
                self.wf(),
                n == self.tables@.len(),
                included@.len() == n,
                0 <= count_true(included@) <= n,
                forall|t: int| 0 <= t < queue@.len() ==> (#[trigger] queue@[t]) < n && included@[
                    queue@[t] as int
                ],
                forall|m: int| 0 <= m < n && #[trigger] included@[m] ==> in_q(queue@, m)
                    || self.closed_in(included@, m),
                forall|m: int| 0 <= m < n && #[trigger] included@[m] ==> reachable(
                    self.tables@,
                    requested@,
                    self.tables@[m].name@,
                ),
                forall|y: int| 0 <= y < requested@.len() ==> tables_have_name(
                    self.tables@,
                    (#[trigger] requested@[y])@,
                ) && included_name(self.tables@, included@, requested@[y]@),
            decreases n - count_true(included@) + queue@.len(),
        {
            let ghost queue_head = queue@;
            let ghost inc_head = included@;
            let i: usize = match queue.pop() {
                Some(v) => v,
                None => {
                    proof {
                        assert(false);
                    }
                    return Err("".to_owned());
                },
            };
            proof {
                assert(queue@ =~= queue_head.take(queue_head.len() - 1));
                assert forall|m: int| 0 <= m < n && #[trigger] included@[m] implies in_q(queue@, m)
                    || self.closed_in(included@, m) || m == i as int by {
                    if in_q(queue_head, m) {
                        let t = choose|t: int|
                            0 <= t < queue_head.len() && (#[trigger] queue_head[t]) as int == m;
                        if t < queue_head.len() - 1 {
                            assert(queue@[t] as int == m);
                        } else {
                            assert(m == i as int);
                        }
                    }
                }
            }

            let deps = &self.deps[i];
            let mut d: usize = 0;
            while d < deps.len()
                invariant
                    self.wf(),
                    n == self.tables@.len(),
                    included@.len() == n,
                    i < n,
                    included@[i as int],
                    deps == self.deps@[i as int],
                    d <= deps@.len(),
                    0 <= count_true(included@) <= n,
                    queue@.len() - count_true(included@) == queue_head.len() - 1 - count_true(
                        inc_head,
                    ),
                    forall|t: int| 0 <= t < queue@.len() ==> (#[trigger] queue@[t]) < n
                        && included@[queue@[t] as int],
                    forall|m: int| 0 <= m < n && #[trigger] included@[m] ==> in_q(queue@, m)
                        || self.closed_in(included@, m) || m == i as int,
                    forall|m: int| 0 <= m < n && #[trigger] included@[m] ==> reachable(
                        self.tables@,
                        requested@,
                        self.tables@[m].name@,
                    ),
                    forall|y: int| 0 <= y < requested@.len() ==> tables_have_name(
                        self.tables@,
                        (#[trigger] requested@[y])@,
                    ) && included_name(self.tables@, included@, requested@[y]@),
                    forall|dd: int| 0 <= dd < d ==> included_name(
                        self.tables@,
                        included@,
                        (#[trigger] deps@[dd])@,
                    ),
                decreases deps@.len() - d,
            {
                let dep = &deps[d];
                let ghost inc0 = included@;
                let ghost q0 = queue@;
                match crate::tables::find_table(&self.tables, dep.as_str()) {
                    None => {
                        let mut msg = "Unknown table: ".to_owned();
                        msg.append(dep.as_str());
                        proof {
                            assert(self.tables@[i as int].fk_targets().contains(dep@));
                            assert(edge(self.tables@, self.tables@[i as int].name@, dep@));
                            assert(reachable(
                                self.tables@,
                                requested@,
                                self.tables@[i as int].name@,
                            ));
                            lemma_reachable_step(
                                self.tables@,
                                requested@,
                                self.tables@[i as int].name@,
                                dep@,
                            );
                            assert(!tables_have_name(self.tables@, dep@));
                            assert(msg@ =~= "Unknown table: "@ + dep@);
                        }
                        return Err(msg);
                    },
                    Some(j) => {
                        if !included[j] {
                            included.set(j, true);
                            queue.push(j);
                            proof {
                                lemma_count_true_update(inc0, j as int, true);
                                lemma_count_true_bounds(included@);
                                assert(self.fk_targets_of(i as int).contains(dep@)) by {
                                    assert(self.tables@[i as int].fk_targets().contains(
                                        self.deps@[i as int]@[d as int]@,
                                    ));
                                }
                                assert(self.tables@[j as int].name@ == dep@);
                                assert(self.tables@[i as int].fk_targets().contains(
                                    self.tables@[j as int].name@,
                                ));
                                assert(edge(
                                    self.tables@,
                                    self.tables@[i as int].name@,
                                    self.tables@[j as int].name@,
                                ));
                                assert(reachable(
                                    self.tables@,
                                    requested@,
                                    self.tables@[i as int].name@,
                                ));
                                lemma_reachable_step(
                                    self.tables@,
                                    requested@,
                                    self.tables@[i as int].name@,
                                    self.tables@[j as int].name@,
                                );
                                assert(queue@ =~= q0.push(j));
                                assert forall|t: int| 0 <= t < queue@.len() implies (
                                #[trigger] queue@[t]) < n && included@[queue@[t] as int] by {
                                    if t < q0.len() {
                                        assert(q0[t] < n && inc0[q0[t] as int]);
                                    }
                                }
                                assert forall|m: int| 0 <= m < n && #[trigger] included@[m] implies
                                    in_q(queue@, m) || self.closed_in(included@, m) || m
                                    == i as int by {
                                    if m == j as int {
                                        assert(queue@[queue@.len() - 1] as int == m);
                                    } else {
                                        assert(inc0[m]);
                                        if in_q(q0, m) {
                                            let t = choose|t: int|
                                                0 <= t < q0.len() && (#[trigger] q0[t]) as int
                                                    == m;
                                            assert(queue@[t] as int == m);
                                        } else if self.closed_in(inc0, m) {
                                            self.lemma_closed_monotone(inc0, included@, m);
                                        }
                                    }
                                }
                                assert forall|y: int| 0 <= y < requested@.len() implies
                                    tables_have_name(self.tables@, (#[trigger] requested@[y])@)
                                    && included_name(self.tables@, included@, requested@[y]@) by {
                                    lemma_included_name_monotone(
                                        self.tables@,
                                        inc0,
                                        included@,
                                        requested@[y]@,
                                    );
                                }
                                assert forall|dd: int| 0 <= dd < d + 1 implies included_name(
                                    self.tables@,
                                    included@,
                                    (#[trigger] deps@[dd])@,
                                ) by {
                                    if dd < d {
                                        lemma_included_name_monotone(
                                            self.tables@,
                                            inc0,
                                            included@,
                                            deps@[dd]@,
                                        );
                                    } else {
                                        assert(self.tables@[j as int].name@ == dep@ && included@[
                                            j as int
                                        ]);
                                    }
                                }
                            }
                        } else {
                            proof {
                                assert(self.tables@[j as int].name@ == dep@ && included@[j as int]);
                                assert forall|dd: int| 0 <= dd < d + 1 implies included_name(
                                    self.tables@,
                                    included@,
                                    (#[trigger] deps@[dd])@,
                                ) by {}
                            }
                        }
                    },
                }
                d += 1;
            }

            let children = &self.tables[i].child_tables;
            let mut c: usize = 0;
            while c < children.len()
                invariant
                    self.wf(),
                    n == self.tables@.len(),
                    included@.len() == n,
                    i < n,
                    included@[i as int],
                    children == self.tables@[i as int].child_tables,
                    c <= children@.len(),
                    0 <= count_true(included@) <= n,
                    queue@.len() - count_true(included@) == queue_head.len() - 1 - count_true(
                        inc_head,
                    ),
                    forall|t: int| 0 <= t < queue@.len() ==> (#[trigger] queue@[t]) < n
                        && included@[queue@[t] as int],
                    forall|m: int| 0 <= m < n && #[trigger] included@[m] ==> in_q(queue@, m)
                        || self.closed_in(included@, m) || m == i as int,
                    forall|m: int| 0 <= m < n && #[trigger] included@[m] ==> reachable(
                        self.tables@,
                        requested@,
                        self.tables@[m].name@,
                    ),
                    forall|y: int| 0 <= y < requested@.len() ==> tables_have_name(
                        self.tables@,
                        (#[trigger] requested@[y])@,
                    ) && included_name(self.tables@, included@, requested@[y]@),
                    forall|dd: int| 0 <= dd < self.deps@[i as int]@.len() ==> included_name(
                        self.tables@,
                        included@,
                        (#[trigger] self.deps@[i as int]@[dd])@,
                    ),
                    forall|cc: int| 0 <= cc < c ==> included_name(
                        self.tables@,
                        included@,
                        (#[trigger] children@[cc])@,
                    ),
                decreases children@.len() - c,
            {
                let child = &children[c];
                let ghost inc0 = included@;
                let ghost q0 = queue@;
                match crate::tables::find_table(&self.tables, child.as_str()) {
                    None => {
                        let mut msg = "Unknown table: ".to_owned();
                        msg.append(child.as_str());
                        proof {
                            assert(self.tables@[i as int].child_tables@[c as int]@ == child@);
                            assert(edge(self.tables@, self.tables@[i as int].name@, child@));
                            assert(reachable(
                                self.tables@,
                                requested@,
                                self.tables@[i as int].name@,
                            ));
                            lemma_reachable_step(
                                self.tables@,
                                requested@,
                                self.tables@[i as int].name@,
                                child@,
                            );
                            assert(!tables_have_name(self.tables@, child@));
                            assert(msg@ =~= "Unknown table: "@ + child@);
                        }
                        return Err(msg);
                    },
                    Some(j) => {
                        if !included[j] {
                            included.set(j, true);
                            queue.push(j);
                            proof {
                                lemma_count_true_update(inc0, j as int, true);
                                lemma_count_true_bounds(included@);
                                assert(self.tables@[i as int].child_tables@[c as int]@ == child@);
                                assert(self.tables@[j as int].name@ == child@);
                                assert(reachable(
                                    self.tables@,
                                    requested@,
                                    self.tables@[i as int].name@,
                                ));
                                assert(edge(
                                    self.tables@,
                                    self.tables@[i as int].name@,
                                    self.tables@[j as int].name@,
                                ));
                                lemma_reachable_step(
                                    self.tables@,
                                    requested@,
                                    self.tables@[i as int].name@,
                                    self.tables@[j as int].name@,
                                );
                                assert(queue@ =~= q0.push(j));
                                assert forall|t: int| 0 <= t < queue@.len() implies (
                                #[trigger] queue@[t]) < n && included@[queue@[t] as int] by {
                                    if t < q0.len() {
                                        assert(q0[t] < n && inc0[q0[t] as int]);
                                    }
                                }
                                assert forall|m: int| 0 <= m < n && #[trigger] included@[m] implies
                                    in_q(queue@, m) || self.closed_in(included@, m) || m
                                    == i as int by {
                                    if m == j as int {
                                        assert(queue@[queue@.len() - 1] as int == m);
                                    } else {
                                        assert(inc0[m]);
                                        if in_q(q0, m) {
                                            let t = choose|t: int|
                                                0 <= t < q0.len() && (#[trigger] q0[t]) as int
                                                    == m;
                                            assert(queue@[t] as int == m);
                                        } else if self.closed_in(inc0, m) {
                                            self.lemma_closed_monotone(inc0, included@, m);
                                        }
                                    }
                                }
                                assert forall|y: int| 0 <= y < requested@.len() implies
                                    tables_have_name(self.tables@, (#[trigger] requested@[y])@)
                                    && included_name(self.tables@, included@, requested@[y]@) by {
                                    lemma_included_name_monotone(
                                        self.tables@,
                                        inc0,
                                        included@,
                                        requested@[y]@,
                                    );
                                }
                                assert forall|dd: int| 0 <= dd < self.deps@[i as int]@.len()
                                    implies included_name(
                                    self.tables@,
                                    included@,
                                    (#[trigger] self.deps@[i as int]@[dd])@,
                                ) by {
                                    lemma_included_name_monotone(
                                        self.tables@,
                                        inc0,
                                        included@,
                                        self.deps@[i as int]@[dd]@,
                                    );
                                }
                                assert forall|cc: int| 0 <= cc < c + 1 implies included_name(
                                    self.tables@,
                                    included@,
                                    (#[trigger] children@[cc])@,
                                ) by {
                                    if cc < c {
                                        lemma_included_name_monotone(
                                            self.tables@,
                                            inc0,
                                            included@,
                                            children@[cc]@,
                                        );
                                    } else {
                                        assert(self.tables@[j as int].name@ == child@ && included@[
                                            j as int
                                        ]);
                                    }
                                }
                            }
                        } else {
                            proof {
                                assert(self.tables@[j as int].name@ == child@ && included@[
                                    j as int
                                ]);
                            }
                        }
                    },
                }
                c += 1;
            }
            proof {
                assert(self.closed_in(included@, i as int)) by {
                    assert forall|k: int| 0 <= k < self.tables@[i as int].foreign_keys@.len()
                        implies included_name(
                        self.tables@,
                        included@,
                        (#[trigger] self.tables@[i as int].foreign_keys@[k]).references_table@,
                    ) by {
                        if self.tables@[i as int].foreign_keys@[k].references_table@
                            == self.tables@[i as int].name@ {
                            // a self-reference: the table itself is marked
                            assert(included@[i as int]);
                        } else {
                            assert(seq_has_name(
                                self.deps@[i as int]@,
                                self.tables@[i as int].foreign_keys@[k].references_table@,
                            ));
                            let dd = choose|dd: int|
                                0 <= dd < self.deps@[i as int]@.len() && (
                                #[trigger] self.deps@[i as int]@[dd]@)
                                    == self.tables@[i as int].foreign_keys@[k].references_table@;
                            assert(included_name(
                                self.tables@,
                                included@,
                                self.deps@[i as int]@[dd]@,
                            ));
                        }
                    }
                }
                assert forall|m: int| 0 <= m < n && #[trigger] included@[m] implies in_q(queue@, m)
                    || self.closed_in(included@, m) by {}
            }
        }

        let sorted = self.topological_sort(&included);
        match sorted {
            Err(e) => {
                proof {
                    assert(false);
                }
                Err(e)
            },
            Ok(out) => {
                proof {
                    self.lemma_combine(included@, out@);
                    assert forall|p: int| 0 <= p < out@.len() implies reachable(
                        self.tables@,
                        requested@,
                        (#[trigger] out@[p]).name@,
                    ) by {
                        assert(self.drawn_from(included@, out@, p));
                        let m = choose|m: int|
                            #![auto]
                            0 <= m < self.tables@.len() && included@[m] && schema_view(out@[p])
                                == schema_view(self.tables@[m]);
                        self.lemma_view_fields(out@[p], self.tables@[m]);
                        assert(reachable(self.tables@, requested@, self.tables@[m].name@));
                    }
                    assert forall|x: int| 0 <= x < requested@.len() implies tables_have_name(
                        out@,
                        (#[trigger] requested@[x])@,
                    ) by {
                        let j = choose|j: int|
                            0 <= j < self.tables@.len() && (#[trigger] self.tables@[j]).name@
                                == requested@[x]@ && included@[j];
                        let pp = choose|pp: int|
                            #![auto]
                            0 <= pp < out@.len() && out@[pp].name@ == self.tables@[j].name@;
                        assert(out@[pp].name@ == requested@[x]@);
                    }
                }
                Ok(out)
            },
        }
    }

    /// Resolves an exclude list: every table stays except the excluded ones
    /// and the tables any of whose foreign keys reference an excluded table
    /// (a deliberately shallow cascade), in dependency order. Fails when an
    /// excluded name is not in the registry.
    pub fn resolve_excludes(&self, excluded: &Vec<String>) -> (r: Result<Vec<TableSchema>, String>)
        requires
            self.wf(),
        ensures
            match r {
                Ok(out) => {
                    &&& forall|x: int| 0 <= x < excluded@.len() ==> tables_have_name(
                        self.tables@,
                        (#[trigger] excluded@[x])@,
                    )
                    &&& forall|p: int| 0 <= p < out@.len() ==> #[trigger] self.from_registry(
                        out@,
                        p,
                    )
                    &&& forall|p: int, q: int| 0 <= p < q < out@.len() ==> (
                    #[trigger] out@[p]).name@ != (#[trigger] out@[q]).name@
                    &&& forall|p: int| 0 <= p < out@.len() ==> !seq_has_name(
                        excluded@,
                        (#[trigger] out@[p]).name@,
                    )
                    &&& forall|p: int, k: int|
                        #![auto]
                        0 <= p < out@.len() && 0 <= k < out@[p].foreign_keys@.len()
                            ==> !seq_has_name(
                            excluded@,
                            out@[p].foreign_keys@[k].references_table@,
                        )
                    &&& forall|m: int|
                        0 <= m < self.tables@.len() && !seq_has_name(
                            excluded@,
                            (#[trigger] self.tables@[m]).name@,
                        ) && !fk_excluded(self.tables@[m], excluded@) ==> tables_have_name(
                            out@,
                            self.tables@[m].name@,
                        )
                    &&& forall|p: int, k: int|
                        #![auto]
                        0 <= p < out@.len() && 0 <= k < out@[p].foreign_keys@.len()
                            && out@[p].foreign_keys@[k].references_table@ != out@[p].name@
                            && tables_have_name(out@, out@[p].foreign_keys@[k].references_table@)
                            ==> exists|q: int|
                            0 <= q < p && out@[q].name@
                                == out@[p].foreign_keys@[k].references_table@
                },
                Err(msg) => exists|x: int|
                    #![auto]
                    0 <= x < excluded@.len() && !tables_have_name(self.tables@, excluded@[x]@)
                        && msg@ == "Unknown table: "@ + excluded@[x]@,
            },
    {
        let n = self.tables.len();
        let mut x: usize = 0;
        while x < excluded.len()
            invariant
                self.wf(),
                n == self.tables@.len(),
                x <= excluded@.len(),
                forall|y: int| 0 <= y < x ==> tables_have_name(
                    self.tables@,
                    (#[trigger] excluded@[y])@,
                ),
            decreases excluded@.len() - x,
        {
            let name = &excluded[x];
            match crate::tables::find_table(&self.tables, name.as_str()) {
                None => {
                    let mut msg = "Unknown table: ".to_owned();
                    msg.append(name.as_str());
                    proof {
                        assert(!tables_have_name(self.tables@, excluded@[x as int]@));
                        assert(msg@ =~= "Unknown table: "@ + excluded@[x as int]@);
                    }
                    return Err(msg);
                },
                Some(_) => {},
            }
            x += 1;
        }

        let mut included: Vec<bool> = Vec::new();
        let mut m: usize = 0;
        while m < n
            invariant
                self.wf(),
                n == self.tables@.len(),
                m <= n,
                included@.len() == m,
                forall|mm: int| 0 <= mm < m ==> (#[trigger] included@[mm] == (!seq_has_name(
                    excluded@,
                    self.tables@[mm].name@,
                ) && !fk_excluded(self.tables@[mm], excluded@))),
            decreases n - m,
        {
            let not_excluded = !crate::schema_types::contains_name(excluded, &self.tables[m].name);
            let mut parent_excluded = false;
            let mut k: usize = 0;
            while k < self.tables[m].foreign_keys.len()
                invariant
                    self.wf(),
                    m < self.tables@.len(),
                    k <= self.tables@[m as int].foreign_keys@.len(),
                    parent_excluded == exists|kk: int|
                        0 <= kk < k && seq_has_name(
                            excluded@,
                            (#[trigger] self.tables@[m as int].foreign_keys@[kk]).references_table@,
                        ),
                decreases self.tables@[m as int].foreign_keys@.len() - k,
            {
                if crate::schema_types::contains_name(
                    excluded,
                    &self.tables[m].foreign_keys[k].references_table,
                ) {
                    parent_excluded = true;
                }
                k += 1;
            }
            included.push(not_excluded && !parent_excluded);
            proof {
                assert(parent_excluded == fk_excluded(self.tables@[m as int], excluded@));
            }
            m += 1;
        }

        let sorted = self.topological_sort(&included);
        match sorted {
            Err(e) => {
                proof {
                    assert(false);
                }
                Err(e)
            },
            Ok(out) => {
                proof {
                    let ts = self.tables@;
                    assert forall|p: int| 0 <= p < out@.len() implies #[trigger] self.from_registry(
                        out@,
                        p,
                    ) by {
                        assert(self.drawn_from(included@, out@, p));
                    }
                    assert forall|p: int| 0 <= p < out@.len() implies !seq_has_name(
                        excluded@,
                        (#[trigger] out@[p]).name@,
                    ) by {
                        assert(self.drawn_from(included@, out@, p));
                        let mm = choose|mm: int|
                            #![auto]
                            0 <= mm < ts.len() && included@[mm] && schema_view(out@[p])
                                == schema_view(ts[mm]);
                        self.lemma_view_fields(out@[p], ts[mm]);
                        assert(!seq_has_name(excluded@, ts[mm].name@));
                    }
                    assert forall|p: int, k: int|
                        #![auto]
                        0 <= p < out@.len() && 0 <= k < out@[p].foreign_keys@.len() implies
                        !seq_has_name(excluded@, out@[p].foreign_keys@[k].references_table@) by {
                        assert(self.drawn_from(included@, out@, p));
                        let mm = choose|mm: int|
                            #![auto]
                            0 <= mm < ts.len() && included@[mm] && schema_view(out@[p])
                                == schema_view(ts[mm]);
                        self.lemma_view_fields(out@[p], ts[mm]);
                        assert(!fk_excluded(ts[mm], excluded@));
                        assert(out@[p].foreign_keys@[k].references_table@
                            == ts[mm].foreign_keys@[k].references_table@);
                    }
                    assert forall|m2: int|
                        0 <= m2 < ts.len() && !seq_has_name(
                            excluded@,
                            (#[trigger] ts[m2]).name@,
                        ) && !fk_excluded(ts[m2], excluded@) implies tables_have_name(
                        out@,
                        ts[m2].name@,
                    ) by {
                        assert(included@[m2]);
                        let pp = choose|pp: int|
                            #![auto]
                            0 <= pp < out@.len() && out@[pp].name@ == ts[m2].name@;
                        assert(out@[pp].name@ == ts[m2].name@);
                    }
                    assert forall|p: int, k: int|
                        #![auto]
                        0 <= p < out@.len() && 0 <= k < out@[p].foreign_keys@.len()
                            && out@[p].foreign_keys@[k].references_table@ != out@[p].name@
                            && tables_have_name(out@, out@[p].foreign_keys@[k].references_table@)
                        implies exists|q: int|
                        0 <= q < p && out@[q].name@ == out@[p].foreign_keys@[k].references_table@ by {
                        let target = out@[p].foreign_keys@[k].references_table@;
                        let qq = choose|qq: int|
                            0 <= qq < out@.len() && (#[trigger] out@[qq]).name@ == target;
                        assert(self.drawn_from(included@, out@, qq));
                        let mt = choose|mt: int|
                            #![auto]
                            0 <= mt < ts.len() && included@[mt] && schema_view(out@[qq])
                                == schema_view(ts[mt]);
                        self.lemma_view_fields(out@[qq], ts[mt]);
                        assert(ts[mt].name@ == target && included@[mt]);
                        assert(included_name(ts, included@, target));
                    }
                }
                Ok(out)
            },
        }
    }

    /// The full registry, in its declared order, which respects foreign-key
    /// dependencies: every non-self foreign-key target stands at a strictly
    /// earlier position.
    pub fn all_tables_ordered(&self) -> (out: Vec<TableSchema>)
        requires
            self.wf(),
        ensures
            out@.len() == self.tables@.len(),
            forall|p: int| 0 <= p < out@.len() ==> schema_view(#[trigger] out@[p]) == schema_view(
                self.tables@[p],
            ),
            forall|p: int, k: int|
                #![auto]
                0 <= p < out@.len() && 0 <= k < out@[p].foreign_keys@.len()
                    && out@[p].foreign_keys@[k].references_table@ != out@[p].name@
                    && tables_have_name(out@, out@[p].foreign_keys@[k].references_table@)
                    ==> exists|q: int|
                    0 <= q < p && out@[q].name@ == out@[p].foreign_keys@[k].references_table@,
    {
        let mut out: Vec<TableSchema> = Vec::new();
        let mut k: usize = 0;
        while k < self.tables.len()
            invariant
                k <= self.tables@.len(),
                out@.len() == k,
                forall|p: int| 0 <= p < k ==> schema_view(#[trigger] out@[p]) == schema_view(
                    self.tables@[p],
                ),
            decreases self.tables@.len() - k,
        {
            out.push(clone_schema(&self.tables[k]));
            k += 1;
        }
        proof {
            assert forall|p: int, k2: int|
                #![auto]
                0 <= p < out@.len() && 0 <= k2 < out@[p].foreign_keys@.len()
                    && out@[p].foreign_keys@[k2].references_table@ != out@[p].name@
                    && tables_have_name(out@, out@[p].foreign_keys@[k2].references_table@) implies
                exists|q: int|
                0 <= q < p && out@[q].name@ == out@[p].foreign_keys@[k2].references_table@ by {
                let target = out@[p].foreign_keys@[k2].references_table@;
                self.lemma_view_fields(out@[p], self.tables@[p]);
                let q0 = choose|q0: int| 0 <= q0 < out@.len() && (#[trigger] out@[q0]).name@
                    == target;
                self.lemma_view_fields(out@[q0], self.tables@[q0]);
                assert(self.tables@[q0].name@ == target);
                assert(self.tables@[p].foreign_keys@[k2].references_table@ == target);
                assert(self.tables@[p].fk_targets().contains(self.tables@[q0].name@));
                assert(self.tables@[p].name@ != target);
                assert(q0 != p);
                assert(q0 < p);
                assert(out@[q0].name@ == target);
            }
        }
        out
    }

    /// Whether `out[p]` is a copy of some registry table.
    pub open spec fn from_registry(&self, out: Seq<TableSchema>, p: int) -> bool {
        exists|m: int|
            #![auto]
            0 <= m < self.tables@.len() && schema_view(out[p]) == schema_view(self.tables@[m])
    }

    /// Combines the sort's guarantees with a closure-complete marking: every
    /// emitted table's non-self foreign-key targets and child tables are
    /// themselves emitted, targets at an earlier position.
    proof fn lemma_combine(&self, inc: Seq<bool>, out: Seq<TableSchema>)
        requires
            self.wf(),
            inc.len() == self.tables@.len(),
            forall|m: int| 0 <= m < self.tables@.len() && #[trigger] inc[m] ==> self.closed_in(
                inc,
                m,
            ),
            forall|p: int| 0 <= p < out.len() ==> #[trigger] self.drawn_from(inc, out, p),
            forall|m: int| 0 <= m < self.tables@.len() && #[trigger] inc[m] ==> exists|p: int|
                #![auto]
                0 <= p < out.len() && out[p].name@ == self.tables@[m].name@,
            forall|p: int, k: int|
                #![auto]
                0 <= p < out.len() && 0 <= k < out[p].foreign_keys@.len()
                    && out[p].foreign_keys@[k].references_table@ != out[p].name@ && included_name(
                    self.tables@,
                    inc,
                    out[p].foreign_keys@[k].references_table@,
                ) ==> exists|q: int|
                    0 <= q < p && out[q].name@ == out[p].foreign_keys@[k].references_table@,
        ensures
            forall|p: int| 0 <= p < out.len() ==> #[trigger] self.from_registry(out, p),
            forall|p: int, k: int|
                #![auto]
                0 <= p < out.len() && 0 <= k < out[p].foreign_keys@.len()
                    && out[p].foreign_keys@[k].references_table@ != out[p].name@ ==> exists|q: int|
                    0 <= q < p && out[q].name@ == out[p].foreign_keys@[k].references_table@,
            forall|p: int, c: int|
                #![auto]
                0 <= p < out.len() && 0 <= c < out[p].child_tables@.len() ==> tables_have_name(
                    out,
                    out[p].child_tables@[c]@,
                ),
    {
        assert forall|p: int| 0 <= p < out.len() implies #[trigger] self.from_registry(out, p) by {
            assert(self.drawn_from(inc, out, p));
        }
        assert forall|p: int, k: int|
            #![auto]
            0 <= p < out.len() && 0 <= k < out[p].foreign_keys@.len()
                && out[p].foreign_keys@[k].references_table@ != out[p].name@ implies exists|q: int|
            0 <= q < p && out[q].name@ == out[p].foreign_keys@[k].references_table@ by {
            assert(self.drawn_from(inc, out, p));
            let m = choose|m: int|
                #![auto]
                0 <= m < self.tables@.len() && inc[m] && schema_view(out[p]) == schema_view(
                    self.tables@[m],
                );
            self.lemma_view_fields(out[p], self.tables@[m]);
            assert(self.closed_in(inc, m));
            assert(self.tables@[m].foreign_keys@[k].references_table@
                == out[p].foreign_keys@[k].references_table@);
            assert(included_name(
                self.tables@,
                inc,
                out[p].foreign_keys@[k].references_table@,
            ));
        }
        assert forall|p: int, c: int|
            #![auto]
            0 <= p < out.len() && 0 <= c < out[p].child_tables@.len() implies tables_have_name(
            out,
            out[p].child_tables@[c]@,
        ) by {
            assert(self.drawn_from(inc, out, p));
            let m = choose|m: int|
                #![auto]
                0 <= m < self.tables@.len() && inc[m] && schema_view(out[p]) == schema_view(
                    self.tables@[m],
                );
            self.lemma_view_fields(out[p], self.tables@[m]);
            assert(self.closed_in(inc, m));
            assert(self.tables@[m].child_tables@[c]@ == out[p].child_tables@[c]@);
            assert(included_name(self.tables@, inc, out[p].child_tables@[c]@));
            let j = choose|j: int|
                0 <= j < self.tables@.len() && (#[trigger] self.tables@[j]).name@
                    == out[p].child_tables@[c]@ && inc[j];
            let pp = choose|pp: int|
                #![auto]
                0 <= pp < out.len() && out[pp].name@ == self.tables@[j].name@;
            assert(out[pp].name@ == out[p].child_tables@[c]@);
        }
    }

    /// Field-level consequences of two schemas having the same shape.
    proof fn lemma_view_fields(&self, a: TableSchema, b: TableSchema)
        requires
            schema_view(a) == schema_view(b),
        ensures
            a.name@ == b.name@,
            a.foreign_keys@.len() == b.foreign_keys@.len(),
            forall|k: int| 0 <= k < a.foreign_keys@.len() ==> (
            #[trigger] a.foreign_keys@[k]).references_table@ == b.foreign_keys@[k].references_table@
                && a.foreign_keys@[k].column@ == b.foreign_keys@[k].column@,
            a.child_tables@.len() == b.child_tables@.len(),
            forall|c: int| 0 <= c < a.child_tables@.len() ==> (#[trigger] a.child_tables@[c])@
                == b.child_tables@[c]@,
    {
        assert(schema_view(a).foreign_keys.len() == a.foreign_keys@.len());
        assert(schema_view(b).foreign_keys.len() == b.foreign_keys@.len());
        assert forall|k: int| 0 <= k < a.foreign_keys@.len() implies (
        #[trigger] a.foreign_keys@[k]).references_table@ == b.foreign_keys@[k].references_table@
            && a.foreign_keys@[k].column@ == b.foreign_keys@[k].column@ by {
            assert(schema_view(a).foreign_keys[k] == fk_view(a.foreign_keys@[k]));
            assert(schema_view(b).foreign_keys[k] == fk_view(b.foreign_keys@[k]));
        }
        assert(names_view(a.child_tables@).len() == a.child_tables@.len());
        assert(names_view(b.child_tables@).len() == b.child_tables@.len());
        assert forall|c: int| 0 <= c < a.child_tables@.len() implies (
        #[trigger] a.child_tables@[c])@ == b.child_tables@[c]@ by {
            assert(names_view(a.child_tables@)[c] == a.child_tables@[c]@);
            assert(names_view(b.child_tables@)[c] == b.child_tables@[c]@);
        }
    }
}

impl Default for DependencyResolver {
    /// The resolver over the whole registry.
    fn default() -> (r: DependencyResolver)
        ensures
            r.wf(),
    {
        DependencyResolver::new()
    }
}

/// Copies a column, field by field.
pub fn clone_column(c: &Column) -> (r: Column)
    ensures
        column_view(r) == column_view(*c),
{
    Column {
        name: c.name.clone(),
        col_type: c.col_type,
        nullable: c.nullable,
        json_field: match &c.json_field {
            Some(f) => Some(f.clone()),
            None => None,
        },
    }
}

/// Copies a foreign key, field by field.
pub fn clone_fk(fk: &ForeignKey) -> (r: ForeignKey)
    ensures
        fk_view(r) == fk_view(*fk),
{
    ForeignKey {
        column: fk.column.clone(),
        references_table: fk.references_table.clone(),
        references_column: fk.references_column.clone(),
    }
}

/// Copies a list of strings.
pub fn clone_names(v: &Vec<String>) -> (r: Vec<String>)
    ensures
        names_view(r@) == names_view(v@),
{
    let mut out: Vec<String> = Vec::new();
    let mut k: usize = 0;
    while k < v.len()
        invariant
            k <= v@.len(),
            out@.len() == k,
            forall|i: int| 0 <= i < k ==> (#[trigger] out@[i])@ == v@[i]@,
        decreases v@.len() - k,
    {
        out.push(v[k].clone());
        k += 1;
    }
    proof {
        assert(names_view(out@) =~= names_view(v@));
    }
    out
}

/// Copies an index definition.
pub fn clone_index(ix: &Index) -> (r: Index)
    ensures
        index_view(r) == index_view(*ix),
{
    Index { columns: clone_names(&ix.columns), unique: ix.unique }
}

/// Copies a whole table schema, field by field.
pub fn clone_schema(t: &TableSchema) -> (r: TableSchema)
    ensures
        schema_view(r) == schema_view(*t),
{
    let mut columns: Vec<Column> = Vec::new();
    let mut k: usize = 0;
    while k < t.columns.len()
        invariant
            k <= t.columns@.len(),
            columns@.len() == k,
            forall|i: int| 0 <= i < k ==> column_view(#[trigger] columns@[i]) == column_view(
                t.columns@[i],
            ),
        decreases t.columns@.len() - k,
    {
        columns.push(clone_column(&t.columns[k]));
        k += 1;
    }
    let mut foreign_keys: Vec<ForeignKey> = Vec::new();
    let mut f: usize = 0;
    while f < t.foreign_keys.len()
        invariant
            f <= t.foreign_keys@.len(),
            foreign_keys@.len() == f,
            forall|i: int| 0 <= i < f ==> fk_view(#[trigger] foreign_keys@[i]) == fk_view(
                t.foreign_keys@[i],
            ),
        decreases t.foreign_keys@.len() - f,
    {
        foreign_keys.push(clone_fk(&t.foreign_keys[f]));
        f += 1;
    }
    let mut indexes: Vec<Index> = Vec::new();
    let mut x: usize = 0;
    while x < t.indexes.len()
        invariant
            x <= t.indexes@.len(),
            indexes@.len() == x,
            forall|i: int| 0 <= i < x ==> index_view(#[trigger] indexes@[i]) == index_view(
                t.indexes@[i],
            ),
        decreases t.indexes@.len() - x,
    {
        indexes.push(clone_index(&t.indexes[x]));
        x += 1;
    }
    let array_source = match &t.array_source {
        Some(src) => Some(
            match src {
                ArraySource::Simple { array_field, parent_id_column } => {
                    ArraySource::Simple {
                        array_field: array_field.clone(),
                        parent_id_column: parent_id_column.clone(),
                    }
                },
                ArraySource::SimpleIntArray {
                    array_field,
                    parent_id_column,
                    value_column,
                } => ArraySource::SimpleIntArray {
                    array_field: array_field.clone(),
                    parent_id_column: parent_id_column.clone(),
                    value_column: value_column.clone(),
                },
                ArraySource::BlueprintActivity {
                    activity_column,
                    array_field,
                } => ArraySource::BlueprintActivity {
                    activity_column: activity_column.clone(),
                    array_field: array_field.clone(),
                },
                ArraySource::NestedKeyValue {
                    array_field,
                    parent_id_column,
                    nested_key_column,
                } => ArraySource::NestedKeyValue {
                    array_field: array_field.clone(),
                    parent_id_column: parent_id_column.clone(),
                    nested_key_column: nested_key_column.clone(),
                },
                ArraySource::DoubleNested {
                    parent_id_column,
                    level_key_column,
                } => ArraySource::DoubleNested {
                    parent_id_column: parent_id_column.clone(),
                    level_key_column: level_key_column.clone(),
                },
            },
        ),
        None => None,
    };
    let r = TableSchema {
        name: t.name.clone(),
        source_file: t.source_file.clone(),
        columns,
        foreign_keys,
        indexes,
        child_tables: clone_names(&t.child_tables),
        array_source,
    };
    proof {
        assert(schema_view(r).columns =~= schema_view(*t).columns);
        assert(schema_view(r).foreign_keys =~= schema_view(*t).foreign_keys);
        assert(schema_view(r).indexes =~= schema_view(*t).indexes);
        assert(schema_view(r).child_tables =~= schema_view(*t).child_tables);
    }
    r
}

} // verus!
