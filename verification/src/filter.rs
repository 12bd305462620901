//! Selection of the tables to process from at most one of an include list
//! and an exclude list.

use vstd::prelude::*;

use crate::dependencies::{
    lemma_reachable_to_views, reachable_v, tables_have_name, views_have_name, views_of,
    DependencyResolver,
};
use crate::schema_types::{schema_view, seq_has_name, TableSchema};
use crate::dependencies::spec_registry_kept;
use crate::tables::spec_registry;

verus! {

/// Resolves the table filters against the registry: with an include list,
/// the requested tables, their parents and children in dependency order;
/// with an exclude list, everything else under the shallow cascade; with
/// neither, every table. Supplying both lists is a usage error.
pub fn resolve_tables(includes: Option<Vec<String>>, excludes: Option<Vec<String>>) -> (r: Result<
    Vec<TableSchema>,
    String,
>)
    ensures
        includes is Some && excludes is Some ==> (r matches Err(msg) && msg@
            == "Cannot use both --include and --exclude at the same time"@),
        includes is None && excludes is None ==> r is Ok,
        (match (includes, excludes) {
            (Some(inc), Option::<Vec<String>>::None) => match r {
                Ok(out) => {
                    &&& forall|x: int| 0 <= x < inc@.len() ==> tables_have_name(
                        out@,
                        (#[trigger] inc@[x])@,
                    )
                    &&& forall|p: int, q: int| 0 <= p < q < out@.len() ==> (
                    #[trigger] out@[p]).name@ != (#[trigger] out@[q]).name@
                    &&& forall|p: int, k: int|
                        #![auto]
                        0 <= p < out@.len() && 0 <= k < out@[p].foreign_keys@.len()
                            && out@[p].foreign_keys@[k].references_table@ != out@[p].name@
                            ==> exists|q: int|
                            0 <= q < p && out@[q].name@
                                == out@[p].foreign_keys@[k].references_table@
                },
                Err(msg) => exists|x: Seq<char>|
                    #![auto]
                    reachable_v(spec_registry_kept(spec_registry()), inc@, x)
                        && !views_have_name(spec_registry_kept(spec_registry()), x) && msg@
                        == "Unknown table: "@ + x,
            },
            (Option::<Vec<String>>::None, Some(exc)) => match r {
                Ok(out) => {
                    &&& forall|p: int| 0 <= p < out@.len() ==> !seq_has_name(
                        exc@,
                        (#[trigger] out@[p]).name@,
                    )
                    &&& forall|p: int, q: int| 0 <= p < q < out@.len() ==> (
                    #[trigger] out@[p]).name@ != (#[trigger] out@[q]).name@
                    &&& forall|p: int, k: int|
                        #![auto]
                        0 <= p < out@.len() && 0 <= k < out@[p].foreign_keys@.len()
                            && out@[p].foreign_keys@[k].references_table@ != out@[p].name@
                            && tables_have_name(out@, out@[p].foreign_keys@[k].references_table@)
                            ==> exists|q: int|
                            0 <= q < p && out@[q].name@
                                == out@[p].foreign_keys@[k].references_table@
                },
                Err(msg) => exists|x: int|
                    #![auto]
                    0 <= x < exc@.len() && !views_have_name(
                        spec_registry_kept(spec_registry()),
                        exc@[x]@,
                    ) && msg@ == "Unknown table: "@ + exc@[x]@,
            },
            (Option::<Vec<String>>::None, Option::<Vec<String>>::None) => match r {
                Ok(out) => {
                    &&& out@.len() == spec_registry_kept(spec_registry()).len()
                    &&& forall|p: int| 0 <= p < out@.len() ==> schema_view(#[trigger] out@[p])
                        == spec_registry_kept(spec_registry())[p]
                    &&& forall|p: int, k: int|
                        #![auto]
                        0 <= p < out@.len() && 0 <= k < out@[p].foreign_keys@.len()
                            && out@[p].foreign_keys@[k].references_table@ != out@[p].name@
                            && tables_have_name(out@, out@[p].foreign_keys@[k].references_table@)
                            ==> exists|q: int|
                            0 <= q < p && out@[q].name@
                                == out@[p].foreign_keys@[k].references_table@
                },
                Err(_) => true,
            },
            _ => true,
        }),
{
    let resolver = DependencyResolver::new();
    let ghost kept = spec_registry_kept(spec_registry());
    match (includes, excludes) {
        (Some(_), Some(_)) => Err(
            "Cannot use both --include and --exclude at the same time".to_owned(),
        ),
        (Some(include_list), None) => {
            let out = resolver.resolve_includes(&include_list);
            proof {
                assert(views_of(resolver.tables@) == kept);
                if out is Ok {
                    let o = out->Ok_0;
                    assert forall|x: int| 0 <= x < include_list@.len() implies tables_have_name(
                        o@,
                        (#[trigger] include_list@[x])@,
                    ) by {
                        assert(tables_have_name(o@, include_list@[x]@));
                    }
                } else {
                    let msg = out->Err_0;
                    let x = choose|x: Seq<char>|
                        #![auto]
                        crate::dependencies::reachable(resolver.tables@, include_list@, x)
                            && !tables_have_name(resolver.tables@, x) && msg@
                            == "Unknown table: "@ + x;
                    lemma_reachable_to_views(resolver.tables@, include_list@, x);
                    crate::dependencies::lemma_have_name_bridge(resolver.tables@, x);
                    assert(reachable_v(kept, include_list@, x) && !views_have_name(kept, x)
                        && msg@ == "Unknown table: "@ + x);
                }
            }
            out
        },
        (None, Some(exclude_list)) => {
            let out = resolver.resolve_excludes(&exclude_list);
            proof {
                assert(views_of(resolver.tables@) == kept);
                if out is Err {
                    let msg = out->Err_0;
                    let x = choose|x: int|
                        #![auto]
                        0 <= x < exclude_list@.len() && !tables_have_name(
                            resolver.tables@,
                            exclude_list@[x]@,
                        ) && msg@ == "Unknown table: "@ + exclude_list@[x]@;
                    crate::dependencies::lemma_have_name_bridge(
                        resolver.tables@,
                        exclude_list@[x]@,
                    );
                    assert(0 <= x < exclude_list@.len() && !views_have_name(
                        kept,
                        exclude_list@[x]@,
                    ) && msg@ == "Unknown table: "@ + exclude_list@[x]@);
                }
            }
            out
        },
        (None, None) => {
            let out = resolver.all_tables_ordered();
            proof {
                assert(views_of(resolver.tables@) == kept);
                assert forall|p: int| 0 <= p < out@.len() implies schema_view(#[trigger] out@[p])
                    == kept[p] by {
                    assert(schema_view(out@[p]) == schema_view(resolver.tables@[p]));
                    assert(views_of(resolver.tables@)[p] == schema_view(resolver.tables@[p]));
                }
            }
            Ok(out)
        },
    }
}

} // verus!
