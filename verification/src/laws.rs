use vstd::prelude::*;

use crate::install::{
    assets_model, spec_entry_name, spec_kept_paths, spec_plan_category, spec_plan_matches,
    InstallPlan,
};
use crate::json::JsonValue;
use crate::manifest::{spec_category, spec_display_name, spec_entry_path, spec_name};

verus! {

/// The asset paths one category's elements declare, in declaration order,
/// skipping elements without a usable path.
pub open spec fn spec_declared_paths(elems: Seq<JsonValue>) -> Seq<Seq<char>>
    decreases elems.len(),
{
    if elems.len() == 0 {
        Seq::empty()
    } else {
        let rest = spec_declared_paths(elems.drop_last());
        match spec_entry_path(elems.last()) {
            Some(p) => rest.push(p),
            None => rest,
        }
    }
}

/// When every declared asset of a category has a matching archive entry,
/// the plan keeps them all: one planned asset per declared path, in
/// declaration order, each carrying its entry's bytes.
pub proof fn lemma_all_entries_present(entries: Map<Seq<char>, Seq<u8>>, elems: Seq<JsonValue>)
    requires
        forall|i: int|
            0 <= i < spec_declared_paths(elems).len() ==> entries.contains_key(
                spec_entry_name(#[trigger] spec_declared_paths(elems)[i]),
            ),
    ensures
        spec_plan_category(entries, elems).len() == spec_declared_paths(elems).len(),
        forall|i: int|
            0 <= i < spec_declared_paths(elems).len() ==> #[trigger] spec_plan_category(
                entries,
                elems,
            )[i] == (spec_declared_paths(elems)[i], entries[spec_entry_name(
                spec_declared_paths(elems)[i],
            )]),
    decreases elems.len(),
{
    if elems.len() > 0 {
        let declared = spec_declared_paths(elems);
        let declared_pre = spec_declared_paths(elems.drop_last());
        let plan = spec_plan_category(entries, elems);
        let plan_pre = spec_plan_category(entries, elems.drop_last());
        assert forall|i: int|
            0 <= i < declared_pre.len() implies entries.contains_key(
            spec_entry_name(#[trigger] declared_pre[i]),
        ) by {
            assert(declared[i] == declared_pre[i]);
        }
        lemma_all_entries_present(entries, elems.drop_last());
        match spec_entry_path(elems.last()) {
            Some(p) => {
                assert(entries.contains_key(spec_entry_name(p))) by {
                    assert(declared[declared.len() - 1] == p);
                }
                assert(plan == plan_pre.push((p, entries[spec_entry_name(p)])));
                assert forall|i: int|
                    0 <= i < declared.len() implies #[trigger] plan[i] == (
                    declared[i],
                    entries[spec_entry_name(declared[i])],
                ) by {
                    if i < declared.len() - 1 {
                        assert(plan[i] == plan_pre[i]);
                        assert(declared[i] == declared_pre[i]);
                    } else {
                        assert(plan[i] == (p, entries[spec_entry_name(p)]));
                    }
                }
            },
            None => {
                assert(plan == plan_pre);
                assert(declared == declared_pre);
            },
        }
    }
}

/// When every destination write succeeds, the report keeps every planned
/// path, in order.
pub proof fn lemma_all_writes_kept(assets: Seq<(Seq<char>, Seq<u8>)>, ok: Seq<bool>)
    requires
        ok.len() == assets.len(),
        forall|i: int| 0 <= i < ok.len() ==> ok[i],
    ensures
        spec_kept_paths(assets, ok).len() == assets.len(),
        forall|i: int|
            0 <= i < assets.len() ==> #[trigger] spec_kept_paths(assets, ok)[i] == assets[i].0,
    decreases assets.len(),
{
    if assets.len() > 0 {
        lemma_all_writes_kept(assets.drop_last(), ok.drop_last());
    }
}

/// When every declared asset of a category has a matching archive entry
/// and every destination write succeeds, the reported list is exactly the
/// declared paths: one per declared entry, in declaration order.
pub proof fn lemma_complete_category_report(
    entries: Map<Seq<char>, Seq<u8>>,
    elems: Seq<JsonValue>,
    ok: Seq<bool>,
)
    requires
        ok.len() == spec_plan_category(entries, elems).len(),
        forall|i: int| 0 <= i < ok.len() ==> ok[i],
        forall|i: int|
            0 <= i < spec_declared_paths(elems).len() ==> entries.contains_key(
                spec_entry_name(#[trigger] spec_declared_paths(elems)[i]),
            ),
    ensures
        spec_kept_paths(spec_plan_category(entries, elems), ok).len() == spec_declared_paths(
            elems,
        ).len(),
        forall|i: int|
            0 <= i < spec_declared_paths(elems).len() ==> #[trigger] spec_kept_paths(
                spec_plan_category(entries, elems),
                ok,
            )[i] == spec_declared_paths(elems)[i],
{
    lemma_all_entries_present(entries, elems);
    lemma_all_writes_kept(spec_plan_category(entries, elems), ok);
}

/// A manifest without a `contributes` field contributes nothing: every
/// category is empty, and so is every plan drawn from it.
pub proof fn lemma_no_contributes(
    m: JsonValue,
    category: Seq<char>,
    entries: Map<Seq<char>, Seq<u8>>,
)
    requires
        m.spec_get("contributes"@) is None,
    ensures
        spec_category(m, category) == Seq::<JsonValue>::empty(),
        spec_plan_category(entries, spec_category(m, category)) == Seq::<(
            Seq<char>,
            Seq<u8>,
        )>::empty(),
{
}

/// A declared path with no matching archive entry is left out of the plan
/// while every declared sibling whose entry exists is kept: the plan's
/// paths are exactly the declared paths with a matching entry, in order.
pub proof fn lemma_plan_paths_are_present_declared(
    entries: Map<Seq<char>, Seq<u8>>,
    elems: Seq<JsonValue>,
)
    ensures
        spec_plan_category(entries, elems).map_values(|a: (Seq<char>, Seq<u8>)| a.0)
            == spec_declared_paths(elems).filter(
            |p: Seq<char>| entries.contains_key(spec_entry_name(p)),
        ),
    decreases elems.len(),
{
    let f = |a: (Seq<char>, Seq<u8>)| a.0;
    let pred = |p: Seq<char>| entries.contains_key(spec_entry_name(p));
    if elems.len() == 0 {
        assert(spec_declared_paths(elems).filter(pred) =~= Seq::<Seq<char>>::empty());
        assert(spec_plan_category(entries, elems).map_values(f) =~= Seq::<Seq<char>>::empty());
    } else {
        lemma_plan_paths_are_present_declared(entries, elems.drop_last());
        let declared = spec_declared_paths(elems);
        let declared_pre = spec_declared_paths(elems.drop_last());
        let plan_pre = spec_plan_category(entries, elems.drop_last());
        match spec_entry_path(elems.last()) {
            Some(p) => {
                assert(declared == declared_pre.push(p));
                assert(declared.drop_last() =~= declared_pre);
                assert(declared.drop_last() == declared_pre);
                assert(declared.last() == p);
                reveal_with_fuel(Seq::filter, 2);
                assert(declared.filter(pred) == if pred(p) {
                    declared_pre.filter(pred).push(p)
                } else {
                    declared_pre.filter(pred)
                });
                if entries.contains_key(spec_entry_name(p)) {
                    assert(spec_plan_category(entries, elems).map_values(f) =~= plan_pre
                        .map_values(f).push(p));
                } else {
                    assert(spec_plan_category(entries, elems).map_values(f) =~= plan_pre
                        .map_values(f));
                }
            },
            None => {
                assert(declared == declared_pre);
            },
        }
    }
}

/// Installing the same archive twice decides the same outcome: two plans
/// the same bytes admit carry equal names and equal assets, so the
/// destination bytes and, for equal write outcomes, the reported lists are
/// the same both times.
pub proof fn lemma_install_deterministic(bytes: Seq<u8>, p1: InstallPlan, p2: InstallPlan)
    requires
        spec_plan_matches(bytes, p1),
        spec_plan_matches(bytes, p2),
    ensures
        p1.name@ == p2.name@,
        p1.display_name@ == p2.display_name@,
        assets_model(p1.themes@) == assets_model(p2.themes@),
        assets_model(p1.grammars@) == assets_model(p2.grammars@),
        assets_model(p1.snippets@) == assets_model(p2.snippets@),
{
}

/// A manifest without a usable `displayName` field reports the canonical
/// name as the display name.
pub proof fn lemma_display_name_defaults(m: JsonValue)
    requires
        m.spec_get("displayName"@) is None,
    ensures
        spec_display_name(m) == spec_name(m),
{
}

} // verus!
