//! The dock-tree bookkeeping: one tab per live window entity, kept in an
//! `egui_dock` dock state behind a few trusted wrappers.
use crate::entity_map::{contains_id, distinct_ids};
use vstd::multiset::Multiset;
use vstd::prelude::*;
use vstd::seq_lib::group_to_multiset_ensures;

verus! {

broadcast use group_to_multiset_ensures;

/// One tab of the dock tree: the window entity it shows.
#[derive(Clone, Copy, Debug, PartialEq, Eq, Structural)]
pub struct TreeTab {
    pub entity: u64,
}

/// Declares egui_dock's `DockState` so it can stand in fields and
/// signatures; its insides stay opaque and everything known about its
/// contents goes through [`dock_tabs`].
#[verifier::external_type_specification]
#[verifier::external_body]
#[verifier::reject_recursive_types(Tab)]
pub struct ExDockState<Tab>(egui_dock::DockState<Tab>);

/// The entities of the tabs a dock state holds, in its own traversal
/// order.
pub uninterp spec fn dock_tabs(d: egui_dock::DockState<TreeTab>) -> Seq<u64>;

/// Relies on egui_dock::DockState::new: the dock holds exactly the given
/// tabs, so with none it holds no tabs.
#[verifier::external_body]
fn dock_new_empty() -> (d: egui_dock::DockState<TreeTab>)
    ensures
        dock_tabs(d) == Seq::<u64>::empty(),
{
    egui_dock::DockState::new(Vec::new())
}

/// Relies on egui_dock::DockState::iter_all_tabs: it yields every tab of
/// every surface, in the dock's traversal order.
#[verifier::external_body]
fn dock_tab_list(d: &egui_dock::DockState<TreeTab>) -> (v: Vec<u64>)
    ensures
        v@ == dock_tabs(*d),
{
    d.iter_all_tabs().map(|(_, tab)| tab.entity).collect()
}

/// Relies on egui_dock::DockState::push_to_focused_leaf: the tab joins
/// some leaf (the focused one, or a fresh one), so the dock's contents
/// grow by exactly that tab.
#[verifier::external_body]
fn dock_push(d: &mut egui_dock::DockState<TreeTab>, tab: TreeTab)
    ensures
        dock_tabs(*final(d)).to_multiset() == dock_tabs(*old(d)).to_multiset().insert(tab.entity),
{
    d.push_to_focused_leaf(tab)
}

/// Relies on egui_dock::DockState::retain_tabs: it keeps exactly the tabs
/// the predicate accepts and drops the rest; emptied nodes may be
/// rebalanced, so only the contents are stated, not their order.
#[verifier::external_body]
fn dock_retain_live(d: &mut egui_dock::DockState<TreeTab>, live: &Vec<u64>)
    ensures
        dock_tabs(*final(d)).to_multiset() == kept_tabs(dock_tabs(*old(d)), live@).to_multiset(),
{
    d.retain_tabs(|tab| contains_id(live, tab.entity))
}

/// The tab entities of `tabs` that `live` still holds, in order.
pub open spec fn kept_tabs(tabs: Seq<u64>, live: Seq<u64>) -> Seq<u64> {
    tabs.filter(|e: u64| live.contains(e))
}

/// The entities of `live` that `tabs` does not hold yet, in order.
pub open spec fn missing_tabs(live: Seq<u64>, tabs: Seq<u64>) -> Seq<u64> {
    live.filter(|e: u64| !tabs.contains(e))
}

proof fn lemma_filter_push(s: Seq<u64>, pred: spec_fn(u64) -> bool, e: u64)
    ensures
        pred(e) ==> s.push(e).filter(pred) == s.filter(pred).push(e),
        !pred(e) ==> s.push(e).filter(pred) == s.filter(pred),
{
    reveal(Seq::filter);
    assert(s.push(e).drop_last() =~= s);
    assert(s.push(e).last() == e);
}

proof fn lemma_filter_count(s: Seq<u64>, pred: spec_fn(u64) -> bool, e: u64)
    ensures
        s.filter(pred).to_multiset().count(e) == if pred(e) {
            s.to_multiset().count(e)
        } else {
            0nat
        },
    decreases s.len(),
{
    reveal(Seq::filter);
    if s.len() == 0 {
        assert(s.to_multiset() =~= Multiset::<u64>::empty());
        assert(s.filter(pred) == s);
    } else {
        lemma_filter_count(s.drop_last(), pred, e);
        assert(s.drop_last().push(s.last()) =~= s);
        if pred(s.last()) {
            assert(s.filter(pred) == s.drop_last().filter(pred).push(s.last()));
        } else {
            assert(s.filter(pred) == s.drop_last().filter(pred));
        }
    }
}

proof fn lemma_distinct_count(s: Seq<u64>, e: u64)
    requires
        distinct_ids(s),
    ensures
        s.to_multiset().count(e) == if s.contains(e) {
            1nat
        } else {
            0nat
        },
    decreases s.len(),
{
    if s.len() == 0 {
        assert(s.to_multiset() =~= Multiset::<u64>::empty());
    } else {
        assert(distinct_ids(s.drop_last())) by {
            assert(forall|i: int| 0 <= i < s.len() - 1 ==> s.drop_last()[i] == s[i]);
        }
        lemma_distinct_count(s.drop_last(), e);
        assert(s.drop_last().push(s.last()) =~= s);
        if e == s.last() {
            assert(!s.drop_last().contains(e)) by {
                assert(forall|i: int|
                    0 <= i < s.len() - 1 ==> #[trigger] s[i] != s[s.len() - 1]);
            }
            assert(s.contains(e)) by {
                assert(s[s.len() - 1] == e);
            }
        } else {
            assert(s.drop_last().contains(e) <==> s.contains(e)) by {
                if s.contains(e) {
                    let i = choose|i: int| 0 <= i < s.len() && s[i] == e;
                    assert(s.drop_last()[i] == e);
                }
                if s.drop_last().contains(e) {
                    let i = choose|i: int| 0 <= i < s.len() - 1 && s.drop_last()[i] == e;
                    assert(s[i] == e);
                }
            }
        }
    }
}

/// After a sync, the dock holds exactly one tab for each live window and
/// none for any other, provided the live ids are distinct and the dock
/// held no duplicate tabs before.
pub proof fn lemma_sync_one_tab_per_live_window(pre: Seq<u64>, live: Seq<u64>, e: u64)
    requires
        distinct_ids(pre),
        distinct_ids(live),
    ensures
        kept_tabs(pre, live).to_multiset().add(missing_tabs(live, pre).to_multiset()).count(e)
            == if live.contains(e) {
            1nat
        } else {
            0nat
        },
{
    lemma_filter_count(pre, |x: u64| live.contains(x), e);
    lemma_filter_count(live, |x: u64| !pre.contains(x), e);
    lemma_distinct_count(pre, e);
    lemma_distinct_count(live, e);
}

/// The tab tree of the editor's dockable panels.
pub struct EditorTabs {
    pub state: egui_dock::DockState<TreeTab>,
}

impl Default for EditorTabs {
    /// A dock without tabs.
    fn default() -> (r: EditorTabs)
        ensures
            dock_tabs(r.state) == Seq::<u64>::empty(),
    {
        EditorTabs { state: dock_new_empty() }
    }
}

impl EditorTabs {
    /// The entities of the tabs, in the dock's traversal order.
    pub fn tab_entities(&self) -> (v: Vec<u64>)
        ensures
            v@ == dock_tabs(self.state),
    {
        dock_tab_list(&self.state)
    }

    /// Reconciles the dock with the live window entities: tabs of dead
    /// windows go, and every live window without a tab gets one, so the
    /// dock ends up with the kept tabs plus the missing ones.
    pub fn sync(&mut self, live: &Vec<u64>)
        ensures
            dock_tabs(final(self).state).to_multiset() == kept_tabs(
                dock_tabs(old(self).state),
                live@,
            ).to_multiset().add(missing_tabs(live@, dock_tabs(old(self).state)).to_multiset()),
    {
        let ghost orig = dock_tabs(self.state);
        let present = dock_tab_list(&self.state);
        dock_retain_live(&mut self.state, live);
        let ghost kept = kept_tabs(orig, live@);
        let n = live.len();
        let mut i: usize = 0;
        proof {
            assert(live@.subrange(0, 0).filter(|e: u64| !orig.contains(e)) =~= Seq::<u64>::empty())
                by {
                reveal(Seq::filter);
            }
            assert(dock_tabs(self.state).to_multiset() =~= kept.to_multiset().add(
                Seq::<u64>::empty().to_multiset(),
            )) by {
                assert(Seq::<u64>::empty().to_multiset() =~= Multiset::<u64>::empty());
            }
        }
        while i < n
            invariant
                n == live@.len(),
                0 <= i <= n,
                present@ == orig,
                dock_tabs(self.state).to_multiset() == kept.to_multiset().add(
                    missing_tabs(live@.subrange(0, i as int), orig).to_multiset(),
                ),
            decreases n - i,
        {
            let ghost pref = live@.subrange(0, i as int);
            let e = live[i];
            proof {
                assert(live@.subrange(0, i + 1) =~= pref.push(e));
                lemma_filter_push(pref, |x: u64| !orig.contains(x), e);
            }
            if !contains_id(&present, e) {
                dock_push(&mut self.state, TreeTab { entity: e });
                proof {
                    assert(missing_tabs(pref.push(e), orig) == missing_tabs(pref, orig).push(e));
                    assert(missing_tabs(pref, orig).push(e).to_multiset() =~= missing_tabs(
                        pref,
                        orig,
                    ).to_multiset().insert(e));
                    assert(kept.to_multiset().add(missing_tabs(pref, orig).to_multiset().insert(e))
                        =~= kept.to_multiset().add(missing_tabs(pref, orig).to_multiset()).insert(
                        e,
                    ));
                }
            } else {
                proof {
                    assert(missing_tabs(pref.push(e), orig) == missing_tabs(pref, orig));
                }
            }
            i = i + 1;
        }
        proof {
            assert(live@.subrange(0, n as int) =~= live@);
        }
    }
}

} // verus!
