//! The ignore list: applications where Vietnamese input is off.
//!
//! What a user saved is merged with the platform's shipped defaults at load:
//! the effective list is `saved ∪ (defaults − removed)`, where `removed` holds
//! the shipped defaults the user deliberately took off (their tombstones). A
//! new release's defaults therefore reach an old settings file, and a default
//! the user removed is never brought back.
use vstd::prelude::*;

use crate::order::{insert_sorted, lemma_remove_keeps_sorted, lemma_sorted_no_duplicates, strictly_sorted};
use crate::settings::{Settings, strings_view};

verus! {

/// The position of `s` in `v`, if it is there.
pub fn position(v: &Vec<String>, s: &str) -> (r: Option<usize>)
    ensures
        match r {
            Some(i) => i < v@.len() && strings_view(v@)[i as int] == s@,
            None => !strings_view(v@).contains(s@),
        },
{
    for i in 0..v.len()
        invariant
            forall|k: int| 0 <= k < i ==> v@[k]@ != s@,
    {
        if crate::text::str_eq(v[i].as_str(), s) {
            return Some(i);
        }
    }
    assert forall|k: int| 0 <= k < strings_view(v@).len() implies strings_view(v@)[k] != s@ by {
        assert(strings_view(v@)[k] == v@[k]@);
    }
    None
}

/// Appends `s` unless it is already there.
pub fn insert_unique(v: &mut Vec<String>, s: &str)
    requires
        strings_view(old(v)@).no_duplicates(),
    ensures
        strings_view(final(v)@).no_duplicates(),
        forall|x: Seq<char>| #[trigger] strings_view(final(v)@).contains(x) <==> (strings_view(
            old(v)@,
        ).contains(x) || x == s@),
{
    match position(v, s) {
        Some(i) => {
            assert(strings_view(v@).contains(s@));
        },
        None => {
            let ghost before = strings_view(v@);
            v.push(s.to_owned());
            assert(strings_view(v@) =~= before.push(s@));
            assert forall|x: Seq<char>| #[trigger] strings_view(v@).contains(x) <==> (before.contains(x)
                || x == s@) by {
                if strings_view(v@).contains(x) {
                    let k = choose|k: int| 0 <= k < strings_view(v@).len() && #[trigger] strings_view(v@)[k] == x;
                    if k < before.len() {
                        assert(before[k] == x);
                    }
                }
                if before.contains(x) {
                    let k = choose|k: int| 0 <= k < before.len() && #[trigger] before[k] == x;
                    assert(strings_view(v@)[k] == x);
                }
                if x == s@ {
                    assert(strings_view(v@)[before.len() as int] == x);
                }
            }
        },
    }
}

/// Takes `s` out of `v`, if it is there.
pub fn remove_value(v: &mut Vec<String>, s: &str)
    requires
        strings_view(old(v)@).no_duplicates(),
    ensures
        strings_view(final(v)@).no_duplicates(),
        forall|x: Seq<char>| #[trigger] strings_view(final(v)@).contains(x) <==> (strings_view(
            old(v)@,
        ).contains(x) && x != s@),
        strictly_sorted(strings_view(old(v)@)) ==> strictly_sorted(strings_view(final(v)@)),
{
    match position(v, s) {
        Some(i) => {
            let ghost before = strings_view(v@);
            v.remove(i);
            assert(strings_view(v@) =~= before.remove(i as int));
            proof {
                if strictly_sorted(before) {
                    lemma_remove_keeps_sorted(before, i as int);
                }
            }
            assert forall|x: Seq<char>| #[trigger] strings_view(v@).contains(x) <==> (before.contains(x)
                && x != s@) by {
                if strings_view(v@).contains(x) {
                    let k = choose|k: int| 0 <= k < strings_view(v@).len() && #[trigger] strings_view(v@)[k] == x;
                    if k < i {
                        assert(before[k] == x);
                    } else {
                        assert(before[k + 1] == x);
                    }
                }
                if before.contains(x) && x != s@ {
                    let k = choose|k: int| 0 <= k < before.len() && #[trigger] before[k] == x;
                    if k < i {
                        assert(strings_view(v@)[k] == x);
                    } else {
                        assert(k != i);
                        assert(strings_view(v@)[k - 1] == x);
                    }
                }
            }
        },
        None => {},
    }
}

/// The effective ignore list, with the tombstones of removed shipped
/// defaults and the defaults themselves.
#[derive(Debug)]
pub struct ExclusionList {
    ids: Vec<String>,
    removed: Vec<String>,
    defaults: Vec<String>,
}

/// The effective list `saved ∪ (defaults − removed)` as a membership test.
pub open spec fn merged(saved: Seq<Seq<char>>, removed: Seq<Seq<char>>, defaults: Seq<Seq<char>>, id: Seq<char>) -> bool {
    saved.contains(id) || (defaults.contains(id) && !removed.contains(id))
}

impl ExclusionList {
    /// The excluded identities.
    pub closed spec fn spec_ids(&self) -> Seq<Seq<char>> {
        strings_view(self.ids@)
    }

    /// The tombstones: shipped defaults the user removed.
    pub closed spec fn spec_removed(&self) -> Seq<Seq<char>> {
        strings_view(self.removed@)
    }

    /// The platform's shipped defaults.
    pub closed spec fn spec_defaults(&self) -> Seq<Seq<char>> {
        strings_view(self.defaults@)
    }

    /// Whether `id` is excluded.
    pub open spec fn excludes(&self, id: Seq<char>) -> bool {
        self.spec_ids().contains(id)
    }

    /// Both lists are in order, each identity once, and every shipped default
    /// is either on the list or tombstoned.
    pub closed spec fn wf(&self) -> bool {
        &&& strictly_sorted(strings_view(self.ids@))
        &&& strictly_sorted(strings_view(self.removed@))
        &&& forall|x: Seq<char>| #[trigger] strings_view(self.defaults@).contains(x) ==> strings_view(self.ids@).contains(x)
            || strings_view(self.removed@).contains(x)
    }

    /// The effective list for a saved exclusion list and its tombstones, over
    /// the platform's shipped `defaults`.
    pub fn from_saved(saved: &Vec<String>, removed: &Vec<String>, defaults: &Vec<&str>) -> (r: Self)
        ensures
            r.wf(),
            forall|id: Seq<char>| #[trigger] r.spec_ids().contains(id) <==> merged(
                strings_view(saved@),
                strings_view(removed@),
                defaults@.map_values(|s: &str| s@),
                id,
            ),
            forall|id: Seq<char>| #[trigger] r.spec_removed().contains(id) <==> strings_view(removed@).contains(id),
            r.spec_defaults() == defaults@.map_values(|s: &str| s@),
    {
        let ghost sv = strings_view(saved@);
        let ghost rv = strings_view(removed@);
        let ghost dv = defaults@.map_values(|s: &str| s@);
        let mut ids: Vec<String> = Vec::new();
        for i in 0..saved.len()
            invariant
                sv == strings_view(saved@),
                strictly_sorted(strings_view(ids@)),
                forall|x: Seq<char>| #[trigger] strings_view(ids@).contains(x) <==> sv.take(i as int).contains(x),
        {
            insert_sorted(&mut ids, saved[i].as_str());
            assert forall|x: Seq<char>| #[trigger] strings_view(ids@).contains(x) <==> sv.take(i + 1).contains(x) by {
                if sv.take(i + 1).contains(x) {
                    let k = choose|k: int| 0 <= k < i + 1 && #[trigger] sv.take(i + 1)[k] == x;
                    if k < i {
                        assert(sv.take(i as int)[k] == x);
                    }
                }
                if sv.take(i as int).contains(x) {
                    let k = choose|k: int| 0 <= k < i && #[trigger] sv.take(i as int)[k] == x;
                    assert(sv.take(i + 1)[k] == x);
                }
                if x == saved@[i as int]@ {
                    assert(sv.take(i + 1)[i as int] == x);
                }
            }
        }
        assert(sv.take(saved.len() as int) =~= sv);
        let mut tombs: Vec<String> = Vec::new();
        for i in 0..removed.len()
            invariant
                rv == strings_view(removed@),
                strictly_sorted(strings_view(tombs@)),
                forall|x: Seq<char>| #[trigger] strings_view(tombs@).contains(x) <==> rv.take(i as int).contains(x),
        {
            insert_sorted(&mut tombs, removed[i].as_str());
            assert forall|x: Seq<char>| #[trigger] strings_view(tombs@).contains(x) <==> rv.take(i + 1).contains(x) by {
                if rv.take(i + 1).contains(x) {
                    let k = choose|k: int| 0 <= k < i + 1 && #[trigger] rv.take(i + 1)[k] == x;
                    if k < i {
                        assert(rv.take(i as int)[k] == x);
                    }
                }
                if rv.take(i as int).contains(x) {
                    let k = choose|k: int| 0 <= k < i && #[trigger] rv.take(i as int)[k] == x;
                    assert(rv.take(i + 1)[k] == x);
                }
                if x == removed@[i as int]@ {
                    assert(rv.take(i + 1)[i as int] == x);
                }
            }
        }
        assert(rv.take(removed.len() as int) =~= rv);
        let mut owned: Vec<String> = Vec::new();
        assert(dv.take(0) =~= Seq::<Seq<char>>::empty());
        assert(strings_view(owned@) =~= Seq::<Seq<char>>::empty());
        for i in 0..defaults.len()
            invariant
                sv == strings_view(saved@),
                rv == strings_view(removed@),
                dv == defaults@.map_values(|s: &str| s@),
                strings_view(owned@) == dv.take(i as int),
                strictly_sorted(strings_view(tombs@)),
                forall|x: Seq<char>| #[trigger] strings_view(tombs@).contains(x) <==> rv.contains(x),
                strictly_sorted(strings_view(ids@)),
                forall|x: Seq<char>| #[trigger] strings_view(ids@).contains(x) <==> (sv.contains(x) || (
                dv.take(i as int).contains(x) && !rv.contains(x))),
        {
            let d = defaults[i];
            assert(dv[i as int] == d@);
            let ghost before = owned@;
            let od = d.to_owned();
            owned.push(od);
            assert(strings_view(owned@) =~= strings_view(before).push(d@));
            assert(strings_view(owned@) =~= dv.take(i + 1));
            let ghost ids_before = strings_view(ids@);
            let tomb = position(&tombs, d);
            if tomb.is_none() {
                assert(!rv.contains(d@));
                insert_sorted(&mut ids, d);
            } else {
                assert(strings_view(tombs@).contains(d@));
                assert(rv.contains(d@));
            }
            assert forall|x: Seq<char>| #[trigger] strings_view(ids@).contains(x) <==> (sv.contains(x) || (
            dv.take(i + 1).contains(x) && !rv.contains(x))) by {
                if dv.take(i + 1).contains(x) {
                    let k = choose|k: int| 0 <= k < i + 1 && #[trigger] dv.take(i + 1)[k] == x;
                    if k < i {
                        assert(dv.take(i as int)[k] == x);
                    }
                }
                if dv.take(i as int).contains(x) {
                    let k = choose|k: int| 0 <= k < i && #[trigger] dv.take(i as int)[k] == x;
                    assert(dv.take(i + 1)[k] == x);
                }
                assert(dv[i as int] == d@);
                if x == d@ {
                    assert(dv.take(i + 1)[i as int] == x);
                }
            }
        }
        assert(dv.take(defaults.len() as int) =~= dv);
        ExclusionList { ids, removed: tombs, defaults: owned }
    }

    /// Whether `id` is on the list.
    pub fn is_excluded(&self, id: &str) -> (r: bool)
        ensures
            r == self.excludes(id@),
    {
        position(&self.ids, id).is_some()
    }

    /// Adds `id` (idempotent). A tombstone for it stays recorded and is
    /// harmless: presence on the list always wins over it.
    pub fn add(&mut self, id: &str)
        requires
            old(self).wf(),
        ensures
            final(self).wf(),
            forall|x: Seq<char>| #[trigger] final(self).spec_ids().contains(x) <==> (old(self).spec_ids().contains(x) || x == id@),
            final(self).spec_removed() == old(self).spec_removed(),
            final(self).spec_defaults() == old(self).spec_defaults(),
    {
        insert_sorted(&mut self.ids, id);
    }

    /// Removes `id`. Removing a shipped default records its tombstone, so a
    /// later release does not bring it back.
    pub fn remove(&mut self, id: &str)
        requires
            old(self).wf(),
        ensures
            final(self).wf(),
            forall|x: Seq<char>| #[trigger] final(self).spec_ids().contains(x) <==> (old(self).spec_ids().contains(x) && x != id@),
            forall|x: Seq<char>| #[trigger] final(self).spec_removed().contains(x) <==> (old(
                self,
            ).spec_removed().contains(x) || (x == id@ && old(self).spec_defaults().contains(id@))),
            final(self).spec_defaults() == old(self).spec_defaults(),
    {
        proof {
            lemma_sorted_no_duplicates(strings_view(self.ids@));
        }
        remove_value(&mut self.ids, id);
        if position(&self.defaults, id).is_some() {
            insert_sorted(&mut self.removed, id);
        }
    }

    /// The excluded identities, each once, in order.
    pub fn ids(&self) -> (r: Vec<String>)
        ensures
            strings_view(r@) == self.spec_ids(),
            self.wf() ==> strictly_sorted(self.spec_ids()),
    {
        crate::settings::copy_strings(&self.ids)
    }

    /// The tombstones of removed shipped defaults, each once, in order.
    pub fn removed_default_ids(&self) -> (r: Vec<String>)
        ensures
            strings_view(r@) == self.spec_removed(),
            self.wf() ==> strictly_sorted(self.spec_removed()),
    {
        crate::settings::copy_strings(&self.removed)
    }
}

impl Settings {
    /// The effective ignore list: the saved ids merged with every shipped
    /// default (of the platform's `defaults`) the user has not removed.
    pub fn exclusion_list(&self, defaults: &Vec<&str>) -> (r: ExclusionList)
        ensures
            r.wf(),
            forall|id: Seq<char>| #[trigger] r.spec_ids().contains(id) <==> merged(
                self@.exclusions,
                self@.removed_default_exclusions,
                defaults@.map_values(|s: &str| s@),
                id,
            ),
    {
        ExclusionList::from_saved(&self.exclusions, &self.removed_default_exclusions, defaults)
    }
}

/// What a list writes to the settings file reloads as the same list: its ids
/// and tombstones, merged again with the same defaults, exclude exactly what
/// it excludes.
pub proof fn a_saved_list_reloads_the_same(list: ExclusionList, id: Seq<char>)
    requires
        list.wf(),
    ensures
        merged(list.spec_ids(), list.spec_removed(), list.spec_defaults(), id) == list.excludes(id),
{
}

/// The list keeps its identities, and its tombstones, in order and each
/// once, whatever order they were saved or added in.
pub proof fn the_list_stays_in_order(list: ExclusionList)
    requires
        list.wf(),
    ensures
        strictly_sorted(list.spec_ids()),
        strictly_sorted(list.spec_removed()),
        list.spec_ids().no_duplicates(),
        list.spec_removed().no_duplicates(),
{
    lemma_sorted_no_duplicates(list.spec_ids());
    lemma_sorted_no_duplicates(list.spec_removed());
}

/// A default the user removed stays out when a file is loaded, unless the
/// file itself lists it.
pub proof fn a_removed_default_is_not_resurrected(saved: Seq<Seq<char>>, removed: Seq<Seq<char>>, defaults: Seq<Seq<char>>, id: Seq<char>)
    requires
        removed.contains(id),
        !saved.contains(id),
    ensures
        !merged(saved, removed, defaults, id),
{
}

} // verus!
