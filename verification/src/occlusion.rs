//! The regions of a window that take the pointer.
//!
//! A panel that covers the screen lets the pointer through except where its
//! page has registered a region. Regions are kept per window and per name.
//! The type of a region is left to the caller.

use vstd::prelude::*;

verus! {

/// The window and the name that an entry is registered under.
pub open spec fn spec_entry_key<B>(entry: (String, String, B)) -> (Seq<char>, Seq<char>) {
    (entry.0@, entry.1@)
}

/// Some entry is registered under `key`.
pub open spec fn spec_has_key<B>(entries: Seq<(String, String, B)>, key: (Seq<char>, Seq<char>)) -> bool {
    exists|i: int| 0 <= i < entries.len() && spec_entry_key(#[trigger] entries[i]) == key
}

/// The place of an entry that is registered under `key`.
pub open spec fn spec_index_of_key<B>(entries: Seq<(String, String, B)>, key: (Seq<char>, Seq<char>)) -> int {
    choose|i: int| 0 <= i < entries.len() && spec_entry_key(#[trigger] entries[i]) == key
}

/// No two entries are registered under the same window and name.
pub open spec fn spec_keys_distinct<B>(entries: Seq<(String, String, B)>) -> bool {
    forall|i: int, j: int|
        0 <= i < j < entries.len() ==> spec_entry_key(#[trigger] entries[i]) != spec_entry_key(
            #[trigger] entries[j],
        )
}

/// The regions by window and name.
pub open spec fn spec_bounds<B>(entries: Seq<(String, String, B)>) -> Map<(Seq<char>, Seq<char>), B> {
    Map::new(
        |key: (Seq<char>, Seq<char>)| spec_has_key(entries, key),
        |key: (Seq<char>, Seq<char>)| entries[spec_index_of_key(entries, key)].2,
    )
}

proof fn lemma_entry_is_found<B>(entries: Seq<(String, String, B)>, i: int)
    requires
        spec_keys_distinct(entries),
        0 <= i < entries.len(),
    ensures
        spec_has_key(entries, spec_entry_key(entries[i])),
        spec_index_of_key(entries, spec_entry_key(entries[i])) == i,
        spec_bounds(entries).contains_key(spec_entry_key(entries[i])),
        spec_bounds(entries)[spec_entry_key(entries[i])] == entries[i].2,
{
    let key = spec_entry_key(entries[i]);
    let j = spec_index_of_key(entries, key);
    assert(0 <= j < entries.len() && spec_entry_key(entries[j]) == key);
    if j < i {
        assert(spec_entry_key(entries[j]) != spec_entry_key(entries[i]));
    } else if i < j {
        assert(spec_entry_key(entries[i]) != spec_entry_key(entries[j]));
    }
}

proof fn lemma_replace<B>(before: Seq<(String, String, B)>, i: int, entry: (String, String, B))
    requires
        spec_keys_distinct(before),
        0 <= i < before.len(),
        spec_entry_key(entry) == spec_entry_key(before[i]),
    ensures
        spec_keys_distinct(before.update(i, entry)),
        spec_bounds(before.update(i, entry)) == spec_bounds(before).insert(
            spec_entry_key(entry),
            entry.2,
        ),
{
    let after = before.update(i, entry);
    let key = spec_entry_key(entry);
    assert forall|a: int| 0 <= a < before.len() implies spec_entry_key(#[trigger] after[a])
        == spec_entry_key(before[a]) by {}
    assert(spec_keys_distinct(after)) by {
        assert forall|a: int, b: int| 0 <= a < b < after.len() implies spec_entry_key(
            #[trigger] after[a],
        ) != spec_entry_key(#[trigger] after[b]) by {
            assert(spec_entry_key(before[a]) != spec_entry_key(before[b]));
        }
    }
    let expected = spec_bounds(before).insert(key, entry.2);
    assert forall|k: (Seq<char>, Seq<char>)| spec_bounds(after).contains_key(k)
        == expected.contains_key(k) by {
        if spec_has_key(after, k) {
            let a = spec_index_of_key(after, k);
            assert(spec_entry_key(before[a]) == k);
        }
        if spec_has_key(before, k) {
            let a = spec_index_of_key(before, k);
            assert(spec_entry_key(after[a]) == k);
        }
        if k == key {
            assert(spec_entry_key(after[i]) == k);
        }
    }
    assert forall|k: (Seq<char>, Seq<char>)| spec_bounds(after).contains_key(k) implies spec_bounds(
        after,
    )[k] == expected[k] by {
        let a = spec_index_of_key(after, k);
        lemma_entry_is_found(after, a);
        if a != i {
            assert(spec_entry_key(before[a]) == k);
            lemma_entry_is_found(before, a);
        }
    }
    assert(spec_bounds(after) =~= expected);
}

proof fn lemma_append<B>(before: Seq<(String, String, B)>, entry: (String, String, B))
    requires
        spec_keys_distinct(before),
        !spec_has_key(before, spec_entry_key(entry)),
    ensures
        spec_keys_distinct(before.push(entry)),
        spec_bounds(before.push(entry)) == spec_bounds(before).insert(spec_entry_key(entry), entry.2),
{
    let after = before.push(entry);
    let key = spec_entry_key(entry);
    let last = before.len() as int;
    assert forall|a: int| 0 <= a < before.len() implies #[trigger] after[a] == before[a] by {}
    assert(spec_keys_distinct(after)) by {
        assert forall|a: int, b: int| 0 <= a < b < after.len() implies spec_entry_key(
            #[trigger] after[a],
        ) != spec_entry_key(#[trigger] after[b]) by {
            if b < last {
                assert(spec_entry_key(before[a]) != spec_entry_key(before[b]));
            } else {
                assert(after[a] == before[a]);
                if spec_entry_key(before[a]) == key {
                    assert(spec_has_key(before, key));
                }
            }
        }
    }
    let expected = spec_bounds(before).insert(key, entry.2);
    assert forall|k: (Seq<char>, Seq<char>)| spec_bounds(after).contains_key(k)
        == expected.contains_key(k) by {
        if spec_has_key(after, k) {
            let a = spec_index_of_key(after, k);
            if a < last {
                assert(spec_entry_key(before[a]) == k);
            }
        }
        if spec_has_key(before, k) {
            let a = spec_index_of_key(before, k);
            assert(spec_entry_key(after[a]) == k);
        }
        if k == key {
            assert(spec_entry_key(after[last]) == k);
        }
    }
    assert forall|k: (Seq<char>, Seq<char>)| spec_bounds(after).contains_key(k) implies spec_bounds(
        after,
    )[k] == expected[k] by {
        let a = spec_index_of_key(after, k);
        lemma_entry_is_found(after, a);
        if a < last {
            assert(spec_entry_key(before[a]) == k);
            lemma_entry_is_found(before, a);
        }
    }
    assert(spec_bounds(after) =~= expected);
}

proof fn lemma_remove<B>(before: Seq<(String, String, B)>, i: int)
    requires
        spec_keys_distinct(before),
        0 <= i < before.len(),
    ensures
        spec_keys_distinct(before.remove(i)),
        spec_bounds(before.remove(i)) == spec_bounds(before).remove(spec_entry_key(before[i])),
{
    let after = before.remove(i);
    let key = spec_entry_key(before[i]);
    before.remove_ensures(i);
    assert forall|a: int| 0 <= a < after.len() implies #[trigger] after[a] == before[if a < i {
        a
    } else {
        a + 1
    }] by {}
    assert(spec_keys_distinct(after)) by {
        assert forall|a: int, b: int| 0 <= a < b < after.len() implies spec_entry_key(
            #[trigger] after[a],
        ) != spec_entry_key(#[trigger] after[b]) by {
            let a0 = if a < i { a } else { a + 1 };
            let b0 = if b < i { b } else { b + 1 };
            assert(spec_entry_key(before[a0]) != spec_entry_key(before[b0]));
        }
    }
    let expected = spec_bounds(before).remove(key);
    assert forall|k: (Seq<char>, Seq<char>)| spec_bounds(after).contains_key(k)
        == expected.contains_key(k) by {
        if spec_has_key(after, k) {
            let a = spec_index_of_key(after, k);
            let a0 = if a < i { a } else { a + 1 };
            assert(spec_entry_key(before[a0]) == k);
            lemma_entry_is_found(before, a0);
            lemma_entry_is_found(before, i);
        }
        if spec_has_key(before, k) && k != key {
            let a0 = spec_index_of_key(before, k);
            let a = if a0 < i { a0 } else { a0 - 1 };
            assert(after[a] == before[a0]);
            assert(spec_entry_key(after[a]) == k);
        }
    }
    assert forall|k: (Seq<char>, Seq<char>)| spec_bounds(after).contains_key(k) implies spec_bounds(
        after,
    )[k] == expected[k] by {
        let a = spec_index_of_key(after, k);
        lemma_entry_is_found(after, a);
        let a0 = if a < i { a } else { a + 1 };
        assert(spec_entry_key(before[a0]) == k);
        lemma_entry_is_found(before, a0);
    }
    assert(spec_bounds(after) =~= expected);
}

/// Looks for the entry of `window` and `name`.
fn find_entry<B>(entries: &Vec<(String, String, B)>, window: &String, name: &String) -> (found: Option<usize>)
    ensures
        match found {
            Some(i) => i < entries.len() && spec_entry_key(entries@[i as int]) == (window@, name@),
            None => !spec_has_key(entries@, (window@, name@)),
        },
{
    let mut i: usize = 0;
    while i < entries.len()
        invariant
            i <= entries.len(),
            forall|j: int| 0 <= j < i ==> spec_entry_key(#[trigger] entries@[j]) != (window@, name@),
        decreases entries.len() - i,
    {
        if entries[i].0 == *window && entries[i].1 == *name {
            return Some(i);
        }
        i += 1;
    }
    None
}

/// The regions that take the pointer, by window and by name.
pub struct FakeWindowBounds<B> {
    entries: Vec<(String, String, B)>,
}

impl<B> View for FakeWindowBounds<B> {
    type V = Map<(Seq<char>, Seq<char>), B>;

    closed spec fn view(&self) -> Map<(Seq<char>, Seq<char>), B> {
        spec_bounds(self.entries@)
    }
}

impl<B> FakeWindowBounds<B> {
    #[verifier::type_invariant]
    spec fn keys_are_distinct(self) -> bool {
        spec_keys_distinct(self.entries@)
    }

    pub fn new() -> (bounds: Self)
        ensures
            bounds@ == Map::<(Seq<char>, Seq<char>), B>::empty(),
    {
        let bounds = FakeWindowBounds { entries: Vec::new() };
        assert(bounds@ =~= Map::<(Seq<char>, Seq<char>), B>::empty());
        bounds
    }

    /// Registers `bounds` under `name` for `window`, in place of what was
    /// registered under that name before.
    pub fn set(&mut self, window: String, name: String, bounds: B)
        ensures
            final(self)@ == old(self)@.insert((window@, name@), bounds),
    {
        proof {
            use_type_invariant(&*self);
        }
        let mut entries: Vec<(String, String, B)> = Vec::new();
        std::mem::swap(&mut entries, &mut self.entries);
        let ghost before = entries@;
        match find_entry(&entries, &window, &name) {
            Some(i) => {
                let entry = (window, name, bounds);
                proof {
                    lemma_replace(before, i as int, entry);
                }
                entries.set(i, entry);
            },
            None => {
                let entry = (window, name, bounds);
                proof {
                    lemma_append(before, entry);
                }
                entries.push(entry);
            },
        }
        self.entries = entries;
    }

    /// Removes what is registered under `name` for `window`, if anything.
    pub fn remove(&mut self, window: &String, name: &String)
        ensures
            final(self)@ == old(self)@.remove((window@, name@)),
    {
        proof {
            use_type_invariant(&*self);
        }
        let mut entries: Vec<(String, String, B)> = Vec::new();
        std::mem::swap(&mut entries, &mut self.entries);
        let ghost before = entries@;
        match find_entry(&entries, window, name) {
            Some(i) => {
                proof {
                    lemma_remove(before, i as int);
                }
                entries.remove(i);
            },
            None => {
                assert(spec_bounds(before).remove((window@, name@)) =~= spec_bounds(before));
            },
        }
        self.entries = entries;
    }
}

impl<B: Copy> FakeWindowBounds<B> {
    /// What is registered under `name` for `window`.
    pub fn get(&self, window: &String, name: &String) -> (bounds: Option<B>)
        ensures
            bounds == if self@.contains_key((window@, name@)) {
                Some(self@[(window@, name@)])
            } else {
                None
            },
    {
        proof {
            use_type_invariant(self);
        }
        match find_entry(&self.entries, window, name) {
            Some(i) => {
                proof {
                    lemma_entry_is_found(self.entries@, i as int);
                }
                Some(self.entries[i].2)
            },
            None => None,
        }
    }

    /// The regions of `window`: each region that is registered for it under
    /// some name, and nothing else.
    pub fn bounds_of(&self, window: &String) -> (regions: Vec<B>)
        ensures
            forall|region: B|
                regions@.contains(region) <==> exists|name: Seq<char>|
                    self@.contains_key((window@, name)) && #[trigger] self@[(window@, name)]
                        == region,
    {
        proof {
            use_type_invariant(self);
        }
        let mut regions: Vec<B> = Vec::new();
        let mut i: usize = 0;
        while i < self.entries.len()
            invariant
                i <= self.entries.len(),
                spec_keys_distinct(self.entries@),
                forall|region: B|
                    regions@.contains(region) <==> exists|j: int|
                        0 <= j < i && (#[trigger] self.entries@[j]).0@ == window@
                            && self.entries@[j].2 == region,
            decreases self.entries.len() - i,
        {
            let ghost before = regions@;
            if self.entries[i].0 == *window {
                regions.push(self.entries[i].2);
                proof {
                    let added = self.entries@[i as int].2;
                    assert(regions@[before.len() as int] == added);
                    assert forall|region: B| regions@.contains(region) implies exists|j: int|
                        0 <= j < i + 1 && (#[trigger] self.entries@[j]).0@ == window@
                            && self.entries@[j].2 == region by {
                        let at = choose|at: int| 0 <= at < regions@.len() && regions@[at] == region;
                        if at < before.len() {
                            assert(before[at] == region);
                            assert(before.contains(region));
                        } else {
                            assert(self.entries@[i as int].2 == region);
                        }
                    }
                    assert forall|region: B|
                        (exists|j: int|
                            0 <= j < i + 1 && (#[trigger] self.entries@[j]).0@ == window@
                                && self.entries@[j].2 == region) implies regions@.contains(
                        region,
                    ) by {
                        let j = choose|j: int|
                            0 <= j < i + 1 && (#[trigger] self.entries@[j]).0@ == window@
                                && self.entries@[j].2 == region;
                        if j < i {
                            assert(before.contains(region));
                            let at = choose|at: int| 0 <= at < before.len() && before[at] == region;
                            assert(regions@[at] == region);
                        } else {
                            assert(regions@[before.len() as int] == region);
                        }
                    }
                }
            }
            i += 1;
        }
        proof {
            let entries = self.entries@;
            assert forall|region: B| regions@.contains(region) implies exists|name: Seq<char>|
                self@.contains_key((window@, name)) && #[trigger] self@[(window@, name)]
                    == region by {
                let j = choose|j: int|
                    0 <= j < entries.len() && (#[trigger] entries[j]).0@ == window@ && entries[j].2
                        == region;
                lemma_entry_is_found(entries, j);
                let name = entries[j].1@;
                assert(self@.contains_key((window@, name)) && self@[(window@, name)] == region);
            }
            assert forall|region: B|
                (exists|name: Seq<char>|
                    self@.contains_key((window@, name)) && #[trigger] self@[(window@, name)]
                        == region) implies regions@.contains(region) by {
                let name = choose|name: Seq<char>|
                    self@.contains_key((window@, name)) && #[trigger] self@[(window@, name)]
                        == region;
                let j = spec_index_of_key(entries, (window@, name));
                assert(spec_entry_key(entries[j]) == (window@, name));
                assert(entries[j].0@ == window@ && entries[j].2 == region);
            }
        }
        regions
    }
}

} // verus!
