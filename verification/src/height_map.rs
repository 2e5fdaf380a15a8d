//! Directories keyed and ordered by height.
//!
//! A height map is a sequence of entries with strictly ascending heights.
//! Entering a height that is already present replaces the entry, so of
//! several directories with one height the one entered last stays.

use vstd::prelude::*;

verus! {

/// A directory together with the height it is filed under.
#[derive(Debug, PartialEq, Eq)]
pub struct HeightEntry {
    pub height: u64,
    pub name: String,
}

/// Mathematical model of an entry.
pub struct EntryModel {
    pub height: u64,
    pub name: Seq<char>,
}

impl DeepView for HeightEntry {
    type V = EntryModel;

    open spec fn deep_view(&self) -> EntryModel {
        EntryModel { height: self.height, name: self.name@ }
    }
}

impl Clone for HeightEntry {
    fn clone(&self) -> (copy: Self)
        ensures
            copy.deep_view() == self.deep_view(),
    {
        HeightEntry { height: self.height, name: self.name.clone() }
    }
}

/// Whether the heights of a sequence of entries ascend strictly.
pub open spec fn ascending(map: Seq<EntryModel>) -> bool {
    forall|i: int, j: int| 0 <= i < j < map.len() ==> map[i].height < map[j].height
}

/// Whether some entry of the sequence has the given height.
pub open spec fn has_height(map: Seq<EntryModel>, height: u64) -> bool {
    exists|i: int| 0 <= i < map.len() && #[trigger] map[i].height == height
}

/// A height map with one more entry entered: the entry takes the place
/// that its height gives it, and replaces an entry of the same height.
pub open spec fn inserted(map: Seq<EntryModel>, entry: EntryModel) -> Seq<EntryModel>
    decreases map.len(),
{
    if map.len() == 0 {
        seq![entry]
    } else if map.last().height < entry.height {
        map.push(entry)
    } else if map.last().height == entry.height {
        map.drop_last().push(entry)
    } else {
        inserted(map.drop_last(), entry).push(map.last())
    }
}

/// The height map that results from entering the entries of a listing one
/// after the other.
pub open spec fn height_map(listing: Seq<EntryModel>) -> Seq<EntryModel>
    decreases listing.len(),
{
    if listing.len() == 0 {
        Seq::empty()
    } else {
        inserted(height_map(listing.drop_last()), listing.last())
    }
}

/// The largest height among the entries, or zero when there is none.
pub open spec fn max_entry_height(entries: Seq<EntryModel>) -> u64
    decreases entries.len(),
{
    if entries.len() == 0 {
        0
    } else {
        let rest = max_entry_height(entries.drop_last());
        if entries.last().height > rest {
            entries.last().height
        } else {
            rest
        }
    }
}

/// Entering an entry at the place `at`, before which all heights are
/// smaller and from which on none is: the entry replaces the one at that
/// place if it has the same height, and is put in before it otherwise.
pub proof fn lemma_inserted_at(map: Seq<EntryModel>, entry: EntryModel, at: int)
    requires
        ascending(map),
        0 <= at <= map.len(),
        forall|i: int| 0 <= i < at ==> map[i].height < entry.height,
        forall|i: int| at <= i < map.len() ==> map[i].height >= entry.height,
    ensures
        inserted(map, entry) == if at < map.len() && map[at].height == entry.height {
            map.update(at, entry)
        } else {
            map.insert(at, entry)
        },
    decreases map.len(),
{
    if map.len() == 0 {
        assert(seq![entry] =~= map.insert(at, entry));
    } else if map.last().height < entry.height {
        assert(at == map.len());
        assert(map.push(entry) =~= map.insert(at, entry));
    } else if map.last().height == entry.height {
        if at < map.len() - 1 {
            assert(map[at].height < map[map.len() - 1].height);
        }
        assert(at == map.len() - 1);
        assert(map.drop_last().push(entry) =~= map.update(at, entry));
    } else {
        let front = map.drop_last();
        lemma_inserted_at(front, entry, at);
        if at < front.len() && front[at].height == entry.height {
            assert(front.update(at, entry).push(map.last()) =~= map.update(at, entry));
        } else {
            assert(front.insert(at, entry).push(map.last()) =~= map.insert(at, entry));
        }
    }
}

/// Entering an entry keeps the heights ascending. Afterwards the map holds
/// the new entry and, of the old ones, those of another height; it has
/// grown by one exactly when the height was new.
pub proof fn lemma_inserted(map: Seq<EntryModel>, entry: EntryModel)
    requires
        ascending(map),
    ensures
        ascending(inserted(map, entry)),
        inserted(map, entry).contains(entry),
        forall|e: EntryModel| #[trigger]
            inserted(map, entry).contains(e) ==> (e == entry || (map.contains(e) && e.height
                != entry.height)),
        forall|e: EntryModel| #[trigger]
            map.contains(e) && e.height != entry.height ==> inserted(map, entry).contains(e),
        inserted(map, entry).len() == if has_height(map, entry.height) {
            map.len()
        } else {
            map.len() + 1
        },
    decreases map.len(),
{
    let result = inserted(map, entry);
    if map.len() == 0 {
        assert(result[0] == entry);
        assert forall|e: EntryModel|
            (#[trigger] result.contains(e) ==> (e == entry || (map.contains(e) && e.height
                != entry.height))) && ((#[trigger] map.contains(e) && e.height != entry.height)
                ==> result.contains(e)) by {}
    } else if map.last().height < entry.height {
        assert(result[map.len() as int] == entry);
        assert forall|e: EntryModel|
            (#[trigger] result.contains(e) ==> (e == entry || (map.contains(e) && e.height
                != entry.height))) && ((#[trigger] map.contains(e) && e.height != entry.height)
                ==> result.contains(e)) by {
            if map.contains(e) {
                let i = choose|i: int| 0 <= i < map.len() && map[i] == e;
                assert(result[i] == e);
                if i < map.len() - 1 {
                    assert(map[i].height < map[map.len() - 1].height);
                }
            }
        }
        if has_height(map, entry.height) {
            let i = choose|i: int| 0 <= i < map.len() && #[trigger] map[i].height == entry.height;
            if i < map.len() - 1 {
                assert(map[i].height < map[map.len() - 1].height);
            }
        }
    } else if map.last().height == entry.height {
        let front = map.drop_last();
        assert(result[map.len() - 1] == entry);
        assert forall|i: int, j: int| 0 <= i < j < result.len() implies result[i].height
            < result[j].height by {
            assert(map[i].height < map[j].height);
        }
        assert forall|e: EntryModel|
            (#[trigger] result.contains(e) ==> (e == entry || (map.contains(e) && e.height
                != entry.height))) && ((#[trigger] map.contains(e) && e.height != entry.height)
                ==> result.contains(e)) by {
            if map.contains(e) && e.height != entry.height {
                let i = choose|i: int| 0 <= i < map.len() && map[i] == e;
                assert(result[i] == e);
            }
            if result.contains(e) && e != entry {
                let i = choose|i: int| 0 <= i < result.len() && result[i] == e;
                assert(map[i] == e);
                assert(map[i].height < map[map.len() - 1].height);
            }
        }
        assert(map[map.len() - 1].height == entry.height);
    } else {
        let front = map.drop_last();
        let last = map.last();
        assert(ascending(front)) by {
            assert forall|i: int, j: int| 0 <= i < j < front.len() implies front[i].height
                < front[j].height by {
                assert(map[i].height < map[j].height);
            }
        }
        lemma_inserted(front, entry);
        let inner = inserted(front, entry);
        assert forall|i: int, j: int| 0 <= i < j < result.len() implies result[i].height
            < result[j].height by {
            if j == result.len() - 1 {
                assert(inner.contains(inner[i]));
                if inner[i] != entry {
                    let k = choose|k: int| 0 <= k < front.len() && front[k] == inner[i];
                    assert(map[k].height < map[map.len() - 1].height);
                }
            }
        }
        assert(inner.contains(entry));
        let at = choose|i: int| 0 <= i < inner.len() && inner[i] == entry;
        assert(result[at] == entry);
        assert forall|e: EntryModel|
            (#[trigger] result.contains(e) ==> (e == entry || (map.contains(e) && e.height
                != entry.height))) && ((#[trigger] map.contains(e) && e.height != entry.height)
                ==> result.contains(e)) by {
            if result.contains(e) {
                let i = choose|i: int| 0 <= i < result.len() && result[i] == e;
                if i < inner.len() {
                    assert(inner.contains(e));
                    if e != entry {
                        let k = choose|k: int| 0 <= k < front.len() && front[k] == e;
                        assert(map[k] == e);
                    }
                } else {
                    assert(e == last);
                    assert(map[map.len() - 1] == e);
                }
            }
            if e == entry {
                assert(result.contains(e));
            }
            if map.contains(e) && e.height != entry.height {
                let k = choose|k: int| 0 <= k < map.len() && map[k] == e;
                if k < front.len() {
                    assert(front[k] == e);
                    assert(front.contains(e));
                    assert(inner.contains(e));
                    let i = choose|i: int| 0 <= i < inner.len() && inner[i] == e;
                    assert(result[i] == e);
                } else {
                    assert(result[result.len() - 1] == e);
                }
            }
        }
        if has_height(map, entry.height) {
            let i = choose|i: int| 0 <= i < map.len() && #[trigger] map[i].height == entry.height;
            assert(i < front.len());
            assert(front[i].height == entry.height);
            assert(has_height(front, entry.height));
        } else {
            if has_height(front, entry.height) {
                let i = choose|i: int|
                    0 <= i < front.len() && #[trigger] front[i].height == entry.height;
                assert(map[i].height == entry.height);
            }
        }
    }
}

/// A height map is ascending, and each of its entries is an entry of the
/// listing it was built from.
pub proof fn lemma_height_map(listing: Seq<EntryModel>)
    ensures
        ascending(height_map(listing)),
        height_map(listing).len() <= listing.len(),
        forall|e: EntryModel| height_map(listing).contains(e) ==> listing.contains(e),
        forall|i: int|
            0 <= i < listing.len() ==> has_height(height_map(listing), #[trigger] listing[i].height),
    decreases listing.len(),
{
    if listing.len() > 0 {
        let front = listing.drop_last();
        let last = listing.last();
        lemma_height_map(front);
        lemma_inserted(height_map(front), last);
        let map = height_map(listing);
        assert forall|e: EntryModel| map.contains(e) implies listing.contains(e) by {
            if e == last {
                assert(listing[listing.len() - 1] == e);
            } else {
                assert(front.contains(e));
                let k = choose|k: int| 0 <= k < front.len() && front[k] == e;
                assert(listing[k] == e);
            }
        }
        assert forall|i: int| 0 <= i < listing.len() implies has_height(
            map,
            #[trigger] listing[i].height,
        ) by {
            if i == listing.len() - 1 || listing[i].height == last.height {
                assert(map.contains(last));
                let k = choose|k: int| 0 <= k < map.len() && map[k] == last;
                assert(map[k].height == listing[i].height);
            } else {
                assert(front[i] == listing[i]);
                assert(has_height(height_map(front), front[i].height));
                let k = choose|k: int|
                    0 <= k < height_map(front).len() && #[trigger] height_map(front)[k].height
                        == front[i].height;
                let e = height_map(front)[k];
                assert(height_map(front).contains(e));
                assert(map.contains(e));
                let m = choose|m: int| 0 <= m < map.len() && map[m] == e;
                assert(map[m].height == listing[i].height);
            }
        }
    }
}

/// Where no two entries of a listing share a height, the height map holds
/// as many entries as the listing.
pub proof fn lemma_height_map_of_distinct(listing: Seq<EntryModel>)
    requires
        forall|i: int, j: int|
            0 <= i < j < listing.len() ==> listing[i].height != listing[j].height,
    ensures
        height_map(listing).len() == listing.len(),
    decreases listing.len(),
{
    if listing.len() > 0 {
        let front = listing.drop_last();
        let last = listing.last();
        assert forall|i: int, j: int| 0 <= i < j < front.len() implies front[i].height
            != front[j].height by {
            assert(listing[i].height != listing[j].height);
        }
        lemma_height_map_of_distinct(front);
        lemma_height_map(front);
        lemma_inserted(height_map(front), last);
        if has_height(height_map(front), last.height) {
            let k = choose|k: int|
                0 <= k < height_map(front).len() && #[trigger] height_map(front)[k].height
                    == last.height;
            let e = height_map(front)[k];
            assert(height_map(front).contains(e));
            assert(front.contains(e));
            let i = choose|i: int| 0 <= i < front.len() && front[i] == e;
            assert(listing[i].height != listing[listing.len() - 1].height);
        }
    }
}

/// In an ascending sequence the largest height is that of the last entry.
pub proof fn lemma_max_of_ascending(map: Seq<EntryModel>)
    requires
        ascending(map),
    ensures
        max_entry_height(map) == if map.len() == 0 {
            0
        } else {
            map.last().height
        },
        forall|i: int| 0 <= i < map.len() ==> #[trigger] map[i].height <= max_entry_height(map),
    decreases map.len(),
{
    if map.len() > 0 {
        let front = map.drop_last();
        assert forall|i: int, j: int| 0 <= i < j < front.len() implies front[i].height
            < front[j].height by {
            assert(map[i].height < map[j].height);
        }
        lemma_max_of_ascending(front);
        if front.len() > 0 {
            assert(map[front.len() - 1].height < map[map.len() - 1].height);
        }
        assert forall|i: int| 0 <= i < map.len() implies #[trigger] map[i].height
            <= max_entry_height(map) by {
            if i < map.len() - 1 {
                assert(map[i].height < map[map.len() - 1].height);
            }
        }
    }
}

/// Enters one directory into a height map.
pub fn insert_entry(map: &mut Vec<HeightEntry>, height: u64, name: String)
    requires
        ascending(old(map).deep_view()),
    ensures
        final(map).deep_view() == inserted(
            old(map).deep_view(),
            EntryModel { height, name: name@ },
        ),
        ascending(final(map).deep_view()),
{
    let ghost before = map.deep_view();
    let ghost entry = EntryModel { height, name: name@ };
    let mut at: usize = 0;
    while at < map.len() && map[at].height < height
        invariant
            at <= map.len(),
            before == map.deep_view(),
            forall|i: int| 0 <= i < at ==> before[i].height < height,
        decreases map.len() - at,
    {
        at = at + 1;
    }
    proof {
        if at < map.len() {
            assert forall|i: int| at <= i < before.len() implies before[i].height >= height by {
                if i > at {
                    assert(before[at as int].height < before[i].height);
                }
            }
        }
        lemma_inserted_at(before, entry, at as int);
        lemma_inserted(before, entry);
    }
    if at < map.len() && map[at].height == height {
        map[at] = HeightEntry { height, name };
    } else {
        map.insert(at, HeightEntry { height, name });
    }
}

} // verus!
