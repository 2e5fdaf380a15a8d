//! Moving aged artifacts and states out of hot storage.
//!
//! A migration pass first evicts the version directories with the smallest
//! top heights from the spool, so that only the configured number stays.
//! It then retires every archived state whose height does not exceed the
//! largest evicted height: one state per day is copied to cold storage,
//! and all of them leave the archive.

use crate::height_map::{ascending, height_map, insert_entry, inserted, lemma_height_map};
use crate::height_map::{lemma_height_map_of_distinct, lemma_max_of_ascending, max_entry_height};
use crate::height_map::{EntryModel, HeightEntry};
use crate::heights::{height_from_dir_entry_radix, height_of_name};
use crate::layout::BackupHelper;
use crate::spool::{fetch_top_height, top_height, VersionDir, VersionDirModel};
use vstd::prelude::*;

verus! {

/// Which version directories leave the spool.
#[derive(Debug, PartialEq, Eq)]
pub struct EvictionPlan {
    /// The directories to move away, by ascending top height.
    pub moves: Vec<HeightEntry>,
    /// The largest top height among them, or zero when nothing moves.
    pub max_height: u64,
    /// Whether some directories of the spool share a top height, so that
    /// the height map has fewer entries than the spool has directories.
    pub count_mismatch: bool,
}

/// What becomes of the archived states.
#[derive(Debug, PartialEq, Eq)]
pub struct StatePlan {
    /// The states to copy to cold storage, by descending height.
    pub copies: Vec<HeightEntry>,
    /// The states to remove from the archive, by ascending height.
    pub trash: Vec<HeightEntry>,
}

/// The version directories of a spool as entries: each under its top
/// height.
pub open spec fn spool_entries(spool: Seq<VersionDirModel>) -> Seq<EntryModel> {
    Seq::new(
        spool.len(),
        |i: int| EntryModel { height: top_height(spool[i]), name: spool[i].name },
    )
}

/// The entries that leave a height map when only `versions_hot` stay:
/// those with the smallest heights.
pub open spec fn evicted(map: Seq<EntryModel>, versions_hot: nat) -> Seq<EntryModel> {
    map.take(map.len() - versions_hot)
}

/// The entries that stay.
pub open spec fn kept(map: Seq<EntryModel>, versions_hot: nat) -> Seq<EntryModel> {
    map.skip(map.len() - versions_hot)
}

/// The height map of the archived states that a pass retires: the
/// directories of the archive whose height, read in base ten, does not
/// exceed `max_height`.
pub open spec fn old_states(names: Seq<Seq<char>>, max_height: u64) -> Seq<EntryModel>
    decreases names.len(),
{
    if names.len() == 0 {
        Seq::empty()
    } else {
        let rest = old_states(names.drop_last(), max_height);
        let height = height_of_name(names.last(), 10);
        if height <= max_height {
            inserted(rest, EntryModel { height, name: names.last() })
        } else {
            rest
        }
    }
}

/// The distance, in entries, between two states that are copied: the
/// number of replays per day, and one where that number is not set.
pub open spec fn stride(daily_replays: nat) -> nat {
    if daily_replays > 1 {
        daily_replays
    } else {
        1
    }
}

/// How many of `count` states are copied at a given stride.
pub open spec fn copy_count(count: nat, stride: nat) -> nat {
    ((count + stride - 1) / (stride as int)) as nat
}

/// The states that are copied to cold storage: going down from the largest
/// height, the first state and then every state one stride further.
pub open spec fn state_copies(map: Seq<EntryModel>, daily_replays: nat) -> Seq<EntryModel> {
    Seq::new(
        copy_count(map.len(), stride(daily_replays)),
        |k: int| map[map.len() - 1 - k * stride(daily_replays)],
    )
}

/// With `k` copies taken at stride `d` out of `n` states, where the last
/// copy was still among the states and the next one would not be, `k` is
/// the number of copies.
pub proof fn lemma_copy_count(n: nat, d: nat, k: nat)
    requires
        d >= 1,
        k * d >= n,
        k > 0 ==> (k - 1) * d < n,
    ensures
        copy_count(n, d) == k,
{
    if k == 0 {
        assert(n == 0);
        assert((0 + d - 1) / (d as int) == 0) by (nonlinear_arith)
            requires
                d >= 1,
        ;
    } else {
        assert((n + d - 1) / (d as int) == k) by (nonlinear_arith)
            requires
                d >= 1,
                k * d >= n,
                (k - 1) * d < n,
        ;
    }
}

/// Copy number `k` is the retired state that lies `k` strides below the
/// largest, and it is the last copy exactly if no state lies a further
/// stride below it. So of every `stride` consecutive states, counted down
/// from the largest, the first is copied and no other.
pub proof fn lemma_state_copies(map: Seq<EntryModel>, daily_replays: nat, k: int)
    requires
        0 <= k < state_copies(map, daily_replays).len(),
    ensures
        0 <= map.len() - 1 - k * stride(daily_replays) < map.len(),
        state_copies(map, daily_replays)[k] == map[map.len() - 1 - k * stride(daily_replays)],
        (k + 1) * stride(daily_replays) >= map.len() <==> k + 1 == state_copies(
            map,
            daily_replays,
        ).len(),
{
    let d = stride(daily_replays);
    let n = map.len();
    let c = copy_count(n, d);
    assert(k * d <= n - 1 && (c * d >= n) && ((c - 1) * d < n)) by (nonlinear_arith)
        requires
            d >= 1,
            0 <= k < c,
            c == (n + d - 1) / (d as int),
    ;
    if (k + 1) * d >= n {
        lemma_copy_count(n, d, (k + 1) as nat);
    }
    if k + 1 == c {
    } else {
        assert((k + 1) * d < n) by (nonlinear_arith)
            requires
                d >= 1,
                k + 1 <= c - 1,
                (c - 1) * d < n,
        ;
    }
}

/// Counted down from the largest, the retired state at distance `q` is
/// copied exactly if `q` is a multiple of the stride, and it is then copy
/// number `q / stride`.
pub proof fn lemma_copied_positions(map: Seq<EntryModel>, daily_replays: nat, q: int)
    requires
        0 <= q < map.len(),
    ensures
        q % (stride(daily_replays) as int) == 0 ==> q / (stride(daily_replays) as int)
            < state_copies(map, daily_replays).len() && state_copies(map, daily_replays)[q / (
        stride(daily_replays) as int)] == map[map.len() - 1 - q],
        q % (stride(daily_replays) as int) != 0 ==> forall|k: int|
            0 <= k < state_copies(map, daily_replays).len() ==> #[trigger] state_copies(
                map,
                daily_replays,
            )[k] == map[map.len() - 1 - k * stride(daily_replays)] && k * stride(daily_replays)
                != q,
{
    let d = stride(daily_replays) as int;
    let n = map.len() as int;
    let c = copy_count(map.len(), stride(daily_replays)) as int;
    if q % d == 0 {
        let k = q / d;
        assert(k * d == q && 0 <= k && k < (n + d - 1) / d) by (nonlinear_arith)
            requires
                d >= 1,
                0 <= q < n,
                q % d == 0,
                k == q / d,
        ;
    } else {
        assert forall|k: int| 0 <= k < c implies #[trigger] state_copies(map, daily_replays)[k]
            == map[n - 1 - k * d] && k * d != q by {
            assert((k * d) % d == 0) by (nonlinear_arith)
                requires
                    d >= 1,
            ;
        }
    }
}

/// With a stride of one every retired state is copied.
pub proof fn lemma_copies_at_stride_one(map: Seq<EntryModel>, daily_replays: nat)
    requires
        daily_replays <= 1,
    ensures
        state_copies(map, daily_replays) == map.reverse(),
{
    assert(state_copies(map, daily_replays) =~= map.reverse());
}

/// The eviction leaves exactly `versions_hot` entries, takes the others,
/// and takes only entries with smaller heights than those it leaves. The
/// largest evicted height is that of the last evicted entry.
pub proof fn lemma_eviction(map: Seq<EntryModel>, versions_hot: nat)
    requires
        ascending(map),
        versions_hot <= map.len(),
    ensures
        evicted(map, versions_hot).len() == map.len() - versions_hot,
        kept(map, versions_hot).len() == versions_hot,
        evicted(map, versions_hot) + kept(map, versions_hot) == map,
        forall|i: int, j: int|
            0 <= i < evicted(map, versions_hot).len() && 0 <= j < kept(map, versions_hot).len()
                ==> evicted(map, versions_hot)[i].height < kept(map, versions_hot)[j].height,
        forall|i: int|
            0 <= i < evicted(map, versions_hot).len() ==> #[trigger] evicted(
                map,
                versions_hot,
            )[i].height <= max_entry_height(evicted(map, versions_hot)),
        ascending(evicted(map, versions_hot)),
{
    let out = evicted(map, versions_hot);
    let stay = kept(map, versions_hot);
    assert(out + stay =~= map);
    assert forall|i: int, j: int| 0 <= i < out.len() && 0 <= j < stay.len() implies out[i].height
        < stay[j].height by {
        assert(map[i].height < map[out.len() + j].height);
    }
    assert forall|i: int, j: int| 0 <= i < j < out.len() implies out[i].height
        < out[j].height by {
        assert(map[i].height < map[j].height);
    }
    lemma_max_of_ascending(out);
}

/// Given a spool of `N` directories with pairwise different top heights
/// and a number `k <= N` of versions to keep, exactly `N - k` directories
/// are evicted, each of them is a directory of the spool, and each has a
/// smaller top height than every directory that stays.
pub proof fn lemma_eviction_of_distinct(spool: Seq<VersionDirModel>, versions_hot: nat)
    requires
        versions_hot <= spool.len(),
        forall|i: int, j: int|
            0 <= i < j < spool.len() ==> top_height(spool[i]) != top_height(spool[j]),
    ensures
        height_map(spool_entries(spool)).len() == spool.len(),
        evicted(height_map(spool_entries(spool)), versions_hot).len() == spool.len()
            - versions_hot,
        forall|e: EntryModel|
            evicted(height_map(spool_entries(spool)), versions_hot).contains(e) ==> exists|i: int|
                0 <= i < spool.len() && e.name == #[trigger] spool[i].name && e.height
                    == top_height(spool[i]),
        forall|i: int, j: int|
            0 <= i < evicted(height_map(spool_entries(spool)), versions_hot).len() && 0 <= j
                < kept(height_map(spool_entries(spool)), versions_hot).len() ==> evicted(
                height_map(spool_entries(spool)),
                versions_hot,
            )[i].height < kept(height_map(spool_entries(spool)), versions_hot)[j].height,
{
    let listing = spool_entries(spool);
    let map = height_map(listing);
    lemma_height_map_of_distinct(listing);
    lemma_height_map(listing);
    lemma_eviction(map, versions_hot);
    assert forall|e: EntryModel| evicted(map, versions_hot).contains(e) implies exists|i: int|
        0 <= i < spool.len() && e.name == #[trigger] spool[i].name && e.height == top_height(
            spool[i],
        ) by {
        let k = choose|k: int|
            0 <= k < evicted(map, versions_hot).len() && evicted(map, versions_hot)[k] == e;
        assert(map[k] == e);
        assert(map.contains(e));
        assert(listing.contains(e));
        let i = choose|i: int| 0 <= i < listing.len() && listing[i] == e;
        assert(e.name == spool[i].name);
    }
}

/// The retired states form a height map, none of them lies above the
/// largest evicted height, and each is a directory of the archive.
pub proof fn lemma_old_states(names: Seq<Seq<char>>, max_height: u64)
    ensures
        ascending(old_states(names, max_height)),
        forall|e: EntryModel| #[trigger]
            old_states(names, max_height).contains(e) ==> e.height <= max_height
                && names.contains(e.name) && e.height == height_of_name(e.name, 10),
        forall|i: int|
            0 <= i < names.len() && height_of_name(#[trigger] names[i], 10) <= max_height
                ==> exists|k: int|
                0 <= k < old_states(names, max_height).len() && #[trigger] old_states(
                    names,
                    max_height,
                )[k].height == height_of_name(names[i], 10),
    decreases names.len(),
{
    if names.len() > 0 {
        let front = names.drop_last();
        let rest = old_states(front, max_height);
        let height = height_of_name(names.last(), 10);
        let entry = EntryModel { height, name: names.last() };
        let result = old_states(names, max_height);
        lemma_old_states(front, max_height);
        if height <= max_height {
            crate::height_map::lemma_inserted(rest, entry);
        }
        assert forall|e: EntryModel| #[trigger] result.contains(e) implies e.height <= max_height
            && names.contains(e.name) && e.height == height_of_name(e.name, 10) by {
            if height <= max_height && e == entry {
                assert(names[names.len() - 1] == e.name);
            } else {
                assert(rest.contains(e));
                let k = choose|k: int| 0 <= k < front.len() && front[k] == e.name;
                assert(names[k] == e.name);
            }
        }
        assert forall|i: int|
            0 <= i < names.len() && height_of_name(
                #[trigger] names[i],
                10,
            ) <= max_height implies exists|k: int|
            0 <= k < result.len() && #[trigger] result[k].height == height_of_name(
                names[i],
                10,
            ) by {
            let h = height_of_name(names[i], 10);
            if height <= max_height && h == height {
                assert(result.contains(entry));
                let k = choose|k: int| 0 <= k < result.len() && result[k] == entry;
                assert(result[k].height == h);
            } else {
                assert(i < front.len());
                assert(front[i] == names[i]);
                let k = choose|k: int| 0 <= k < rest.len() && #[trigger] rest[k].height == h;
                if height <= max_height {
                    let e = rest[k];
                    assert(rest.contains(e));
                    assert(result.contains(e));
                    let m = choose|m: int| 0 <= m < result.len() && result[m] == e;
                    assert(result[m].height == h);
                } else {
                    assert(result[k].height == h);
                }
            }
        }
    }
}

/// Builds the height map of a spool: every version directory under its top
/// height.
pub fn spool_height_map(spool: &Vec<VersionDir>) -> (map: Vec<HeightEntry>)
    ensures
        map.deep_view() == height_map(spool_entries(spool.deep_view())),
        ascending(map.deep_view()),
        map.len() <= spool.len(),
{
    let ghost listing = spool_entries(spool.deep_view());
    let mut map: Vec<HeightEntry> = Vec::new();
    let mut i: usize = 0;
    while i < spool.len()
        invariant
            i <= spool.len(),
            listing == spool_entries(spool.deep_view()),
            map.deep_view() == height_map(listing.take(i as int)),
            ascending(map.deep_view()),
        decreases spool.len() - i,
    {
        let top = fetch_top_height(&spool[i]);
        proof {
            assert(listing.take(i + 1).drop_last() =~= listing.take(i as int));
            assert(listing.take(i + 1).last() == (EntryModel {
                height: top,
                name: spool[i as int].name@,
            }));
        }
        insert_entry(&mut map, top, spool[i].name.clone());
        i = i + 1;
    }
    proof {
        assert(listing.take(i as int) =~= listing);
        lemma_height_map(listing);
    }
    map
}

/// Copies the first `count` entries of a height map.
fn first_entries(map: &Vec<HeightEntry>, count: usize) -> (front: Vec<HeightEntry>)
    requires
        count <= map.len(),
    ensures
        front.deep_view() == map.deep_view().take(count as int),
{
    let mut front: Vec<HeightEntry> = Vec::new();
    let mut i: usize = 0;
    while i < count
        invariant
            i <= count <= map.len(),
            front.deep_view() == map.deep_view().take(i as int),
        decreases count - i,
    {
        let ghost before = front.deep_view();
        let copy = map[i].clone();
        front.push(copy);
        assert(front.deep_view() =~= before.push(map[i as int].deep_view()));
        i = i + 1;
    }
    front
}

impl BackupHelper {
    /// Tells whether the spool holds more version directories than are to
    /// stay in hot storage.
    pub fn need_cold_storage_move(&self, spool_dir_count: usize) -> (needed: bool)
        ensures
            needed == (spool_dir_count > self.versions_hot),
    {
        spool_dir_count > self.versions_hot
    }

    /// Chooses the version directories that leave the spool: of the height
    /// map of the spool all but the `versions_hot` entries with the largest
    /// top heights.
    pub fn plan_eviction(&self, spool: &Vec<VersionDir>) -> (plan: EvictionPlan)
        requires
            self.versions_hot <= height_map(spool_entries(spool.deep_view())).len(),
        ensures
            plan.moves.deep_view() == evicted(
                height_map(spool_entries(spool.deep_view())),
                self.versions_hot as nat,
            ),
            plan.max_height == max_entry_height(plan.moves.deep_view()),
            plan.count_mismatch == (spool.len() != height_map(
                spool_entries(spool.deep_view()),
            ).len()),
    {
        let map = spool_height_map(spool);
        let to_clean = map.len() - self.versions_hot;
        let moves = first_entries(&map, to_clean);
        proof {
            lemma_eviction(map.deep_view(), self.versions_hot as nat);
            lemma_max_of_ascending(moves.deep_view());
        }
        let max_height = if to_clean > 0 {
            moves[to_clean - 1].height
        } else {
            0
        };
        EvictionPlan { moves, max_height, count_mismatch: spool.len() != map.len() }
    }

    /// Chooses what becomes of the archived states once version
    /// directories up to `max_height` have left the spool: every state whose
    /// height does not exceed `max_height` leaves the archive, and, where
    /// cold storage is in use, one state per stride is copied there first.
    pub fn plan_states(&self, archive: &Vec<String>, max_height: u64) -> (plan: StatePlan)
        ensures
            plan.trash.deep_view() == old_states(archive.deep_view(), max_height),
            plan.copies.deep_view() == if self.do_cold_storage {
                state_copies(plan.trash.deep_view(), self.daily_replays as nat)
            } else {
                Seq::<EntryModel>::empty()
            },
    {
        let ghost names = archive.deep_view();
        let mut trash: Vec<HeightEntry> = Vec::new();
        let mut i: usize = 0;
        while i < archive.len()
            invariant
                i <= archive.len(),
                names == archive.deep_view(),
                trash.deep_view() == old_states(names.take(i as int), max_height),
                ascending(trash.deep_view()),
            decreases archive.len() - i,
        {
            let height = height_from_dir_entry_radix(archive[i].as_str(), 10);
            proof {
                assert(names.take(i + 1).drop_last() =~= names.take(i as int));
            }
            if height <= max_height {
                insert_entry(&mut trash, height, archive[i].clone());
            }
            i = i + 1;
        }
        assert(names.take(i as int) =~= names);
        let mut copies: Vec<HeightEntry> = Vec::new();
        if self.do_cold_storage {
            let n = trash.len();
            let d: usize = if self.daily_replays > 1 {
                self.daily_replays
            } else {
                1
            };
            let ghost map = trash.deep_view();
            let mut pos: usize = n;
            assert(copies.len() * d == 0) by (nonlinear_arith)
                requires
                    copies.len() == 0,
            ;
            while pos > 0
                invariant
                    pos <= n,
                    n == trash.len(),
                    d >= 1,
                    d == stride(self.daily_replays as nat),
                    map == trash.deep_view(),
                    copies.len() * d + pos >= n,
                    pos > 0 ==> copies.len() * d + pos == n,
                    copies.len() > 0 ==> (copies.len() - 1) * d < n,
                    forall|k: int|
                        0 <= k < copies.len() ==> #[trigger] copies.deep_view()[k] == map[n - 1 - k
                            * d],
                decreases pos,
            {
                let ghost taken = copies.deep_view();
                let ghost k = copies.len();
                let copy = trash[pos - 1].clone();
                copies.push(copy);
                proof {
                    assert((k + 1) * d == k * d + d) by (nonlinear_arith);
                    assert forall|j: int| 0 <= j < copies.len() implies #[trigger] copies.deep_view()[j]
                        == map[n - 1 - j * d] by {
                        if j < k {
                            assert(copies.deep_view()[j] == taken[j]);
                        }
                    }
                }
                pos = if pos >= d {
                    pos - d
                } else {
                    0
                };
            }
            proof {
                lemma_copy_count(n as nat, d as nat, copies.len() as nat);
            }
        }
        StatePlan { copies, trash }
    }
}

} // verus!
