//! The spool as it is found on disk, and what can be read off it.
//!
//! The spool of a subnet holds one directory per replica version. A version
//! directory holds bucket directories, named by the first height of the
//! bucket in base ten, and a bucket directory holds one entry per height,
//! named in base ten as well. The caller lists the tree afresh for each
//! question and hands it over as plain names.

use crate::heights::{bucket_of, height_bucket, height_from_dir_entry_radix};
use crate::heights::{last_dir_height, max_height};
use crate::text::{decimal, decimal_string};
use vstd::prelude::*;

verus! {

/// One bucket directory: its name and the names of its entries. An entry
/// of a version directory that is no directory has no entries.
#[derive(Clone, Debug, PartialEq, Eq)]
pub struct BucketDir {
    pub name: String,
    pub entries: Vec<String>,
}

/// One directory of the spool: its name, whether that name is a well-formed
/// version token, and its bucket directories.
#[derive(Clone, Debug, PartialEq, Eq)]
pub struct VersionDir {
    pub name: String,
    pub is_version: bool,
    pub buckets: Vec<BucketDir>,
}

/// Mathematical model of a bucket directory.
pub struct BucketDirModel {
    pub name: Seq<char>,
    pub entries: Seq<Seq<char>>,
}

/// Mathematical model of a version directory.
pub struct VersionDirModel {
    pub name: Seq<char>,
    pub is_version: bool,
    pub buckets: Seq<BucketDirModel>,
}

impl DeepView for BucketDir {
    type V = BucketDirModel;

    open spec fn deep_view(&self) -> BucketDirModel {
        BucketDirModel { name: self.name@, entries: self.entries.deep_view() }
    }
}

impl DeepView for VersionDir {
    type V = VersionDirModel;

    open spec fn deep_view(&self) -> VersionDirModel {
        VersionDirModel {
            name: self.name@,
            is_version: self.is_version,
            buckets: self.buckets.deep_view(),
        }
    }
}

/// The names of the bucket directories, in listing order.
pub open spec fn bucket_names(buckets: Seq<BucketDirModel>) -> Seq<Seq<char>> {
    Seq::new(buckets.len(), |i: int| buckets[i].name)
}

/// The entries of the first bucket directory at or after position `from`
/// that bears the given name; no entries when there is no such directory.
pub open spec fn entries_named(buckets: Seq<BucketDirModel>, name: Seq<char>, from: int) -> Seq<
    Seq<char>,
>
    decreases buckets.len() - from,
{
    if from < 0 || from >= buckets.len() {
        Seq::empty()
    } else if buckets[from].name == name {
        buckets[from].entries
    } else {
        entries_named(buckets, name, from + 1)
    }
}

/// The top height of a version directory: the largest height named in the
/// bucket directory that bears the largest bucket name.
pub open spec fn top_height(dir: VersionDirModel) -> u64 {
    let bucket = max_height(bucket_names(dir.buckets), 10);
    max_height(entries_named(dir.buckets, decimal(bucket as nat), 0), 10)
}

/// Whether a version directory holds an entry for `height`, at the place
/// where that height belongs: in the bucket of the height, under the
/// height's own numeral.
pub open spec fn holds_height(dir: VersionDirModel, height: u64) -> bool {
    entries_named(dir.buckets, decimal(bucket_of(height as int) as nat), 0).contains(
        decimal(height as nat),
    )
}

/// Whether a directory may be the one that the replay continues from: its
/// name is a version token and it holds the height of the last checkpoint.
pub open spec fn eligible(dir: VersionDirModel, checkpoint: u64) -> bool {
    dir.is_version && holds_height(dir, checkpoint)
}

/// The selection among the first `upto` directories: the top height and
/// the position of the eligible directory that is selected so far. The
/// first eligible directory is selected whatever its top height; a later
/// one takes its place only with a greater top height.
pub open spec fn selection(spool: Seq<VersionDirModel>, checkpoint: u64, upto: int) -> (
    u64,
    Option<int>,
)
    decreases upto,
{
    if upto <= 0 || upto > spool.len() {
        (0, None)
    } else {
        let (best, at) = selection(spool, checkpoint, upto - 1);
        let dir = spool[upto - 1];
        if eligible(dir, checkpoint) && (at is None || best < top_height(dir)) {
            (top_height(dir), Some(upto - 1))
        } else {
            (best, at)
        }
    }
}

/// The version that the spool names for a checkpoint height: nothing
/// without a checkpoint, otherwise the name of the selected directory.
pub open spec fn spool_version(spool: Seq<VersionDirModel>, checkpoint: u64) -> Option<
    Seq<char>,
> {
    if checkpoint == 0 {
        None
    } else {
        match selection(spool, checkpoint, spool.len() as int).1 {
            Some(at) => Some(spool[at].name),
            None => None,
        }
    }
}

/// The selected directory is eligible, no eligible directory has a greater
/// top height, and it is the first to reach its top height. Nothing is
/// selected exactly where no directory is eligible.
pub proof fn lemma_selection(spool: Seq<VersionDirModel>, checkpoint: u64, upto: int)
    requires
        0 <= upto <= spool.len(),
    ensures
        match selection(spool, checkpoint, upto).1 {
            Some(at) => 0 <= at < upto && eligible(spool[at], checkpoint) && top_height(spool[at])
                == selection(spool, checkpoint, upto).0 && (forall|j: int|
                0 <= j < upto && eligible(#[trigger] spool[j], checkpoint) ==> top_height(spool[j])
                    <= top_height(spool[at])) && (forall|j: int|
                0 <= j < at && eligible(#[trigger] spool[j], checkpoint) ==> top_height(spool[j])
                    < top_height(spool[at])),
            None => forall|j: int| 0 <= j < upto ==> !eligible(#[trigger] spool[j], checkpoint),
        },
    decreases upto,
{
    if upto > 0 {
        lemma_selection(spool, checkpoint, upto - 1);
    }
}

/// Finds the entries of the first bucket directory that bears `name`.
fn find_bucket<'a>(buckets: &'a Vec<BucketDir>, name: &String) -> (found: Option<&'a BucketDir>)
    ensures
        match found {
            Some(bucket) => bucket.entries.deep_view() == entries_named(
                buckets.deep_view(),
                name@,
                0,
            ),
            None => entries_named(buckets.deep_view(), name@, 0) == Seq::<Seq<char>>::empty(),
        },
{
    let mut i: usize = 0;
    while i < buckets.len()
        invariant
            i <= buckets.len(),
            entries_named(buckets.deep_view(), name@, 0) == entries_named(
                buckets.deep_view(),
                name@,
                i as int,
            ),
        decreases buckets.len() - i,
    {
        if buckets[i].name == *name {
            return Some(&buckets[i]);
        }
        i = i + 1;
    }
    None
}

/// Computes the top height of a version directory.
pub fn fetch_top_height(replica_version_dir: &VersionDir) -> (height: u64)
    ensures
        height == top_height(replica_version_dir.deep_view()),
{
    let buckets = &replica_version_dir.buckets;
    let ghost names = bucket_names(buckets.deep_view());
    let mut height_bucket: u64 = 0;
    let mut i: usize = 0;
    while i < buckets.len()
        invariant
            i <= buckets.len(),
            names == bucket_names(buckets.deep_view()),
            height_bucket == max_height(names.take(i as int), 10),
        decreases buckets.len() - i,
    {
        let h = height_from_dir_entry_radix(buckets[i].name.as_str(), 10);
        proof {
            assert(names.take(i + 1).drop_last() =~= names.take(i as int));
        }
        if h > height_bucket {
            height_bucket = h;
        }
        i = i + 1;
    }
    assert(names.take(i as int) =~= names);
    let bucket_name = decimal_string(height_bucket);
    match find_bucket(buckets, &bucket_name) {
        Some(bucket) => last_dir_height(&bucket.entries, 10),
        None => 0,
    }
}

/// Tells whether a version directory holds an entry for `height` in the
/// bucket of that height.
pub fn is_height_in_spool(replica_version_dir: &VersionDir, height: u64) -> (present: bool)
    ensures
        present == holds_height(replica_version_dir.deep_view(), height),
{
    let bucket_name = decimal_string(height_bucket(height));
    let height_name = decimal_string(height);
    match find_bucket(&replica_version_dir.buckets, &bucket_name) {
        Some(bucket) => {
            let entries = &bucket.entries;
            let ghost listed = entries.deep_view();
            let mut i: usize = 0;
            while i < entries.len()
                invariant
                    i <= entries.len(),
                    listed == entries.deep_view(),
                    holds_height(replica_version_dir.deep_view(), height) == listed.contains(
                        height_name@,
                    ),
                    forall|j: int| 0 <= j < i ==> listed[j] != height_name@,
                decreases entries.len() - i,
            {
                assert(listed[i as int] == entries[i as int]@);
                if entries[i] == height_name {
                    return true;
                }
                i = i + 1;
            }
            false
        },
        None => false,
    }
}

/// Determines the replica version to continue with from what the spool
/// holds: among the directories that are named by a version token and hold
/// the height of the last checkpoint, the one with the largest top height,
/// the first of them where several share it. Without a checkpoint, or
/// without such a directory, there is none.
pub fn retrieve_replica_version(spool: &Vec<VersionDir>, last_checkpoint: u64) -> (version:
    Option<String>)
    ensures
        match spool_version(spool.deep_view(), last_checkpoint) {
            Some(name) => version is Some && version->0@ == name,
            None => version is None,
        },
        last_checkpoint == 0 ==> version is None,
{
    if spool.len() == 0 || last_checkpoint == 0 {
        return None;
    }
    let mut highest_containing: u64 = 0;
    let mut current: Option<usize> = None;
    let mut i: usize = 0;
    while i < spool.len()
        invariant
            i <= spool.len(),
            selection(spool.deep_view(), last_checkpoint, i as int) == (
                highest_containing,
                match current {
                    Some(at) => Some(at as int),
                    None => None,
                },
            ),
            current is Some ==> current->0 < i,
        decreases spool.len() - i,
    {
        if spool[i].is_version && is_height_in_spool(&spool[i], last_checkpoint) {
            let top = fetch_top_height(&spool[i]);
            if current.is_none() || highest_containing < top {
                highest_containing = top;
                current = Some(i);
            }
        }
        i = i + 1;
    }
    match current {
        Some(at) => {
            Some(spool[at].name.clone())
        },
        None => None,
    }
}

} // verus!
