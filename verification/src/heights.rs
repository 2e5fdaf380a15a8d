//! Heights, the buckets that group them on disk, and the heights that
//! directory names stand for.
//!
//! A directory that holds one entry per height is handed to this module as
//! the list of its entry names. A name that is no number in the expected
//! radix stands for height zero; it is never an error.

use crate::numerals::{lemma_decimal_round_trip, parse_bounded, parse_u64};
use crate::text::{chars_of, decimal};
use vstd::prelude::*;

verus! {

/// Number of consecutive heights that share one bucket directory.
pub const BUCKET_SIZE: u64 = 10000;

/// The bucket of a height: the height rounded down to a multiple of the
/// bucket size.
pub open spec fn bucket_of(height: int) -> int {
    height - height % 10000
}

/// Returns the first height of the bucket that `height` belongs to.
pub fn height_bucket(height: u64) -> (bucket: u64)
    ensures
        bucket == bucket_of(height as int),
        bucket == (height / BUCKET_SIZE) * BUCKET_SIZE,
{
    height - height % BUCKET_SIZE
}

/// Buckets partition the heights: every height lies in the bucket computed
/// for it, that bucket starts at a multiple of the bucket size, and no other
/// multiple of the bucket size starts a range of that size that holds the
/// height.
pub proof fn lemma_bucket_partition(height: int, start: int)
    requires
        height >= 0,
    ensures
        bucket_of(height) % 10000 == 0,
        0 <= bucket_of(height) <= height < bucket_of(height) + 10000,
        (start % 10000 == 0 && start <= height < start + 10000) ==> start == bucket_of(height),
{
}

/// Two heights share a bucket exactly when they agree after division by the
/// bucket size.
pub proof fn lemma_same_bucket(a: int, b: int)
    requires
        a >= 0,
        b >= 0,
    ensures
        bucket_of(a) == bucket_of(b) <==> a / 10000 == b / 10000,
{
}

/// The height that a name stands for: its numeric value, or zero for a name
/// that is no number of the radix or is too large.
pub open spec fn height_of_name(name: Seq<char>, radix: int) -> u64 {
    match parse_bounded(name, radix, u64::MAX as int) {
        Some(v) => v as u64,
        None => 0,
    }
}

/// The largest height among the names, or zero when there is none.
pub open spec fn max_height(names: Seq<Seq<char>>, radix: int) -> u64
    decreases names.len(),
{
    if names.len() == 0 {
        0
    } else {
        let rest = max_height(names.drop_last(), radix);
        let last = height_of_name(names.last(), radix);
        if last > rest {
            last
        } else {
            rest
        }
    }
}

/// The largest height bounds the height of every name, and is itself either
/// zero or the height of one of the names.
pub proof fn lemma_max_height(names: Seq<Seq<char>>, radix: int)
    ensures
        forall|i: int|
            0 <= i < names.len() ==> height_of_name(#[trigger] names[i], radix) <= max_height(
                names,
                radix,
            ),
        max_height(names, radix) == 0 || exists|i: int|
            0 <= i < names.len() && height_of_name(#[trigger] names[i], radix) == max_height(
                names,
                radix,
            ),
    decreases names.len(),
{
    if names.len() > 0 {
        let front = names.drop_last();
        lemma_max_height(front, radix);
        assert forall|i: int| 0 <= i < names.len() implies height_of_name(
            #[trigger] names[i],
            radix,
        ) <= max_height(names, radix) by {
            if i < names.len() - 1 {
                assert(front[i] == names[i]);
            }
        }
        if max_height(names, radix) != 0 {
            if height_of_name(names.last(), radix) > max_height(front, radix) {
                assert(height_of_name(names[names.len() - 1], radix) == max_height(names, radix));
            } else {
                let i = choose|i: int|
                    0 <= i < front.len() && height_of_name(#[trigger] front[i], radix)
                        == max_height(front, radix);
                assert(front[i] == names[i]);
                assert(height_of_name(names[i], radix) == max_height(names, radix));
            }
        }
    }
}

/// Names that are no numbers do not change the largest height.
pub proof fn lemma_max_height_ignores(names: Seq<Seq<char>>, extra: Seq<char>, radix: int)
    requires
        parse_bounded(extra, radix, u64::MAX as int) is None,
    ensures
        max_height(names.push(extra), radix) == max_height(names, radix),
{
    assert(names.push(extra).drop_last() =~= names);
}

/// A directory that is named by the decimal numeral of a height stands
/// for that height.
pub proof fn lemma_height_of_numeral(height: u64)
    ensures
        height_of_name(decimal(height as nat), 10) == height,
{
    lemma_decimal_round_trip(height as nat);
    assert(parse_bounded(decimal(height as nat), 10, u64::MAX as int) == Some(height as int));
}

/// The height that the name of a directory entry stands for in the given
/// radix.
pub fn height_from_dir_entry_radix(name: &str, radix: u32) -> (height: u64)
    requires
        2 <= radix <= 36,
    ensures
        height == height_of_name(name@, radix as int),
{
    let chars = chars_of(name);
    match parse_u64(&chars, radix) {
        Some(v) => v,
        None => 0,
    }
}

/// The height that the name of a checkpoint directory stands for.
/// Checkpoints are named in base sixteen.
pub fn height_from_dir_entry(name: &str) -> (height: u64)
    ensures
        height == height_of_name(name@, 16),
{
    height_from_dir_entry_radix(name, 16)
}

/// The largest height among the entries of a directory.
pub fn last_dir_height(names: &Vec<String>, radix: u32) -> (height: u64)
    requires
        2 <= radix <= 36,
    ensures
        height == max_height(names.deep_view(), radix as int),
{
    let mut best: u64 = 0;
    let mut i: usize = 0;
    while i < names.len()
        invariant
            2 <= radix <= 36,
            i <= names.len(),
            best == max_height(names.deep_view().take(i as int), radix as int),
        decreases names.len() - i,
    {
        let h = height_from_dir_entry_radix(names[i].as_str(), radix);
        proof {
            let upto = names.deep_view().take(i + 1);
            assert(upto.drop_last() =~= names.deep_view().take(i as int));
        }
        if h > best {
            best = h;
        }
        i = i + 1;
    }
    assert(names.deep_view().take(i as int) =~= names.deep_view());
    best
}

/// The model of a directory listing that may be missing: a missing
/// directory has no entries.
pub open spec fn listed_names(listing: Option<Vec<String>>) -> Seq<Seq<char>> {
    match listing {
        Some(names) => names.deep_view(),
        None => Seq::empty(),
    }
}

/// The height of the last checkpoint, given the listing of the
/// `checkpoints` directory (`None` when the directory does not exist).
/// Without any checkpoint the height is zero.
pub fn last_checkpoint(checkpoints: &Option<Vec<String>>) -> (height: u64)
    ensures
        height == max_height(listed_names(*checkpoints), 16),
        checkpoints is None ==> height == 0,
{
    match checkpoints {
        Some(names) => last_dir_height(names, 16),
        None => 0,
    }
}

} // verus!
