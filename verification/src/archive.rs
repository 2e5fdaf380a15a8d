//! Archiving a replayed state.
//!
//! The state directory is copied into a directory of its own in the
//! archive, named by the height that was reached. Of the checkpoints that
//! came along only the last one is kept. A marker file records when the
//! copy was made.

use crate::command::{push_arg, Invocation, InvocationModel};
use crate::disk::DiskStatsError;
use crate::heights::{height_from_dir_entry, height_of_name, last_checkpoint, lemma_max_height};
use crate::heights::{listed_names, max_height};
use crate::layout::{join, joined, BackupHelper};
use vstd::prelude::*;
use vstd::string::*;

verus! {

/// The last second that can be written as a date of four-digit year: the
/// end of the year 9999.
pub const LAST_RFC2822_SECOND: i64 = 253_402_300_799;

/// The date and time, in the format of RFC 2822 and in universal time, of
/// the given number of seconds since the start of 1970, as the `chrono`
/// crate writes it.
pub uninterp spec fn rfc2822_text(unix_seconds: int) -> Seq<char>;

/// Calls `chrono::DateTime::from_timestamp` and `DateTime::to_rfc2822`.
/// The contract claims that the text is a function of the second alone.
/// The range asked for is the one in which the first call yields a date
/// and the second does not panic: the years from 1970 to 9999.
#[verifier::external_body]
fn rfc2822_of(unix_seconds: i64) -> (text: String)
    requires
        0 <= unix_seconds <= LAST_RFC2822_SECOND,
    ensures
        text@ == rfc2822_text(unix_seconds as int),
{
    match chrono::DateTime::from_timestamp(unix_seconds, 0) {
        Some(moment) => moment.to_rfc2822(),
        None => String::new(),
    }
}

/// The arguments that leave paths out of a copy: each path behind its own
/// flag.
pub open spec fn exclude_args(dirs: Seq<Seq<char>>) -> Seq<Seq<char>>
    decreases dirs.len(),
{
    if dirs.len() == 0 {
        Seq::empty()
    } else {
        exclude_args(dirs.drop_last()).push("--exclude"@).push(dirs.last())
    }
}

/// Which checkpoint of a fresh archive entry stays and which directories
/// go.
#[derive(Debug, PartialEq, Eq)]
pub struct ArchivePruning {
    /// The height of the checkpoint that stays.
    pub archived_checkpoint: u64,
    /// The name of the directory that stays.
    pub keep: String,
    /// The names of the directories to remove, in listing order: every
    /// listed directory but the one that stays.
    pub remove: Vec<String>,
}

/// Mathematical model of a pruning.
pub struct ArchivePruningModel {
    pub archived_checkpoint: u64,
    pub keep: Seq<char>,
    pub remove: Seq<Seq<char>>,
}

impl DeepView for ArchivePruning {
    type V = ArchivePruningModel;

    open spec fn deep_view(&self) -> ArchivePruningModel {
        ArchivePruningModel {
            archived_checkpoint: self.archived_checkpoint,
            keep: self.keep@,
            remove: self.remove.deep_view(),
        }
    }
}

/// The position of the first name at or after `from` that stands for
/// `height` in base sixteen.
pub open spec fn first_at_height(names: Seq<Seq<char>>, height: u64, from: int) -> Option<int>
    decreases names.len() - from,
{
    if from < 0 || from >= names.len() {
        None
    } else if height_of_name(names[from], 16) == height {
        Some(from)
    } else {
        first_at_height(names, height, from + 1)
    }
}

/// The position of the checkpoint that stays: the first listed name that
/// stands for the largest height.
pub open spec fn kept_position(names: Seq<Seq<char>>) -> int {
    first_at_height(names, max_height(names, 16), 0)->0
}

/// The listing without the entry at position `at`.
pub open spec fn without(names: Seq<Seq<char>>, at: int) -> Seq<Seq<char>> {
    names.take(at) + names.skip(at + 1)
}

/// What becomes of a listing of checkpoints: an error where the directory
/// is missing or holds no checkpoint, and otherwise the pruning that keeps
/// the first name of the largest height and removes every other entry.
pub open spec fn pruning_of(checkpoints: Option<Vec<String>>) -> Result<
    ArchivePruningModel,
    Seq<char>,
> {
    let names = listed_names(checkpoints);
    if checkpoints is None {
        Err("Archiving didn't succeed - missing checkpoints directory"@)
    } else if max_height(names, 16) == 0 {
        Err("No proper archived checkpoint"@)
    } else {
        Ok(
            ArchivePruningModel {
                archived_checkpoint: max_height(names, 16),
                keep: names[kept_position(names)],
                remove: without(names, kept_position(names)),
            },
        )
    }
}

/// What `first_at_height` finds is a position in the listing whose name
/// stands for the height, and no earlier name from `from` on does.
pub proof fn lemma_first_at_height(names: Seq<Seq<char>>, height: u64, from: int)
    requires
        0 <= from,
    ensures
        match first_at_height(names, height, from) {
            Some(at) => from <= at < names.len() && height_of_name(names[at], 16) == height
                && forall|j: int| from <= j < at ==> height_of_name(#[trigger] names[j], 16) != height,
            None => forall|j: int|
                from <= j < names.len() ==> height_of_name(#[trigger] names[j], 16) != height,
        },
    decreases names.len() - from,
{
    if from < names.len() && height_of_name(names[from], 16) != height {
        lemma_first_at_height(names, height, from + 1);
    }
}

/// After pruning exactly one checkpoint remains: where the listing holds a
/// checkpoint, the pruning keeps one listed directory, which stands for
/// the largest height, and removes all the others, so that the listing is
/// what is removed with what is kept put back in its place.
pub proof fn lemma_one_checkpoint_remains(names: Seq<Seq<char>>)
    requires
        max_height(names, 16) > 0,
    ensures
        0 <= kept_position(names) < names.len(),
        height_of_name(names[kept_position(names)], 16) == max_height(names, 16),
        without(names, kept_position(names)).len() == names.len() - 1,
        without(names, kept_position(names)).insert(
            kept_position(names),
            names[kept_position(names)],
        ) == names,
        forall|i: int|
            0 <= i < names.len() && i != kept_position(names) ==> without(
                names,
                kept_position(names),
            ).contains(#[trigger] names[i]),
{
    let keep = max_height(names, 16);
    lemma_max_height(names, 16);
    lemma_first_at_height(names, keep, 0);
    let at = kept_position(names);
    let left = without(names, at);
    assert(left.insert(at, names[at]) =~= names);
    assert forall|i: int| 0 <= i < names.len() && i != at implies left.contains(
        #[trigger] names[i],
    ) by {
        if i < at {
            assert(left[i] == names[i]);
        } else {
            assert(left[i - 1] == names[i]);
        }
    }
}

/// Decides what becomes of the checkpoints of a fresh archive entry, given
/// the listing of its checkpoints directory (`None` when the directory
/// does not exist). The first directory that stands for the largest height
/// stays; every other directory goes.
pub fn prune_checkpoints(checkpoints: &Option<Vec<String>>) -> (result: Result<
    ArchivePruning,
    String,
>)
    ensures
        match pruning_of(*checkpoints) {
            Ok(pruning) => result is Ok && result->Ok_0.deep_view() == pruning,
            Err(message) => result is Err && result->Err_0@ == message,
        },
{
    let names = match checkpoints {
        None => {
            return Err("Archiving didn't succeed - missing checkpoints directory".to_owned());
        },
        Some(names) => names,
    };
    let archived_checkpoint = last_checkpoint(checkpoints);
    if archived_checkpoint == 0 {
        return Err("No proper archived checkpoint".to_owned());
    }
    let ghost listed = names.deep_view();
    proof {
        lemma_one_checkpoint_remains(listed);
        lemma_first_at_height(listed, archived_checkpoint, 0);
    }
    let mut at: usize = 0;
    while at < names.len() && height_from_dir_entry(names[at].as_str()) != archived_checkpoint
        invariant
            at <= names.len(),
            listed == names.deep_view(),
            first_at_height(listed, archived_checkpoint, 0) == first_at_height(
                listed,
                archived_checkpoint,
                at as int,
            ),
        decreases names.len() - at,
    {
        at = at + 1;
    }
    let mut remove: Vec<String> = Vec::new();
    let mut i: usize = 0;
    while i < at
        invariant
            i <= at < names.len(),
            listed == names.deep_view(),
            remove.deep_view() == listed.take(i as int),
        decreases at - i,
    {
        let ghost before = remove.deep_view();
        remove.push(names[i].clone());
        assert(remove.deep_view() =~= before.push(listed[i as int]));
        assert(listed.take(i + 1) =~= listed.take(i as int).push(listed[i as int]));
        i = i + 1;
    }
    let mut j: usize = at + 1;
    while j < names.len()
        invariant
            at < j <= names.len(),
            listed == names.deep_view(),
            remove.deep_view() == listed.take(at as int) + listed.subrange(at + 1, j as int),
        decreases names.len() - j,
    {
        let ghost before = remove.deep_view();
        remove.push(names[j].clone());
        assert(remove.deep_view() =~= before.push(listed[j as int]));
        assert(remove.deep_view() =~= listed.take(at as int) + listed.subrange(at + 1, j + 1));
        j = j + 1;
    }
    assert(listed.subrange(at + 1, j as int) =~= listed.skip(at + 1));
    Ok(ArchivePruning { archived_checkpoint, keep: names[at].clone(), remove })
}

/// Writes the content of the marker file from the date and time of the
/// copy: the date and time, followed by a line feed.
pub fn marker_of(date: String) -> (marker: String)
    ensures
        marker@ == date@ + seq!['\n'],
{
    proof {
        reveal_strlit("\n");
    }
    let mut marker = date;
    marker.append("\n");
    marker
}

/// Writes the content of the marker file for a copy made at
/// `now_seconds`, seconds since the start of 1970. There is no marker for
/// a moment before 1970 or after the year 9999.
pub fn timestamp_marker(now_seconds: i64) -> (marker: Option<String>)
    ensures
        marker is Some <==> 0 <= now_seconds <= LAST_RFC2822_SECOND,
        marker is Some ==> marker->0@ == rfc2822_text(now_seconds as int) + seq!['\n'],
{
    if 0 <= now_seconds && now_seconds <= LAST_RFC2822_SECOND {
        Some(marker_of(rfc2822_of(now_seconds)))
    } else {
        None
    }
}

/// The notification for a state that could not be copied into the
/// archive.
pub fn archive_failure_notice() -> (text: String)
    ensures
        text@ == "Couldn't archive the replayed state!"@,
{
    "Couldn't archive the replayed state!".to_owned()
}

/// Puts the two utilisations that are sampled after archiving together:
/// both have to be there, and of two failures the one about inodes is
/// reported.
pub fn archive_disk_stats(
    space: Result<u32, DiskStatsError>,
    inodes: Result<u32, DiskStatsError>,
) -> (result: Result<(u32, u32), DiskStatsError>)
    ensures
        match (space, inodes) {
            (Ok(s), Ok(i)) => result == Ok::<(u32, u32), DiskStatsError>((s, i)),
            (Err(e), Ok(_)) => result == Err::<(u32, u32), DiskStatsError>(e),
            (_, Err(e)) => result == Err::<(u32, u32), DiskStatsError>(e),
        },
{
    match (space, inodes) {
        (Ok(s), Ok(i)) => Ok((s, i)),
        (Err(e), Ok(_)) => Err(e),
        (_, Err(e)) => Err(e),
    }
}

/// Where the archiving of a state stands.
#[derive(Clone, Copy, Debug, PartialEq, Eq, Structural)]
pub enum ArchiveState {
    /// Nothing has happened yet.
    Idle,
    /// The data directory is being copied into the archive.
    Copying,
    /// The checkpoints that came along are being listed.
    Listing,
    /// The checkpoints are being pruned and the marker written.
    Pruning,
    /// The disk is being sampled.
    Sampling,
    /// The archiving is over.
    Finished,
}

/// What the caller reports to the archiving.
#[derive(Debug)]
pub enum ArchiveEvent {
    /// The archiving begins.
    Begun,
    /// The copy has ended; the error says why it failed.
    Copied(Result<(), String>),
    /// The checkpoints directory of the copy was listed (`None` where it
    /// does not exist) at `now_seconds`, seconds since the start of 1970.
    Listed { checkpoints: Option<Vec<String>>, now_seconds: i64 },
    /// The directories were removed and the marker was written; the error
    /// says why the marker could not be written.
    Pruned(Result<(), String>),
    /// The utilisation of space and of inodes was sampled.
    Sampled { space: Result<u32, DiskStatsError>, inodes: Result<u32, DiskStatsError> },
}

/// What the caller is to do next.
#[derive(Debug, PartialEq, Eq)]
pub enum ArchiveAction {
    /// Run the copy.
    Copy { command: Invocation },
    /// List the directory of the copied checkpoints.
    ListCheckpoints { dir: String },
    /// Remove the named directories from the checkpoints directory, as far
    /// as that goes, and write the marker into the marker file.
    Prune { dir: String, remove: Vec<String>, marker_file: String, marker: String },
    /// Sample the utilisation of space and of inodes.
    SampleDisk,
    /// Nothing more: the state is archived; report the two utilisations.
    Finish { space: u32, inodes: u32 },
    /// Nothing more: archiving has failed with `error`. The notice, where
    /// there is one, is to be sent as a failure notification. What was
    /// copied stays where it is.
    Fail { notice: Option<String>, error: String },
    /// The event does not belong to the state: do nothing.
    Ignore,
}

/// Mathematical model of an action of the archiving.
pub enum ArchiveActionModel {
    Copy { command: InvocationModel },
    ListCheckpoints { dir: Seq<char> },
    Prune { dir: Seq<char>, remove: Seq<Seq<char>>, marker_file: Seq<char>, marker: Seq<char> },
    SampleDisk,
    Finish { space: u32, inodes: u32 },
    Fail { notice: Option<Seq<char>>, error: Seq<char> },
    Ignore,
}

impl DeepView for ArchiveAction {
    type V = ArchiveActionModel;

    open spec fn deep_view(&self) -> ArchiveActionModel {
        match self {
            ArchiveAction::Copy { command } => ArchiveActionModel::Copy {
                command: command.deep_view(),
            },
            ArchiveAction::ListCheckpoints { dir } => ArchiveActionModel::ListCheckpoints {
                dir: dir@,
            },
            ArchiveAction::Prune { dir, remove, marker_file, marker } => ArchiveActionModel::Prune {
                dir: dir@,
                remove: remove.deep_view(),
                marker_file: marker_file@,
                marker: marker@,
            },
            ArchiveAction::SampleDisk => ArchiveActionModel::SampleDisk,
            ArchiveAction::Finish { space, inodes } => ArchiveActionModel::Finish {
                space: *space,
                inodes: *inodes,
            },
            ArchiveAction::Fail { notice, error } => ArchiveActionModel::Fail {
                notice: match notice {
                    Some(text) => Some(text@),
                    None => None,
                },
                error: error@,
            },
            ArchiveAction::Ignore => ArchiveActionModel::Ignore,
        }
    }
}

/// The failure with which archiving ends without a notification.
pub open spec fn quiet_failure(error: Seq<char>) -> (ArchiveState, ArchiveActionModel) {
    (ArchiveState::Finished, ArchiveActionModel::Fail { notice: None, error })
}

impl BackupHelper {
    /// The arguments of the copy into the archive: archive mode, the
    /// paths to leave out, the content of the data directory, and the
    /// directory of the height in the archive.
    pub open spec fn archive_args(&self, last_height: u64) -> Seq<Seq<char>> {
        seq!["-a"@] + exclude_args(self.excluded_dirs.deep_view()) + seq![
            joined(self.data_dir_path(), "."@),
            self.archive_height_dir_path(last_height),
        ]
    }

    /// Location of the checkpoints of the state archived at `last_height`.
    pub open spec fn archived_checkpoints_path(&self, last_height: u64) -> Seq<char> {
        joined(self.archive_height_dir_path(last_height), "state/checkpoints"@)
    }

    /// Location of the marker file of the state archived at `last_height`.
    pub open spec fn timestamp_file_path(&self, last_height: u64) -> Seq<char> {
        joined(self.archive_height_dir_path(last_height), "archiving_timestamp.txt"@)
    }

    /// The invocation that copies the data directory into the archive
    /// under `last_height`.
    pub fn archive_command(&self, last_height: u64) -> (cmd: Invocation)
        ensures
            cmd.deep_view() == (InvocationModel {
                program: "rsync"@,
                args: self.archive_args(last_height),
            }),
    {
        let mut args: Vec<String> = Vec::new();
        push_arg(&mut args, "-a");
        let ghost dirs = self.excluded_dirs.deep_view();
        let mut i: usize = 0;
        while i < self.excluded_dirs.len()
            invariant
                i <= self.excluded_dirs.len(),
                dirs == self.excluded_dirs.deep_view(),
                args.deep_view() == seq!["-a"@] + exclude_args(dirs.take(i as int)),
            decreases self.excluded_dirs.len() - i,
        {
            proof {
                assert(dirs.take(i + 1).drop_last() =~= dirs.take(i as int));
            }
            push_arg(&mut args, "--exclude");
            push_arg(&mut args, self.excluded_dirs[i].as_str());
            i = i + 1;
        }
        assert(dirs.take(i as int) =~= dirs);
        push_arg(&mut args, join(self.data_dir().as_str(), ".").as_str());
        push_arg(&mut args, self.archive_height_dir(last_height).as_str());
        assert(args.deep_view() =~= self.archive_args(last_height));
        Invocation { program: "rsync".to_owned(), args }
    }

    /// Location of the checkpoints of the state archived at `last_height`.
    pub fn archived_checkpoints_dir(&self, last_height: u64) -> (path: String)
        ensures
            path@ == self.archived_checkpoints_path(last_height),
    {
        join(self.archive_height_dir(last_height).as_str(), "state/checkpoints")
    }

    /// Location of the marker file of the state archived at `last_height`.
    pub fn timestamp_file(&self, last_height: u64) -> (path: String)
        ensures
            path@ == self.timestamp_file_path(last_height),
    {
        join(self.archive_height_dir(last_height).as_str(), "archiving_timestamp.txt")
    }

    /// The transition of the archiving of the state at `last_height`. The
    /// copy leaves out the excluded paths. A copy that fails ends the
    /// archiving with a failure notification. Of the checkpoints that came
    /// along one stays. Then the marker is written, and last the disk is
    /// sampled; both utilisations have to be there.
    pub open spec fn archive_transition(
        &self,
        last_height: u64,
        state: ArchiveState,
        event: ArchiveEvent,
    ) -> (ArchiveState, ArchiveActionModel) {
        match (state, event) {
            (ArchiveState::Idle, ArchiveEvent::Begun) => (
                ArchiveState::Copying,
                ArchiveActionModel::Copy {
                    command: InvocationModel {
                        program: "rsync"@,
                        args: self.archive_args(last_height),
                    },
                },
            ),
            (ArchiveState::Copying, ArchiveEvent::Copied(Ok(_))) => (
                ArchiveState::Listing,
                ArchiveActionModel::ListCheckpoints {
                    dir: self.archived_checkpoints_path(last_height),
                },
            ),
            (ArchiveState::Copying, ArchiveEvent::Copied(Err(reason))) => (
                ArchiveState::Finished,
                ArchiveActionModel::Fail {
                    notice: Some("Couldn't archive the replayed state!"@),
                    error: reason@,
                },
            ),
            (ArchiveState::Listing, ArchiveEvent::Listed { checkpoints, now_seconds }) => {
                match pruning_of(checkpoints) {
                    Err(message) => quiet_failure(message),
                    Ok(pruning) => (
                        ArchiveState::Pruning,
                        ArchiveActionModel::Prune {
                            dir: self.archived_checkpoints_path(last_height),
                            remove: pruning.remove,
                            marker_file: self.timestamp_file_path(last_height),
                            marker: rfc2822_text(now_seconds as int) + seq!['\n'],
                        },
                    ),
                }
            },
            (ArchiveState::Pruning, ArchiveEvent::Pruned(Ok(_))) => (
                ArchiveState::Sampling,
                ArchiveActionModel::SampleDisk,
            ),
            (ArchiveState::Pruning, ArchiveEvent::Pruned(Err(reason))) => quiet_failure(reason@),
            (ArchiveState::Sampling, ArchiveEvent::Sampled { space, inodes }) => match (
                space,
                inodes,
            ) {
                (Ok(s), Ok(i)) => (
                    ArchiveState::Finished,
                    ArchiveActionModel::Finish { space: s, inodes: i },
                ),
                (Err(e), Ok(_)) => quiet_failure(e.text()),
                (_, Err(e)) => quiet_failure(e.text()),
            },
            _ => (state, ArchiveActionModel::Ignore),
        }
    }

    /// Advances the archiving of the state at `last_height` by one event
    /// and says what is to be done next.
    pub fn archive_state(&self, last_height: u64, state: ArchiveState, event: ArchiveEvent) -> (next:
        (ArchiveState, ArchiveAction))
        requires
            event matches ArchiveEvent::Listed { now_seconds, .. } ==> 0 <= now_seconds
                <= LAST_RFC2822_SECOND,
        ensures
            next.0 == self.archive_transition(last_height, state, event).0,
            next.1.deep_view() == self.archive_transition(last_height, state, event).1,
    {
        match (state, event) {
            (ArchiveState::Idle, ArchiveEvent::Begun) => (
                ArchiveState::Copying,
                ArchiveAction::Copy { command: self.archive_command(last_height) },
            ),
            (ArchiveState::Copying, ArchiveEvent::Copied(Ok(_))) => (
                ArchiveState::Listing,
                ArchiveAction::ListCheckpoints { dir: self.archived_checkpoints_dir(last_height) },
            ),
            (ArchiveState::Copying, ArchiveEvent::Copied(Err(reason))) => (
                ArchiveState::Finished,
                ArchiveAction::Fail { notice: Some(archive_failure_notice()), error: reason },
            ),
            (ArchiveState::Listing, ArchiveEvent::Listed { checkpoints, now_seconds }) => {
                match prune_checkpoints(&checkpoints) {
                    Err(message) => (
                        ArchiveState::Finished,
                        ArchiveAction::Fail { notice: None, error: message },
                    ),
                    Ok(pruning) => (
                        ArchiveState::Pruning,
                        ArchiveAction::Prune {
                            dir: self.archived_checkpoints_dir(last_height),
                            remove: pruning.remove,
                            marker_file: self.timestamp_file(last_height),
                            marker: timestamp_marker(now_seconds).unwrap(),
                        },
                    ),
                }
            },
            (ArchiveState::Pruning, ArchiveEvent::Pruned(Ok(_))) => (
                ArchiveState::Sampling,
                ArchiveAction::SampleDisk,
            ),
            (ArchiveState::Pruning, ArchiveEvent::Pruned(Err(reason))) => (
                ArchiveState::Finished,
                ArchiveAction::Fail { notice: None, error: reason },
            ),
            (ArchiveState::Sampling, ArchiveEvent::Sampled { space, inodes }) => {
                match archive_disk_stats(space, inodes) {
                    Ok((s, i)) => (ArchiveState::Finished, ArchiveAction::Finish { space: s, inodes: i }),
                    Err(e) => (
                        ArchiveState::Finished,
                        ArchiveAction::Fail { notice: None, error: e.describe() },
                    ),
                }
            },
            (state, _) => (state, ArchiveAction::Ignore),
        }
    }

    /// Archiving fails with a notification only where the copy failed; it
    /// lists, prunes and samples only after the step before went through;
    /// and what it removes, wherever it prunes, is every listed directory
    /// but one that stands for the largest height.
    pub proof fn lemma_archive_order(&self, last_height: u64, state: ArchiveState, event: ArchiveEvent)
        ensures
            self.archive_transition(last_height, state, event).1 matches ArchiveActionModel::Fail {
                notice: Some(_),
                ..
            } ==> state is Copying && event matches ArchiveEvent::Copied(Err(_)),
            self.archive_transition(last_height, state, event).1 is ListCheckpoints
                ==> event matches ArchiveEvent::Copied(Ok(_)),
            self.archive_transition(last_height, state, event).1 matches ArchiveActionModel::Prune {
                remove,
                ..
            } ==> (event matches ArchiveEvent::Listed { checkpoints, .. } && max_height(
                listed_names(checkpoints),
                16,
            ) > 0 && remove == without(
                listed_names(checkpoints),
                kept_position(listed_names(checkpoints)),
            )),
            state is Finished ==> self.archive_transition(last_height, state, event) == (
                state,
                ArchiveActionModel::Ignore,
            ),
    {
    }
}

} // verus!
