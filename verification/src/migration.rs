//! One migration pass, step by step.
//!
//! A pass samples the disk, evicts version directories from the spool,
//! packs them for cold storage where that is in use, clears the scratch
//! directory, retires the archived states, samples the disk again and
//! reports what was gained. A step that fails ends the pass; what was
//! moved or packed until then stays where it is.

use crate::cold_storage::{evicted, kept, lemma_copied_positions, lemma_eviction_of_distinct};
use crate::cold_storage::{lemma_old_states, lemma_state_copies, old_states, spool_entries};
use crate::cold_storage::{state_copies, stride};
use crate::command::{push_arg, Invocation, InvocationModel};
use crate::height_map::{height_map, max_entry_height, EntryModel, HeightEntry};
use crate::layout::{join, joined, packed_file_name, packed_name, BackupHelper};
use crate::spool::{fetch_top_height, top_height, VersionDir};
use crate::text::{decimal, push_decimal, push_signed_decimal, signed_decimal};
use vstd::prelude::*;
use vstd::string::*;

verus! {

/// Where a migration pass stands. The utilisation sampled at the start and
/// the largest evicted height are carried along.
#[derive(Clone, Copy, Debug, PartialEq, Eq, Structural)]
pub enum MigrationState {
    /// Nothing has happened yet.
    Idle,
    /// The disk is being sampled before anything moves.
    SamplingBefore,
    /// The spool is being listed.
    ListingSpool { old_space: u32, old_inodes: u32 },
    /// Version directories are being moved out of the spool.
    Evicting { old_space: u32, old_inodes: u32, max_height: u64 },
    /// The scratch directory is being listed.
    ListingWorkDir { old_space: u32, old_inodes: u32, max_height: u64 },
    /// The moved directories are being packed and stored.
    Packing { old_space: u32, old_inodes: u32, max_height: u64 },
    /// The scratch directory is being removed.
    Clearing { old_space: u32, old_inodes: u32, max_height: u64 },
    /// The archive is being listed.
    ListingArchive { old_space: u32, old_inodes: u32, max_height: u64 },
    /// The archived states are being copied and moved to the trash.
    Retiring { old_space: u32, old_inodes: u32, max_height: u64 },
    /// The trash directory is being removed.
    RemovingTrash { old_space: u32, old_inodes: u32, max_height: u64 },
    /// The disk is being sampled after everything has moved.
    SamplingAfter { old_space: u32, old_inodes: u32, max_height: u64 },
    /// The pass is over.
    Finished,
}

/// A directory of the scratch directory and the moment at which it is
/// packed, in seconds since the start of 1970.
#[derive(Clone, Debug, PartialEq, Eq)]
pub struct PackSource {
    pub dir: VersionDir,
    pub timestamp: i64,
}

/// One directory to pack: its name in the scratch directory and the file
/// that it is packed into.
#[derive(Debug, PartialEq, Eq)]
pub struct PackJob {
    pub version: String,
    pub packed_file: String,
}

/// Mathematical model of a pack job.
pub struct PackJobModel {
    pub version: Seq<char>,
    pub packed_file: Seq<char>,
}

impl DeepView for PackJob {
    type V = PackJobModel;

    open spec fn deep_view(&self) -> PackJobModel {
        PackJobModel { version: self.version@, packed_file: self.packed_file@ }
    }
}

/// What the caller reports.
#[derive(Debug)]
pub enum MigrationEvent {
    /// The pass begins.
    Begun,
    /// The disk was sampled.
    Sampled { space: u32, inodes: u32 },
    /// The spool was listed.
    SpoolListed { spool: Vec<VersionDir> },
    /// The version directories were moved.
    Evicted,
    /// The scratch directory was listed.
    WorkDirListed { dirs: Vec<PackSource> },
    /// The moved directories were packed and stored.
    Packed,
    /// The scratch directory was removed.
    Cleared,
    /// The archive was listed.
    ArchiveListed { names: Vec<String> },
    /// The archived states were copied and moved to the trash.
    Retired,
    /// The trash directory was removed.
    TrashRemoved,
    /// The step that was under way failed.
    Failed { reason: String },
}

/// What the caller is to do next.
#[derive(Debug, PartialEq, Eq)]
pub enum MigrationAction {
    /// Sample the utilisation of space and of inodes.
    SampleDisk,
    /// List the version directories of the spool, holding its lock.
    ListSpool { dir: String },
    /// Move the directories `moves` from the spool into the scratch
    /// directory `into`, then release the lock of the spool. Where
    /// `count_mismatch` is set, some directories share a top height; that
    /// is to be logged and changes nothing else.
    Evict { moves: Vec<HeightEntry>, into: String, count_mismatch: bool },
    /// List the directories of the scratch directory.
    ListWorkDir { dir: String },
    /// Pack every job and copy the packed file into `into`.
    Pack { jobs: Vec<PackJob>, into: String },
    /// Remove the scratch directory with all it holds.
    ClearWorkDir { dir: String },
    /// List the directories of the archive.
    ListArchive { dir: String },
    /// Copy the states `copies` from the archive `from` into `cold`, in
    /// this order; then move every state of `trash` from the archive into
    /// the directory `into`.
    Retire {
        copies: Vec<HeightEntry>,
        trash: Vec<HeightEntry>,
        from: String,
        cold: String,
        into: String,
    },
    /// Remove the trash directory with all it holds.
    RemoveTrash { dir: String },
    /// Nothing more: send the report.
    Report { text: String },
    /// Nothing more: the pass has failed. What was moved or packed stays
    /// where it is.
    Abort { error: String },
    /// The event does not belong to the state: do nothing.
    Ignore,
}

/// Mathematical model of an action of a migration pass.
pub enum MigrationActionModel {
    SampleDisk,
    ListSpool { dir: Seq<char> },
    Evict { moves: Seq<EntryModel>, into: Seq<char>, count_mismatch: bool },
    ListWorkDir { dir: Seq<char> },
    Pack { jobs: Seq<PackJobModel>, into: Seq<char> },
    ClearWorkDir { dir: Seq<char> },
    ListArchive { dir: Seq<char> },
    Retire {
        copies: Seq<EntryModel>,
        trash: Seq<EntryModel>,
        from: Seq<char>,
        cold: Seq<char>,
        into: Seq<char>,
    },
    RemoveTrash { dir: Seq<char> },
    Report { text: Seq<char> },
    Abort { error: Seq<char> },
    Ignore,
}

impl DeepView for MigrationAction {
    type V = MigrationActionModel;

    open spec fn deep_view(&self) -> MigrationActionModel {
        match self {
            MigrationAction::SampleDisk => MigrationActionModel::SampleDisk,
            MigrationAction::ListSpool { dir } => MigrationActionModel::ListSpool { dir: dir@ },
            MigrationAction::Evict { moves, into, count_mismatch } => MigrationActionModel::Evict {
                moves: moves.deep_view(),
                into: into@,
                count_mismatch: *count_mismatch,
            },
            MigrationAction::ListWorkDir { dir } => MigrationActionModel::ListWorkDir { dir: dir@ },
            MigrationAction::Pack { jobs, into } => MigrationActionModel::Pack {
                jobs: jobs.deep_view(),
                into: into@,
            },
            MigrationAction::ClearWorkDir { dir } => MigrationActionModel::ClearWorkDir {
                dir: dir@,
            },
            MigrationAction::ListArchive { dir } => MigrationActionModel::ListArchive { dir: dir@ },
            MigrationAction::Retire {
                copies,
                trash,
                from,
                cold,
                into,
            } => MigrationActionModel::Retire {
                copies: copies.deep_view(),
                trash: trash.deep_view(),
                from: from@,
                cold: cold@,
                into: into@,
            },
            MigrationAction::RemoveTrash { dir } => MigrationActionModel::RemoveTrash { dir: dir@ },
            MigrationAction::Report { text } => MigrationActionModel::Report { text: text@ },
            MigrationAction::Abort { error } => MigrationActionModel::Abort { error: error@ },
            MigrationAction::Ignore => MigrationActionModel::Ignore,
        }
    }
}

/// How far a pass has come, as a number.
pub open spec fn migration_rank(state: MigrationState) -> int {
    match state {
        MigrationState::Idle => 0,
        MigrationState::SamplingBefore => 1,
        MigrationState::ListingSpool { .. } => 2,
        MigrationState::Evicting { .. } => 3,
        MigrationState::ListingWorkDir { .. } => 4,
        MigrationState::Packing { .. } => 5,
        MigrationState::Clearing { .. } => 6,
        MigrationState::ListingArchive { .. } => 7,
        MigrationState::Retiring { .. } => 8,
        MigrationState::RemovingTrash { .. } => 9,
        MigrationState::SamplingAfter { .. } => 10,
        MigrationState::Finished => 11,
    }
}

/// The words for what a pass did with what it took out of hot storage.
pub open spec fn action_text(do_cold_storage: bool) -> Seq<char> {
    if do_cold_storage {
        "Moved to cold storage"@
    } else {
        "Cleaned up"@
    }
}

/// The report of a pass.
pub open spec fn report_text(
    do_cold_storage: bool,
    subnet: Seq<char>,
    max_height: u64,
    saved_space: i64,
    saved_inodes: i64,
) -> Seq<char> {
    "✅ "@ + action_text(do_cold_storage) + " artifacts of subnet "@ + subnet
        + " and states up to height *"@ + decimal(max_height as nat) + "*, saved "@
        + signed_decimal(saved_space as int) + "% of space and "@ + signed_decimal(
        saved_inodes as int,
    ) + "% of inodes."@
}

/// The invocation that moves `from` into the directory `to`.
pub fn move_command(from: &str, to: &str) -> (cmd: Invocation)
    ensures
        cmd.deep_view() == (InvocationModel { program: "mv"@, args: seq![from@, to@] }),
{
    let mut args: Vec<String> = Vec::new();
    push_arg(&mut args, from);
    push_arg(&mut args, to);
    assert(args.deep_view() =~= seq![from@, to@]);
    Invocation { program: "mv".to_owned(), args }
}

impl BackupHelper {
    /// Location of the packed file for a version directory in the scratch
    /// directory.
    pub open spec fn packed_file_path(&self, timestamp: i64, top_height: u64, version: Seq<char>)
        -> Seq<char> {
        self.work_dir_path() + seq!['/'] + packed_name(timestamp, top_height, version)
    }

    /// The invocation that moves the version directory `name` out of the
    /// spool into the scratch directory.
    pub fn evict_command(&self, name: &str) -> (cmd: Invocation)
        ensures
            cmd.deep_view() == (InvocationModel {
                program: "mv"@,
                args: seq![joined(self.spool_dir_path(), name@), self.work_dir_path()],
            }),
    {
        move_command(join(self.spool_dir().as_str(), name).as_str(), self.work_dir().as_str())
    }

    /// Location of the packed file for the version directory `version`
    /// with the given top height, packed at `timestamp`.
    pub fn packed_file(&self, timestamp: i64, top_height: u64, version: &str) -> (path: String)
        ensures
            path@ == self.packed_file_path(timestamp, top_height, version@),
    {
        proof {
            reveal_strlit("/");
        }
        let mut path = self.work_dir();
        path.append("/");
        path.append(packed_file_name(timestamp, top_height, version).as_str());
        path
    }

    /// The invocation that packs the version directory `version` of the
    /// scratch directory into `packed_file`.
    pub fn pack_command(&self, packed_file: &str, version: &str) -> (cmd: Invocation)
        ensures
            cmd.deep_view() == (InvocationModel {
                program: "tar"@,
                args: seq!["czvf"@, packed_file@, "-C"@, self.work_dir_path(), version@],
            }),
    {
        let mut args: Vec<String> = Vec::new();
        push_arg(&mut args, "czvf");
        push_arg(&mut args, packed_file);
        push_arg(&mut args, "-C");
        push_arg(&mut args, self.work_dir().as_str());
        push_arg(&mut args, version);
        assert(args.deep_view() =~= seq![
            "czvf"@,
            packed_file@,
            "-C"@,
            self.work_dir_path(),
            version@,
        ]);
        Invocation { program: "tar".to_owned(), args }
    }

    /// The invocation that copies a packed file to the artifacts of the
    /// subnet in cold storage.
    pub fn store_command(&self, packed_file: &str) -> (cmd: Invocation)
        ensures
            cmd.deep_view() == (InvocationModel {
                program: "cp"@,
                args: seq![packed_file@, self.cold_storage_artifacts_dir_path()],
            }),
    {
        let mut args: Vec<String> = Vec::new();
        push_arg(&mut args, packed_file);
        push_arg(&mut args, self.cold_storage_artifacts_dir().as_str());
        assert(args.deep_view() =~= seq![packed_file@, self.cold_storage_artifacts_dir_path()]);
        Invocation { program: "cp".to_owned(), args }
    }

    /// The invocation that copies the archived state `name` to the states
    /// of the subnet in cold storage.
    pub fn copy_state_command(&self, name: &str) -> (cmd: Invocation)
        ensures
            cmd.deep_view() == (InvocationModel {
                program: "rsync"@,
                args: seq![
                    "-a"@,
                    joined(self.archive_dir_path(), name@),
                    self.cold_storage_states_dir_path(),
                ],
            }),
    {
        let mut args: Vec<String> = Vec::new();
        push_arg(&mut args, "-a");
        push_arg(&mut args, join(self.archive_dir().as_str(), name).as_str());
        push_arg(&mut args, self.cold_storage_states_dir().as_str());
        assert(args.deep_view() =~= seq![
            "-a"@,
            joined(self.archive_dir_path(), name@),
            self.cold_storage_states_dir_path(),
        ]);
        Invocation { program: "rsync".to_owned(), args }
    }

    /// The invocation that moves the archived state `name` into the trash
    /// directory.
    pub fn trash_command(&self, name: &str) -> (cmd: Invocation)
        ensures
            cmd.deep_view() == (InvocationModel {
                program: "mv"@,
                args: seq![joined(self.archive_dir_path(), name@), self.trash_dir_path()],
            }),
    {
        move_command(join(self.archive_dir().as_str(), name).as_str(), self.trash_dir().as_str())
    }

    /// Writes the report of a pass: what was done, up to which height, and
    /// how many percent of space and of inodes were gained.
    pub fn migration_report(&self, max_height: u64, saved_space: i64, saved_inodes: i64) -> (text:
        String)
        ensures
            text@ == report_text(
                self.do_cold_storage,
                self.subnet_id@,
                max_height,
                saved_space,
                saved_inodes,
            ),
    {
        let mut text = "✅ ".to_owned();
        if self.do_cold_storage {
            text.append("Moved to cold storage");
        } else {
            text.append("Cleaned up");
        }
        text.append(" artifacts of subnet ");
        text.append(self.subnet_id.as_str());
        text.append(" and states up to height *");
        push_decimal(&mut text, max_height);
        text.append("*, saved ");
        push_signed_decimal(&mut text, saved_space);
        text.append("% of space and ");
        push_signed_decimal(&mut text, saved_inodes);
        text.append("% of inodes.");
        text
    }

    /// The directories of a spool that leave it: of its height map all but
    /// the `versions_hot` entries with the largest top heights.
    pub open spec fn eviction_of(&self, spool: Vec<VersionDir>) -> Seq<EntryModel> {
        evicted(height_map(spool_entries(spool.deep_view())), self.versions_hot as nat)
    }

    /// The jobs for the directories of the scratch directory: each is
    /// packed under its own name into the file named by its time stamp,
    /// its top height and its name.
    pub open spec fn pack_jobs_of(&self, dirs: Vec<PackSource>) -> Seq<PackJobModel> {
        Seq::new(
            dirs@.len(),
            |i: int|
                PackJobModel {
                    version: dirs@[i].dir.name@,
                    packed_file: self.packed_file_path(
                        dirs@[i].timestamp,
                        top_height(dirs@[i].dir.deep_view()),
                        dirs@[i].dir.name@,
                    ),
                },
        )
    }

    /// The transition of a migration pass. Which directories leave the
    /// spool, which states are copied and which leave the archive is
    /// decided here from the listings; packing and copying are left out
    /// where cold storage is not in use; everything else happens either
    /// way.
    pub open spec fn migration_transition(&self, state: MigrationState, event: MigrationEvent) -> (
        MigrationState,
        MigrationActionModel,
    ) {
        match (state, event) {
            (MigrationState::Finished, _) => (state, MigrationActionModel::Ignore),
            (MigrationState::Idle, MigrationEvent::Begun) => (
                MigrationState::SamplingBefore,
                MigrationActionModel::SampleDisk,
            ),
            (MigrationState::Idle, _) => (state, MigrationActionModel::Ignore),
            (_, MigrationEvent::Failed { reason }) => (
                MigrationState::Finished,
                MigrationActionModel::Abort { error: reason@ },
            ),
            (MigrationState::SamplingBefore, MigrationEvent::Sampled { space, inodes }) => (
                MigrationState::ListingSpool { old_space: space, old_inodes: inodes },
                MigrationActionModel::ListSpool { dir: self.spool_dir_path() },
            ),
            (
                MigrationState::ListingSpool { old_space, old_inodes },
                MigrationEvent::SpoolListed { spool },
            ) => (
                MigrationState::Evicting {
                    old_space,
                    old_inodes,
                    max_height: max_entry_height(self.eviction_of(spool)),
                },
                MigrationActionModel::Evict {
                    moves: self.eviction_of(spool),
                    into: self.work_dir_path(),
                    count_mismatch: spool@.len() != height_map(
                        spool_entries(spool.deep_view()),
                    ).len(),
                },
            ),
            (
                MigrationState::Evicting { old_space, old_inodes, max_height },
                MigrationEvent::Evicted,
            ) => if self.do_cold_storage {
                (
                    MigrationState::ListingWorkDir { old_space, old_inodes, max_height },
                    MigrationActionModel::ListWorkDir { dir: self.work_dir_path() },
                )
            } else {
                (
                    MigrationState::Clearing { old_space, old_inodes, max_height },
                    MigrationActionModel::ClearWorkDir { dir: self.work_dir_path() },
                )
            },
            (
                MigrationState::ListingWorkDir { old_space, old_inodes, max_height },
                MigrationEvent::WorkDirListed { dirs },
            ) => (
                MigrationState::Packing { old_space, old_inodes, max_height },
                MigrationActionModel::Pack {
                    jobs: self.pack_jobs_of(dirs),
                    into: self.cold_storage_artifacts_dir_path(),
                },
            ),
            (
                MigrationState::Packing { old_space, old_inodes, max_height },
                MigrationEvent::Packed,
            ) => (
                MigrationState::Clearing { old_space, old_inodes, max_height },
                MigrationActionModel::ClearWorkDir { dir: self.work_dir_path() },
            ),
            (
                MigrationState::Clearing { old_space, old_inodes, max_height },
                MigrationEvent::Cleared,
            ) => (
                MigrationState::ListingArchive { old_space, old_inodes, max_height },
                MigrationActionModel::ListArchive { dir: self.archive_dir_path() },
            ),
            (
                MigrationState::ListingArchive { old_space, old_inodes, max_height },
                MigrationEvent::ArchiveListed { names },
            ) => (
                MigrationState::Retiring { old_space, old_inodes, max_height },
                MigrationActionModel::Retire {
                    copies: if self.do_cold_storage {
                        state_copies(
                            old_states(names.deep_view(), max_height),
                            self.daily_replays as nat,
                        )
                    } else {
                        Seq::empty()
                    },
                    trash: old_states(names.deep_view(), max_height),
                    from: self.archive_dir_path(),
                    cold: self.cold_storage_states_dir_path(),
                    into: self.trash_dir_path(),
                },
            ),
            (
                MigrationState::Retiring { old_space, old_inodes, max_height },
                MigrationEvent::Retired,
            ) => (
                MigrationState::RemovingTrash { old_space, old_inodes, max_height },
                MigrationActionModel::RemoveTrash { dir: self.trash_dir_path() },
            ),
            (
                MigrationState::RemovingTrash { old_space, old_inodes, max_height },
                MigrationEvent::TrashRemoved,
            ) => (
                MigrationState::SamplingAfter { old_space, old_inodes, max_height },
                MigrationActionModel::SampleDisk,
            ),
            (
                MigrationState::SamplingAfter { old_space, old_inodes, max_height },
                MigrationEvent::Sampled { space, inodes },
            ) => (
                MigrationState::Finished,
                MigrationActionModel::Report {
                    text: report_text(
                        self.do_cold_storage,
                        self.subnet_id@,
                        max_height,
                        (old_space - space) as i64,
                        (old_inodes - inodes) as i64,
                    ),
                },
            ),
            _ => (state, MigrationActionModel::Ignore),
        }
    }

    /// Whether a pass can take up an event: a spool can be evicted from
    /// only if the number of versions to keep does not exceed the number of
    /// entries of its height map.
    pub open spec fn can_take(&self, state: MigrationState, event: MigrationEvent) -> bool {
        (state is ListingSpool && event is SpoolListed) ==> self.versions_hot <= height_map(
            spool_entries(event->spool.deep_view()),
        ).len()
    }

    /// A pass never goes back, and an event that is taken up moves it on.
    /// The scratch directory is listed for packing, and states are copied,
    /// only where cold storage is in use. The
    /// scratch directory is removed before the archive is listed, and the
    /// trash directory after the states are retired and before the report,
    /// whether or not cold storage is in use. A finished pass stays
    /// finished.
    pub proof fn lemma_migration_order(&self, state: MigrationState, event: MigrationEvent)
        ensures
            migration_rank(self.migration_transition(state, event).0) >= migration_rank(state),
            !(self.migration_transition(state, event).1 is Ignore) ==> migration_rank(
                self.migration_transition(state, event).0,
            ) > migration_rank(state),
            self.migration_transition(state, event).1 is ListWorkDir ==> self.do_cold_storage
                && state is Evicting,
            self.migration_transition(state, event).1 is Pack ==> state is ListingWorkDir,
            self.migration_transition(state, event).1 matches MigrationActionModel::Retire {
                copies,
                ..
            } ==> (copies.len() > 0 ==> self.do_cold_storage),
            self.migration_transition(state, event).1 is ListArchive ==> state is Clearing,
            self.migration_transition(state, event).1 is RemoveTrash ==> state is Retiring,
            self.migration_transition(state, event).1 is Report ==> state is SamplingAfter,
            self.migration_transition(state, event).0 is SamplingAfter ==> state is RemovingTrash
                || state is SamplingAfter,
            state is Finished ==> self.migration_transition(state, event) == (
                state,
                MigrationActionModel::Ignore,
            ),
    {
    }

    /// Given a spool of `N` directories with pairwise different top heights
    /// and a number `k <= N` of versions to keep, the eviction that a pass
    /// asks for moves exactly `N - k` directories, each of them a directory
    /// of the spool with a smaller top height than every directory that
    /// stays.
    pub proof fn lemma_migration_evicts(&self, old_space: u32, old_inodes: u32, spool: Vec<VersionDir>)
        requires
            self.versions_hot <= spool@.len(),
            forall|i: int, j: int|
                0 <= i < j < spool@.len() ==> top_height(spool.deep_view()[i]) != top_height(
                    spool.deep_view()[j],
                ),
        ensures
            ({
                let action = self.migration_transition(
                    MigrationState::ListingSpool { old_space, old_inodes },
                    MigrationEvent::SpoolListed { spool },
                ).1;
                let stay = kept(
                    height_map(spool_entries(spool.deep_view())),
                    self.versions_hot as nat,
                );
                &&& action is Evict
                &&& !action->Evict_count_mismatch
                &&& action->Evict_moves.len() == spool@.len() - self.versions_hot
                &&& stay.len() == self.versions_hot
                &&& forall|e: EntryModel| #[trigger]
                    action->Evict_moves.contains(e) ==> exists|i: int|
                        0 <= i < spool@.len() && e.name == #[trigger] spool.deep_view()[i].name
                            && e.height == top_height(spool.deep_view()[i])
                &&& forall|i: int, j: int|
                    0 <= i < action->Evict_moves.len() && 0 <= j < stay.len()
                        ==> action->Evict_moves[i].height < stay[j].height
            }),
    {
        lemma_eviction_of_distinct(spool.deep_view(), self.versions_hot as nat);
        crate::height_map::lemma_height_map(spool_entries(spool.deep_view()));
        crate::cold_storage::lemma_eviction(
            height_map(spool_entries(spool.deep_view())),
            self.versions_hot as nat,
        );
    }

    /// Of the states that a pass retires, counted down from the largest
    /// height, the one at distance `q` is copied exactly if cold storage is
    /// in use and `q` is a multiple of the stride; it is then copy number
    /// `q / stride`.
    pub proof fn lemma_migration_copies(
        &self,
        old_space: u32,
        old_inodes: u32,
        max_height: u64,
        names: Vec<String>,
        q: int,
    )
        requires
            self.do_cold_storage,
            0 <= q < old_states(names.deep_view(), max_height).len(),
        ensures
            ({
                let retire = self.migration_transition(
                    MigrationState::ListingArchive { old_space, old_inodes, max_height },
                    MigrationEvent::ArchiveListed { names },
                ).1;
                let trash = retire->Retire_trash;
                let copies = retire->Retire_copies;
                let d = stride(self.daily_replays as nat) as int;
                &&& retire is Retire
                &&& trash == old_states(names.deep_view(), max_height)
                &&& q % d == 0 ==> q / d < copies.len() && copies[q / d] == trash[trash.len() - 1
                    - q]
                &&& q % d != 0 ==> forall|k: int|
                    0 <= k < copies.len() ==> #[trigger] copies[k] == trash[trash.len() - 1 - k
                        * d] && k * d != q
            }),
    {
        lemma_copied_positions(
            old_states(names.deep_view(), max_height),
            self.daily_replays as nat,
            q,
        );
    }

    /// What a pass retires depends on what it evicted: the states that
    /// leave the archive are those whose height does not exceed the largest
    /// top height among the evicted directories, so a state above it
    /// stays; and every state that is copied also leaves.
    pub proof fn lemma_migration_retires(
        &self,
        old_space: u32,
        old_inodes: u32,
        spool: Vec<VersionDir>,
        names: Vec<String>,
    )
        ensures
            ({
                let evicting = self.migration_transition(
                    MigrationState::ListingSpool { old_space, old_inodes },
                    MigrationEvent::SpoolListed { spool },
                ).0;
                let retire = self.migration_transition(
                    MigrationState::ListingArchive {
                        old_space,
                        old_inodes,
                        max_height: evicting->Evicting_max_height,
                    },
                    MigrationEvent::ArchiveListed { names },
                ).1;
                &&& evicting is Evicting
                &&& evicting->Evicting_max_height == max_entry_height(self.eviction_of(spool))
                &&& retire is Retire
                &&& forall|e: EntryModel| #[trigger]
                    retire->Retire_trash.contains(e) ==> e.height <= max_entry_height(
                        self.eviction_of(spool),
                    ) && names.deep_view().contains(e.name)
                &&& forall|k: int|
                    0 <= k < retire->Retire_copies.len() ==> retire->Retire_trash.contains(
                        #[trigger] retire->Retire_copies[k],
                    )
            }),
    {
        let max_height = max_entry_height(self.eviction_of(spool));
        let trash = old_states(names.deep_view(), max_height);
        lemma_old_states(names.deep_view(), max_height);
        if self.do_cold_storage {
            let copies = state_copies(trash, self.daily_replays as nat);
            assert forall|k: int| 0 <= k < copies.len() implies trash.contains(
                #[trigger] copies[k],
            ) by {
                lemma_state_copies(trash, self.daily_replays as nat, k);
            }
        }
    }

    /// Advances a migration pass by one event and says what is to be done
    /// next.
    pub fn do_move_cold_storage(&self, state: MigrationState, event: MigrationEvent) -> (next: (
        MigrationState,
        MigrationAction,
    ))
        requires
            self.can_take(state, event),
        ensures
            next.0 == self.migration_transition(state, event).0,
            next.1.deep_view() == self.migration_transition(state, event).1,
    {
        match (state, event) {
            (MigrationState::Finished, _) => (state, MigrationAction::Ignore),
            (MigrationState::Idle, MigrationEvent::Begun) => (
                MigrationState::SamplingBefore,
                MigrationAction::SampleDisk,
            ),
            (MigrationState::Idle, _) => (state, MigrationAction::Ignore),
            (_, MigrationEvent::Failed { reason }) => (
                MigrationState::Finished,
                MigrationAction::Abort { error: reason },
            ),
            (MigrationState::SamplingBefore, MigrationEvent::Sampled { space, inodes }) => (
                MigrationState::ListingSpool { old_space: space, old_inodes: inodes },
                MigrationAction::ListSpool { dir: self.spool_dir() },
            ),
            (
                MigrationState::ListingSpool { old_space, old_inodes },
                MigrationEvent::SpoolListed { spool },
            ) => {
                let plan = self.plan_eviction(&spool);
                (
                    MigrationState::Evicting { old_space, old_inodes, max_height: plan.max_height },
                    MigrationAction::Evict {
                        moves: plan.moves,
                        into: self.work_dir(),
                        count_mismatch: plan.count_mismatch,
                    },
                )
            },
            (
                MigrationState::Evicting { old_space, old_inodes, max_height },
                MigrationEvent::Evicted,
            ) => {
                if self.do_cold_storage {
                    (
                        MigrationState::ListingWorkDir { old_space, old_inodes, max_height },
                        MigrationAction::ListWorkDir { dir: self.work_dir() },
                    )
                } else {
                    (
                        MigrationState::Clearing { old_space, old_inodes, max_height },
                        MigrationAction::ClearWorkDir { dir: self.work_dir() },
                    )
                }
            },
            (
                MigrationState::ListingWorkDir { old_space, old_inodes, max_height },
                MigrationEvent::WorkDirListed { dirs },
            ) => (
                MigrationState::Packing { old_space, old_inodes, max_height },
                MigrationAction::Pack {
                    jobs: self.pack_jobs(&dirs),
                    into: self.cold_storage_artifacts_dir(),
                },
            ),
            (
                MigrationState::Packing { old_space, old_inodes, max_height },
                MigrationEvent::Packed,
            ) => (
                MigrationState::Clearing { old_space, old_inodes, max_height },
                MigrationAction::ClearWorkDir { dir: self.work_dir() },
            ),
            (
                MigrationState::Clearing { old_space, old_inodes, max_height },
                MigrationEvent::Cleared,
            ) => (
                MigrationState::ListingArchive { old_space, old_inodes, max_height },
                MigrationAction::ListArchive { dir: self.archive_dir() },
            ),
            (
                MigrationState::ListingArchive { old_space, old_inodes, max_height },
                MigrationEvent::ArchiveListed { names },
            ) => {
                let plan = self.plan_states(&names, max_height);
                (
                    MigrationState::Retiring { old_space, old_inodes, max_height },
                    MigrationAction::Retire {
                        copies: plan.copies,
                        trash: plan.trash,
                        from: self.archive_dir(),
                        cold: self.cold_storage_states_dir(),
                        into: self.trash_dir(),
                    },
                )
            },
            (
                MigrationState::Retiring { old_space, old_inodes, max_height },
                MigrationEvent::Retired,
            ) => (
                MigrationState::RemovingTrash { old_space, old_inodes, max_height },
                MigrationAction::RemoveTrash { dir: self.trash_dir() },
            ),
            (
                MigrationState::RemovingTrash { old_space, old_inodes, max_height },
                MigrationEvent::TrashRemoved,
            ) => (
                MigrationState::SamplingAfter { old_space, old_inodes, max_height },
                MigrationAction::SampleDisk,
            ),
            (
                MigrationState::SamplingAfter { old_space, old_inodes, max_height },
                MigrationEvent::Sampled { space, inodes },
            ) => (
                MigrationState::Finished,
                MigrationAction::Report {
                    text: self.migration_report(
                        max_height,
                        old_space as i64 - space as i64,
                        old_inodes as i64 - inodes as i64,
                    ),
                },
            ),
            (state, _) => (state, MigrationAction::Ignore),
        }
    }

    /// Names the packed file for every directory of the scratch directory.
    pub fn pack_jobs(&self, dirs: &Vec<PackSource>) -> (jobs: Vec<PackJob>)
        ensures
            jobs.deep_view() == self.pack_jobs_of(*dirs),
    {
        let mut jobs: Vec<PackJob> = Vec::new();
        let mut i: usize = 0;
        while i < dirs.len()
            invariant
                i <= dirs.len(),
                jobs.len() == i,
                forall|k: int|
                    0 <= k < i ==> #[trigger] jobs.deep_view()[k] == self.pack_jobs_of(*dirs)[k],
            decreases dirs.len() - i,
        {
            let ghost before = jobs.deep_view();
            let top = fetch_top_height(&dirs[i].dir);
            let job = PackJob {
                version: dirs[i].dir.name.clone(),
                packed_file: self.packed_file(dirs[i].timestamp, top, dirs[i].dir.name.as_str()),
            };
            jobs.push(job);
            proof {
                assert(jobs.deep_view() =~= before.push(self.pack_jobs_of(*dirs)[i as int]));
                assert forall|k: int| 0 <= k < i + 1 implies #[trigger] jobs.deep_view()[k]
                    == self.pack_jobs_of(*dirs)[k] by {
                    if k < i {
                        assert(jobs.deep_view()[k] == before[k]);
                    }
                }
            }
            i = i + 1;
        }
        assert(jobs.deep_view() =~= self.pack_jobs_of(*dirs));
        jobs
    }
}

} // verus!
