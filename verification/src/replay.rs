//! Replaying artifacts into state, one replica version after the other.
//!
//! The replay tool is run with the current replica version. Where the
//! artifacts continue under another version, the tool says so in its
//! output, and the replay goes on with that version. Once no upgrade is
//! asked for, or the tool has failed, the height of the last checkpoint
//! shows whether the cycle made progress; only then is the state archived.

use crate::command::{push_arg, CommandOutcome, Invocation, InvocationModel};
use crate::layout::BackupHelper;
use crate::scan::{find, find_from, lemma_find_is_first, trim_bounds, trimmed};
use crate::spool::{retrieve_replica_version, spool_version, VersionDir, VersionDirModel};
use crate::text::{chars_of, decimal, decimal_string, push_decimal};
use vstd::prelude::*;
use vstd::string::*;

verus! {

/// How one run of the replay tool ended.
#[derive(Clone, Debug, PartialEq, Eq)]
pub enum ReplayResult {
    /// The artifacts of the version are replayed.
    Done,
    /// The artifacts continue under the replica version of this token.
    UpgradeRequired(String),
}

/// The words that precede the version in a request for an upgrade.
pub open spec fn upgrade_prefix() -> Seq<char> {
    "Please use the replay tool of version"@
}

/// The words that follow the version in a request for an upgrade.
pub open spec fn upgrade_suffix() -> Seq<char> {
    "to continue backup recovery from height"@
}

/// The smallest number of characters that a version token takes.
pub const MIN_VERSION_LEN: usize = 8;

/// The version token that an output asks to upgrade to. The request
/// starts at the first occurrence of the prefix. It counts only if more
/// characters follow the prefix than a shortest token and the suffix take
/// together, and if the suffix does follow; the token is what stands
/// between the two, without the white space around it.
pub open spec fn upgrade_token(stdout: Seq<char>) -> Option<Seq<char>> {
    match find(stdout, upgrade_prefix(), 0) {
        None => None,
        Some(at) => {
            let from = at + upgrade_prefix().len();
            if from + MIN_VERSION_LEN + upgrade_suffix().len() < stdout.len() {
                match find(stdout, upgrade_suffix(), from) {
                    Some(to) => Some(trimmed(stdout.subrange(from, to))),
                    None => None,
                }
            } else {
                None
            }
        },
    }
}

/// An output that does not hold the prefix asks for no upgrade, and
/// neither does one that is too short behind the prefix to hold a token
/// and the suffix.
pub proof fn lemma_no_upgrade(stdout: Seq<char>)
    ensures
        find(stdout, upgrade_prefix(), 0) is None ==> upgrade_token(stdout) is None,
        stdout.len() <= upgrade_prefix().len() + MIN_VERSION_LEN + upgrade_suffix().len()
            ==> upgrade_token(stdout) is None,
        upgrade_token(stdout) is Some ==> find(stdout, upgrade_prefix(), 0) is Some && find(
            stdout,
            upgrade_suffix(),
            find(stdout, upgrade_prefix(), 0)->0 + upgrade_prefix().len(),
        ) is Some,
{
    lemma_find_is_first(stdout, upgrade_prefix(), 0);
}

/// Looks for a request for an upgrade in the output of the replay tool and
/// returns the version token that it names.
pub fn check_upgrade_request(stdout: &str) -> (token: Option<String>)
    ensures
        token is Some <==> upgrade_token(stdout@) is Some,
        token is Some ==> token->0@ == upgrade_token(stdout@)->0,
{
    let text = chars_of(stdout);
    let prefix = chars_of("Please use the replay tool of version");
    let suffix = chars_of("to continue backup recovery from height");
    proof {
        reveal_strlit("Please use the replay tool of version");
        reveal_strlit("to continue backup recovery from height");
    }
    match find_from(&text, &prefix, 0) {
        None => None,
        Some(at) => {
            let from = at + prefix.len();
            if text.len() - from > MIN_VERSION_LEN + suffix.len() {
                match find_from(&text, &suffix, from) {
                    Some(to) => {
                        let (a, b) = trim_bounds(&text, from, to);
                        Some(stdout.substring_char(a, b).to_owned())
                    },
                    None => None,
                }
            } else {
                None
            }
        },
    }
}

/// Mathematical model of the way a run ended.
pub enum ReplayResultModel {
    Done,
    UpgradeRequired(Seq<char>),
}

impl DeepView for ReplayResult {
    type V = ReplayResultModel;

    open spec fn deep_view(&self) -> ReplayResultModel {
        match self {
            ReplayResult::Done => ReplayResultModel::Done,
            ReplayResult::UpgradeRequired(version) => ReplayResultModel::UpgradeRequired(version@),
        }
    }
}

/// Where one run of the replay tool stands.
#[derive(Debug, PartialEq, Eq)]
pub enum RunState {
    /// Nothing has happened yet.
    Idle,
    /// The executables and the configuration are being provided.
    Provisioning { start_height: u64 },
    /// The replay tool is running.
    Running { start_height: u64 },
    /// The output is being kept and the version that it asks for, if any,
    /// is being judged.
    Storing { upgrade: Option<String> },
    /// The run is over.
    Finished,
}

/// Mathematical model of the state of a run.
pub enum RunStateModel {
    Idle,
    Provisioning { start_height: u64 },
    Running { start_height: u64 },
    Storing { upgrade: Option<Seq<char>> },
    Finished,
}

/// The model of a text that may be absent.
pub open spec fn text_of(text: Option<String>) -> Option<Seq<char>> {
    match text {
        Some(t) => Some(t@),
        None => None,
    }
}

impl DeepView for RunState {
    type V = RunStateModel;

    open spec fn deep_view(&self) -> RunStateModel {
        match self {
            RunState::Idle => RunStateModel::Idle,
            RunState::Provisioning { start_height } => RunStateModel::Provisioning {
                start_height: *start_height,
            },
            RunState::Running { start_height } => RunStateModel::Running {
                start_height: *start_height,
            },
            RunState::Storing { upgrade } => RunStateModel::Storing { upgrade: text_of(*upgrade) },
            RunState::Finished => RunStateModel::Finished,
        }
    }
}

/// What the caller reports to a run.
#[derive(Debug, PartialEq, Eq)]
pub enum RunEvent {
    /// The run begins; the last checkpoint is at `start_height`.
    Begun { start_height: u64 },
    /// Provisioning has ended; the error says why it failed.
    Provisioned(Result<(), String>),
    /// The replay tool has run.
    Ran(CommandOutcome),
    /// The output was kept, or could not be, and the token of the version
    /// that the output asks for was judged: `token_defect` says what is
    /// wrong with it, if anything.
    Stored { written: Result<(), String>, token_defect: Option<String> },
}

/// What the caller is to do next.
#[derive(Debug, PartialEq, Eq)]
pub enum RunAction {
    /// Provide the executables and the configuration of the version for a
    /// replay from `start_height`.
    Provision { start_height: u64 },
    /// Run the replay tool and capture its standard output.
    Run { command: Invocation },
    /// Keep the captured output, as it is, in `log_file`; and judge whether
    /// `upgrade`, where there is one, is the token of a version.
    Store { log_file: String, upgrade: Option<String> },
    /// Nothing more: the run has ended with this result.
    Finish(ReplayResult),
    /// Nothing more: the run has failed with this error.
    Fail { error: String },
    /// The event does not belong to the state: do nothing.
    Ignore,
}

/// Mathematical model of an action of a run.
pub enum RunActionModel {
    Provision { start_height: u64 },
    Run { command: InvocationModel },
    Store { log_file: Seq<char>, upgrade: Option<Seq<char>> },
    Finish(ReplayResultModel),
    Fail { error: Seq<char> },
    Ignore,
}

impl DeepView for RunAction {
    type V = RunActionModel;

    open spec fn deep_view(&self) -> RunActionModel {
        match self {
            RunAction::Provision { start_height } => RunActionModel::Provision {
                start_height: *start_height,
            },
            RunAction::Run { command } => RunActionModel::Run { command: command.deep_view() },
            RunAction::Store { log_file, upgrade } => RunActionModel::Store {
                log_file: log_file@,
                upgrade: text_of(*upgrade),
            },
            RunAction::Finish(result) => RunActionModel::Finish(result.deep_view()),
            RunAction::Fail { error } => RunActionModel::Fail { error: error@ },
            RunAction::Ignore => RunActionModel::Ignore,
        }
    }
}

/// Where a replay cycle stands.
#[derive(Debug, PartialEq, Eq)]
pub enum ReplayState {
    /// Nothing has happened yet.
    Idle,
    /// The replay tool is running with the replica version `version`.
    Replaying { start_height: u64, version: String },
    /// The replay has ended; the height reached is being read.
    Measuring { start_height: u64 },
    /// The new state is being archived.
    Archiving { finish_height: u64 },
    /// The cycle is over.
    Finished,
}

/// Mathematical model of the state of a replay cycle.
pub enum ReplayStateModel {
    Idle,
    Replaying { start_height: u64, version: Seq<char> },
    Measuring { start_height: u64 },
    Archiving { finish_height: u64 },
    Finished,
}

impl DeepView for ReplayState {
    type V = ReplayStateModel;

    open spec fn deep_view(&self) -> ReplayStateModel {
        match self {
            ReplayState::Idle => ReplayStateModel::Idle,
            ReplayState::Replaying { start_height, version } => ReplayStateModel::Replaying {
                start_height: *start_height,
                version: version@,
            },
            ReplayState::Measuring { start_height } => ReplayStateModel::Measuring {
                start_height: *start_height,
            },
            ReplayState::Archiving { finish_height } => ReplayStateModel::Archiving {
                finish_height: *finish_height,
            },
            ReplayState::Finished => ReplayStateModel::Finished,
        }
    }
}

/// What the caller reports to a replay cycle.
#[derive(Debug, PartialEq, Eq)]
pub enum ReplayEvent {
    /// The cycle begins; the last checkpoint is at `start_height` and the
    /// spool holds `spool`.
    Started { start_height: u64, spool: Vec<VersionDir> },
    /// The replay tool has run with the current version.
    Replayed(Result<ReplayResult, String>),
    /// The last checkpoint is now at `finish_height`.
    Measured { finish_height: u64 },
    /// The state was archived, or archiving failed.
    Archived { ok: bool },
}

/// What the caller is to do next.
#[derive(Debug, PartialEq, Eq)]
pub enum ReplayAction {
    /// Run the replay tool with `version`.
    Replay { version: String },
    /// Send `notice`, then run the replay tool with `version`.
    UpgradeAndReplay { notice: String, version: String },
    /// Read the height of the last checkpoint.
    Measure,
    /// Archive the state at this height.
    Archive { height: u64 },
    /// Send `notice` and report the restored height, with the time the
    /// cycle took.
    ReportRestored { height: u64, notice: String },
    /// Report, as a failure, that the replay made no progress.
    ReportNoProgress { notice: String },
    /// Do nothing more: the failure has been reported by whoever met it.
    Stop,
    /// The event does not belong to the state: do nothing.
    Ignore,
}

/// Mathematical model of an action of a replay cycle.
pub enum ReplayActionModel {
    Replay { version: Seq<char> },
    UpgradeAndReplay { notice: Seq<char>, version: Seq<char> },
    Measure,
    Archive { height: u64 },
    ReportRestored { height: u64, notice: Seq<char> },
    ReportNoProgress { notice: Seq<char> },
    Stop,
    Ignore,
}

impl DeepView for ReplayAction {
    type V = ReplayActionModel;

    open spec fn deep_view(&self) -> ReplayActionModel {
        match self {
            ReplayAction::Replay { version } => ReplayActionModel::Replay { version: version@ },
            ReplayAction::UpgradeAndReplay {
                notice,
                version,
            } => ReplayActionModel::UpgradeAndReplay { notice: notice@, version: version@ },
            ReplayAction::Measure => ReplayActionModel::Measure,
            ReplayAction::Archive { height } => ReplayActionModel::Archive { height: *height },
            ReplayAction::ReportRestored {
                height,
                notice,
            } => ReplayActionModel::ReportRestored { height: *height, notice: notice@ },
            ReplayAction::ReportNoProgress { notice } => ReplayActionModel::ReportNoProgress {
                notice: notice@,
            },
            ReplayAction::Stop => ReplayActionModel::Stop,
            ReplayAction::Ignore => ReplayActionModel::Ignore,
        }
    }
}

/// The states that a cycle can reach from its start. The height that is
/// being archived lies above the height that the cycle started from.
pub open spec fn replay_reachable(state: ReplayStateModel, start: u64) -> bool {
    match state {
        ReplayStateModel::Idle => true,
        ReplayStateModel::Replaying { start_height, .. } => start_height == start,
        ReplayStateModel::Measuring { start_height } => start_height == start,
        ReplayStateModel::Archiving { finish_height } => finish_height > start,
        ReplayStateModel::Finished => true,
    }
}

/// The announcement of an upgrade from one version to another.
pub open spec fn upgrade_notice_text(current: Seq<char>, new: Seq<char>) -> Seq<char> {
    "Replica version upgrade detected (current: "@ + current + " new: "@ + new
        + "): upgrading the ic-replay tool to retry... 🤞"@
}

/// The report of a restored state.
pub open spec fn restored_notice_text(height: u64) -> Seq<char> {
    "✅ Successfully restored the state at height *"@ + decimal(height as nat) + "*"@
}

/// Builds the announcement of an upgrade.
pub fn upgrade_notice(current: &str, new: &str) -> (text: String)
    ensures
        text@ == upgrade_notice_text(current@, new@),
{
    let mut text = "Replica version upgrade detected (current: ".to_owned();
    text.append(current);
    text.append(" new: ");
    text.append(new);
    text.append("): upgrading the ic-replay tool to retry... 🤞");
    text
}

/// Builds the report of a state restored at `height`.
pub fn restored_notice(height: u64) -> (text: String)
    ensures
        text@ == restored_notice_text(height),
{
    let mut text = "✅ Successfully restored the state at height *".to_owned();
    push_decimal(&mut text, height);
    text.append("*");
    text
}

/// Builds the report of a replay that did not advance the height.
pub fn no_progress_notice() -> (text: String)
    ensures
        text@ == "No height progress after the last replay detected!"@,
{
    "No height progress after the last replay detected!".to_owned()
}

/// Whole minutes in a number of seconds.
pub fn elapsed_minutes(seconds: u64) -> (minutes: u64)
    ensures
        minutes == seconds / 60,
{
    seconds / 60
}

impl BackupHelper {
    /// The replica version that a cycle starts with: the one that the
    /// spool names for the last checkpoint, and the configured one where the
    /// spool names none.
    pub open spec fn starting_version(&self, spool: Seq<VersionDirModel>, last_checkpoint: u64)
        -> Seq<char> {
        match spool_version(spool, last_checkpoint) {
            Some(name) => name,
            None => self.initial_replica_version@,
        }
    }

    /// Determines the replica version that a cycle starts with.
    pub fn current_replica_version(&self, spool: &Vec<VersionDir>, last_checkpoint: u64) -> (version:
        String)
        ensures
            version@ == self.starting_version(spool.deep_view(), last_checkpoint),
            last_checkpoint == 0 ==> version@ == self.initial_replica_version@,
    {
        match retrieve_replica_version(spool, last_checkpoint) {
            Some(version) => version,
            None => self.initial_replica_version.clone(),
        }
    }

    /// The arguments of the replay tool, in the order that the tool
    /// expects: data root, subnet, configuration, subcommand, registry
    /// store, spool root, version, start height.
    pub open spec fn replay_args(&self, version: Seq<char>, start_height: u64) -> Seq<
        Seq<char>,
    > {
        seq![
            "--data-root"@,
            self.data_dir_path(),
            "--subnet-id"@,
            self.subnet_id@,
            self.config_file_path(version),
            "restore-from-backup2"@,
            self.local_store_dir_path(),
            self.spool_root_dir_path(),
            version,
            decimal(start_height as nat),
        ]
    }

    /// The invocation of the replay tool of `replica_version` that
    /// continues from `start_height`.
    pub fn replay_command(&self, replica_version: &str, start_height: u64) -> (cmd: Invocation)
        ensures
            cmd.deep_view() == (InvocationModel {
                program: self.binary_file_path("replay-tool"@, replica_version@),
                args: self.replay_args(replica_version@, start_height),
            }),
    {
        let mut args: Vec<String> = Vec::new();
        push_arg(&mut args, "--data-root");
        push_arg(&mut args, self.data_dir().as_str());
        push_arg(&mut args, "--subnet-id");
        push_arg(&mut args, self.subnet_id.as_str());
        push_arg(&mut args, self.ic_config_file_local(replica_version).as_str());
        push_arg(&mut args, "restore-from-backup2");
        push_arg(&mut args, self.local_store_dir().as_str());
        push_arg(&mut args, self.spool_root_dir().as_str());
        push_arg(&mut args, replica_version);
        push_arg(&mut args, decimal_string(start_height).as_str());
        assert(args.deep_view() =~= self.replay_args(replica_version@, start_height));
        Invocation { program: self.binary_file("replay-tool", replica_version), args }
    }

    /// The transition of one run of the replay tool of `version`. The
    /// executables come first; then the tool is run with its arguments in
    /// their fixed order; a tool that failed or wrote nothing is an error;
    /// the output is kept in the log file of the run; and where it asks for
    /// another version, the token of that version has to be one.
    pub open spec fn run_transition(&self, version: Seq<char>, state: RunState, event: RunEvent)
        -> (RunStateModel, RunActionModel) {
        match (state, event) {
            (RunState::Idle, RunEvent::Begun { start_height }) => (
                RunStateModel::Provisioning { start_height },
                RunActionModel::Provision { start_height },
            ),
            (RunState::Provisioning { start_height }, RunEvent::Provisioned(Ok(_))) => (
                RunStateModel::Running { start_height },
                RunActionModel::Run {
                    command: InvocationModel {
                        program: self.binary_file_path("replay-tool"@, version),
                        args: self.replay_args(version, start_height),
                    },
                },
            ),
            (RunState::Provisioning { start_height }, RunEvent::Provisioned(Err(reason))) => (
                RunStateModel::Finished,
                RunActionModel::Fail { error: reason@ },
            ),
            (RunState::Running { start_height }, RunEvent::Ran(outcome)) => match outcome {
                CommandOutcome::Failed(reason) => (
                    RunStateModel::Finished,
                    RunActionModel::Fail { error: reason@ },
                ),
                CommandOutcome::Silent => (
                    RunStateModel::Finished,
                    RunActionModel::Fail { error: "No ic-replay output"@ },
                ),
                CommandOutcome::Output(stdout) => (
                    RunStateModel::Storing { upgrade: upgrade_token(stdout@) },
                    RunActionModel::Store {
                        log_file: self.log_file_path(start_height),
                        upgrade: upgrade_token(stdout@),
                    },
                ),
            },
            (RunState::Storing { upgrade }, RunEvent::Stored { written, token_defect }) => (
                RunStateModel::Finished,
                match written {
                    Err(reason) => RunActionModel::Fail { error: reason@ },
                    Ok(_) => match upgrade {
                        None => RunActionModel::Finish(ReplayResultModel::Done),
                        Some(token) => match token_defect {
                            None => RunActionModel::Finish(
                                ReplayResultModel::UpgradeRequired(token@),
                            ),
                            Some(defect) => RunActionModel::Fail { error: defect@ },
                        },
                    },
                },
            ),
            _ => (state.deep_view(), RunActionModel::Ignore),
        }
    }

    /// Advances one run of the replay tool of `replica_version` by one
    /// event and says what is to be done next.
    pub fn replay_current_version(&self, replica_version: &str, state: RunState, event: RunEvent)
        -> (next: (RunState, RunAction))
        ensures
            next.0.deep_view() == self.run_transition(replica_version@, state, event).0,
            next.1.deep_view() == self.run_transition(replica_version@, state, event).1,
    {
        match (state, event) {
            (RunState::Idle, RunEvent::Begun { start_height }) => (
                RunState::Provisioning { start_height },
                RunAction::Provision { start_height },
            ),
            (RunState::Provisioning { start_height }, RunEvent::Provisioned(Ok(_))) => (
                RunState::Running { start_height },
                RunAction::Run { command: self.replay_command(replica_version, start_height) },
            ),
            (RunState::Provisioning { start_height }, RunEvent::Provisioned(Err(reason))) => (
                RunState::Finished,
                RunAction::Fail { error: reason },
            ),
            (RunState::Running { start_height }, RunEvent::Ran(outcome)) => match outcome {
                CommandOutcome::Failed(reason) => (
                    RunState::Finished,
                    RunAction::Fail { error: reason },
                ),
                CommandOutcome::Silent => (
                    RunState::Finished,
                    RunAction::Fail { error: "No ic-replay output".to_owned() },
                ),
                CommandOutcome::Output(stdout) => {
                    let upgrade = check_upgrade_request(stdout.as_str());
                    let kept = match &upgrade {
                        Some(token) => Some(token.clone()),
                        None => None,
                    };
                    (
                        RunState::Storing { upgrade: kept },
                        RunAction::Store { log_file: self.log_file(start_height), upgrade },
                    )
                },
            },
            (RunState::Storing { upgrade }, RunEvent::Stored { written, token_defect }) => (
                RunState::Finished,
                match written {
                    Err(reason) => RunAction::Fail { error: reason },
                    Ok(_) => match upgrade {
                        None => RunAction::Finish(ReplayResult::Done),
                        Some(token) => match token_defect {
                            None => RunAction::Finish(ReplayResult::UpgradeRequired(token)),
                            Some(defect) => RunAction::Fail { error: defect },
                        },
                    },
                },
            ),
            (state, _) => (state, RunAction::Ignore),
        }
    }

    /// The transition of a replay cycle. The first run uses the version
    /// that the spool names for the last checkpoint, and the configured
    /// one where the spool names none. An upgrade leads back into
    /// replaying, with the new version; a run that is done or has failed
    /// ends the replaying without a second try. The state is archived only
    /// if the height has advanced.
    pub open spec fn replay_transition(&self, state: ReplayState, event: ReplayEvent) -> (
        ReplayStateModel,
        ReplayActionModel,
    ) {
        match (state, event) {
            (ReplayState::Idle, ReplayEvent::Started { start_height, spool }) => (
                ReplayStateModel::Replaying {
                    start_height,
                    version: self.starting_version(spool.deep_view(), start_height),
                },
                ReplayActionModel::Replay {
                    version: self.starting_version(spool.deep_view(), start_height),
                },
            ),
            (
                ReplayState::Replaying { start_height, version },
                ReplayEvent::Replayed(Ok(ReplayResult::UpgradeRequired(new))),
            ) => (
                ReplayStateModel::Replaying { start_height, version: new@ },
                ReplayActionModel::UpgradeAndReplay {
                    notice: upgrade_notice_text(version@, new@),
                    version: new@,
                },
            ),
            (ReplayState::Replaying { start_height, version }, ReplayEvent::Replayed(_)) => (
                ReplayStateModel::Measuring { start_height },
                ReplayActionModel::Measure,
            ),
            (ReplayState::Measuring { start_height }, ReplayEvent::Measured { finish_height }) => {
                if finish_height > start_height {
                    (
                        ReplayStateModel::Archiving { finish_height },
                        ReplayActionModel::Archive { height: finish_height },
                    )
                } else {
                    (
                        ReplayStateModel::Finished,
                        ReplayActionModel::ReportNoProgress {
                            notice: "No height progress after the last replay detected!"@,
                        },
                    )
                }
            },
            (ReplayState::Archiving { finish_height }, ReplayEvent::Archived { ok }) => {
                if ok {
                    (
                        ReplayStateModel::Finished,
                        ReplayActionModel::ReportRestored {
                            height: finish_height,
                            notice: restored_notice_text(finish_height),
                        },
                    )
                } else {
                    (ReplayStateModel::Finished, ReplayActionModel::Stop)
                }
            },
            _ => (state.deep_view(), ReplayActionModel::Ignore),
        }
    }

    /// A cycle that started at a height archives and reports only heights
    /// above it, stays among the reachable states, and does nothing once it
    /// is finished. Without a checkpoint the first run uses the configured
    /// version, whatever the spool holds.
    pub proof fn lemma_replay_cycle(&self, state: ReplayState, event: ReplayEvent, start: u64)
        requires
            replay_reachable(state.deep_view(), start),
            state is Idle ==> (event is Started ==> event->start_height == start),
        ensures
            replay_reachable(self.replay_transition(state, event).0, start),
            self.replay_transition(state, event).1 matches ReplayActionModel::Archive { height }
                ==> height > start,
            self.replay_transition(state, event).1 matches ReplayActionModel::ReportRestored {
                height,
                ..
            } ==> height > start,
            state is Finished ==> self.replay_transition(state, event) == (
                ReplayStateModel::Finished,
                ReplayActionModel::Ignore,
            ),
            self.replay_transition(state, event).1 is ReportNoProgress ==> (event matches ReplayEvent::Measured {
                finish_height,
            } && finish_height <= start),
            state is Idle && event is Started && event->start_height == 0
                ==> self.replay_transition(state, event).1 == (ReplayActionModel::Replay {
                version: self.initial_replica_version@,
            }),
    {
    }

    /// Advances a replay cycle by one event and says what is to be done
    /// next.
    pub fn replay(&self, state: ReplayState, event: ReplayEvent) -> (next: (
        ReplayState,
        ReplayAction,
    ))
        ensures
            next.0.deep_view() == self.replay_transition(state, event).0,
            next.1.deep_view() == self.replay_transition(state, event).1,
    {
        match (state, event) {
            (ReplayState::Idle, ReplayEvent::Started { start_height, spool }) => {
                let version = self.current_replica_version(&spool, start_height);
                (
                    ReplayState::Replaying { start_height, version: version.clone() },
                    ReplayAction::Replay { version },
                )
            },
            (
                ReplayState::Replaying { start_height, version },
                ReplayEvent::Replayed(Ok(ReplayResult::UpgradeRequired(new))),
            ) => {
                let notice = upgrade_notice(version.as_str(), new.as_str());
                (
                    ReplayState::Replaying { start_height, version: new.clone() },
                    ReplayAction::UpgradeAndReplay { notice, version: new },
                )
            },
            (ReplayState::Replaying { start_height, version }, ReplayEvent::Replayed(_)) => (
                ReplayState::Measuring { start_height },
                ReplayAction::Measure,
            ),
            (ReplayState::Measuring { start_height }, ReplayEvent::Measured { finish_height }) => {
                if finish_height > start_height {
                    (
                        ReplayState::Archiving { finish_height },
                        ReplayAction::Archive { height: finish_height },
                    )
                } else {
                    (
                        ReplayState::Finished,
                        ReplayAction::ReportNoProgress { notice: no_progress_notice() },
                    )
                }
            },
            (ReplayState::Archiving { finish_height }, ReplayEvent::Archived { ok }) => {
                if ok {
                    (
                        ReplayState::Finished,
                        ReplayAction::ReportRestored {
                            height: finish_height,
                            notice: restored_notice(finish_height),
                        },
                    )
                } else {
                    (ReplayState::Finished, ReplayAction::Stop)
                }
            },
            (state, _) => (state, ReplayAction::Ignore),
        }
    }
}

} // verus!
