//! Making sure that the replay tool of a version can be run.
//!
//! Before anything is fetched, the spool has to hold the catch-up package
//! of the version at the height that the replay starts from: only then has
//! a node reached that version, and only then does its configuration fit
//! the artifacts. Then the three executables are fetched where they are
//! missing, one after the other, and last the configuration of a node.

use crate::command::{Invocation, InvocationModel};
use crate::layout::BackupHelper;
use crate::retry::{download_policy, download_retries, rsync_policy, rsync_retries, RetryPolicy};
use crate::sync::{config_failure_notice, remote_config};
use vstd::prelude::*;
use vstd::string::*;

verus! {

/// Number of executables that a replay needs.
pub const BINARY_COUNT: u8 = 3;

/// Seconds between two looks for the catch-up package.
pub const CUP_POLL_SECS: u64 = 30;

/// Where the provisioning stands.
#[derive(Clone, Copy, Debug, PartialEq, Eq, Structural)]
pub enum ProvisionState {
    /// Nothing has happened yet.
    Idle,
    /// Waiting for the catch-up package to appear in the spool.
    AwaitingCup,
    /// Looking whether executable number `index` is there.
    CheckingBinary { index: u8 },
    /// Fetching executable number `index`.
    FetchingBinary { index: u8 },
    /// Looking whether the configuration is there.
    CheckingConfig,
    /// Asking for a node to pull the configuration from.
    PickingNode,
    /// Pulling the configuration from the node.
    PullingConfig,
    /// Everything is in place.
    Ready,
    /// Provisioning has failed.
    Failed,
}

/// How the search for a node to pull the configuration from ended.
#[derive(Clone, Debug, PartialEq, Eq)]
pub enum NodeChoice {
    /// There is a node; the text is its address.
    Found(String),
    /// The subnet has no node with an endpoint.
    NoNode,
    /// The list of nodes could not be had; the text is what the registry
    /// reported.
    NoNodeList(String),
}

/// What the caller reports.
#[derive(Clone, Debug, PartialEq, Eq)]
pub enum ProvisionEvent {
    /// Provisioning begins.
    Begun,
    /// Whether the catch-up package is in the spool.
    CupSeen(bool),
    /// Whether the executable is there.
    BinarySeen(bool),
    /// Whether the executable could be fetched within the allowed
    /// attempts.
    BinaryFetched(bool),
    /// Whether the configuration is there.
    ConfigSeen(bool),
    /// How the search for a node ended.
    NodePicked(NodeChoice),
    /// The pull of the configuration has ended, well or not.
    ConfigPulled,
}

/// How one executable is fetched.
#[derive(Debug, PartialEq, Eq)]
pub struct BinaryFetch {
    /// The name of the executable.
    pub name: String,
    /// Where the executable is kept; nothing is fetched if it is there.
    pub file: String,
    /// The directory to fetch it into.
    pub dir: String,
    /// How often the download is tried.
    pub policy: RetryPolicy,
    /// The notification to send when every attempt has failed.
    pub notice: String,
    /// The error to return in that case.
    pub error: String,
}

/// Mathematical model of the way an executable is fetched.
pub struct BinaryFetchModel {
    pub name: Seq<char>,
    pub file: Seq<char>,
    pub dir: Seq<char>,
    pub policy: RetryPolicy,
    pub notice: Seq<char>,
    pub error: Seq<char>,
}

impl DeepView for BinaryFetch {
    type V = BinaryFetchModel;

    open spec fn deep_view(&self) -> BinaryFetchModel {
        BinaryFetchModel {
            name: self.name@,
            file: self.file@,
            dir: self.dir@,
            policy: self.policy,
            notice: self.notice@,
            error: self.error@,
        }
    }
}

/// What the caller is to do next.
#[derive(Debug, PartialEq, Eq)]
pub enum ProvisionAction {
    /// Look whether the file at `path` exists: the catch-up package.
    LookForCup { path: String },
    /// Pause for `secs` seconds, then look again whether the file at `path`
    /// exists.
    WaitForCup { secs: u64, path: String },
    /// Take the lock for downloads if it is not held yet, and look whether
    /// the file `file` exists: executable number `index`.
    LookForBinary { index: u8, file: String },
    /// Fetch executable number `index` as `fetch` says, trying again as
    /// its policy allows.
    FetchBinary { index: u8, fetch: BinaryFetch },
    /// Look whether the file `file` exists: the configuration.
    LookForConfig { file: String },
    /// Pick one node of the subnet at random.
    PickNode,
    /// Pull the configuration with `command`, trying again as `policy`
    /// allows; where every attempt fails, send `notice` and go on.
    PullConfig { command: Invocation, policy: RetryPolicy, notice: String },
    /// Nothing more: the replay tool can be run.
    Finish,
    /// Nothing more: provisioning has failed with `error`. The notice,
    /// where there is one, is to be sent as a failure notification.
    Fail { notice: Option<String>, error: String },
    /// The event does not belong to the state: do nothing.
    Ignore,
}

/// Mathematical model of an action of provisioning.
pub enum ProvisionActionModel {
    LookForCup { path: Seq<char> },
    WaitForCup { secs: u64, path: Seq<char> },
    LookForBinary { index: u8, file: Seq<char> },
    FetchBinary { index: u8, fetch: BinaryFetchModel },
    LookForConfig { file: Seq<char> },
    PickNode,
    PullConfig { command: InvocationModel, policy: RetryPolicy, notice: Seq<char> },
    Finish,
    Fail { notice: Option<Seq<char>>, error: Seq<char> },
    Ignore,
}

impl DeepView for ProvisionAction {
    type V = ProvisionActionModel;

    open spec fn deep_view(&self) -> ProvisionActionModel {
        match self {
            ProvisionAction::LookForCup { path } => ProvisionActionModel::LookForCup {
                path: path@,
            },
            ProvisionAction::WaitForCup { secs, path } => ProvisionActionModel::WaitForCup {
                secs: *secs,
                path: path@,
            },
            ProvisionAction::LookForBinary { index, file } => ProvisionActionModel::LookForBinary {
                index: *index,
                file: file@,
            },
            ProvisionAction::FetchBinary { index, fetch } => ProvisionActionModel::FetchBinary {
                index: *index,
                fetch: fetch.deep_view(),
            },
            ProvisionAction::LookForConfig { file } => ProvisionActionModel::LookForConfig {
                file: file@,
            },
            ProvisionAction::PickNode => ProvisionActionModel::PickNode,
            ProvisionAction::PullConfig {
                command,
                policy,
                notice,
            } => ProvisionActionModel::PullConfig {
                command: command.deep_view(),
                policy: *policy,
                notice: notice@,
            },
            ProvisionAction::Finish => ProvisionActionModel::Finish,
            ProvisionAction::Fail { notice, error } => ProvisionActionModel::Fail {
                notice: match notice {
                    Some(text) => Some(text@),
                    None => None,
                },
                error: error@,
            },
            ProvisionAction::Ignore => ProvisionActionModel::Ignore,
        }
    }
}

/// How far provisioning has come, as a number that never goes down: the
/// executables count in their order, the configuration after them.
pub open spec fn provision_rank(state: ProvisionState) -> int {
    match state {
        ProvisionState::Idle => 0,
        ProvisionState::AwaitingCup => 1,
        ProvisionState::CheckingBinary { index } => 2 + 2 * index,
        ProvisionState::FetchingBinary { index } => 3 + 2 * index,
        ProvisionState::CheckingConfig => 8,
        ProvisionState::PickingNode => 9,
        ProvisionState::PullingConfig => 10,
        ProvisionState::Ready => 11,
        ProvisionState::Failed => 11,
    }
}

/// The name of executable number `index`.
pub open spec fn binary_name_text(index: u8) -> Seq<char> {
    if index == 0 {
        "replay-tool"@
    } else if index == 1 {
        "sandbox-launcher"@
    } else {
        "canister-sandbox"@
    }
}

/// Returns the name of executable number `index`: the replay tool first,
/// then the two executables it starts.
pub fn binary_name(index: u8) -> (name: &'static str)
    ensures
        name@ == binary_name_text(index),
{
    if index == 0 {
        "replay-tool"
    } else if index == 1 {
        "sandbox-launcher"
    } else {
        "canister-sandbox"
    }
}

impl BackupHelper {
    /// How the executable `binary_name` of `version` is fetched.
    pub open spec fn fetch_of(&self, binary_name: Seq<char>, version: Seq<char>)
        -> BinaryFetchModel {
        BinaryFetchModel {
            name: binary_name,
            file: self.binary_file_path(binary_name, version),
            dir: self.binary_dir_path(version),
            policy: download_policy(),
            notice: "Couldn't download: "@ + binary_name,
            error: "Binary "@ + binary_name + " is required for the replica "@ + version,
        }
    }

    /// What follows once executable number `index` is in place: the next
    /// executable, or the configuration after the last one.
    pub open spec fn after_binary(&self, version: Seq<char>, index: u8) -> (
        ProvisionState,
        ProvisionActionModel,
    ) {
        if index + 1 < BINARY_COUNT {
            (
                ProvisionState::CheckingBinary { index: (index + 1) as u8 },
                ProvisionActionModel::LookForBinary {
                    index: (index + 1) as u8,
                    file: self.binary_file_path(binary_name_text((index + 1) as u8), version),
                },
            )
        } else {
            (
                ProvisionState::CheckingConfig,
                ProvisionActionModel::LookForConfig { file: self.config_file_path(version) },
            )
        }
    }

    /// The transition of the provisioning for the replay of `version` from
    /// `start_height`. The file that gates everything is the catch-up
    /// package of that version at that height in the spool of the subnet.
    pub open spec fn provision_transition(
        &self,
        version: Seq<char>,
        start_height: u64,
        state: ProvisionState,
        event: ProvisionEvent,
    ) -> (ProvisionState, ProvisionActionModel) {
        match (state, event) {
            (ProvisionState::Idle, ProvisionEvent::Begun) => (
                ProvisionState::AwaitingCup,
                ProvisionActionModel::LookForCup {
                    path: self.cup_file_path(version, start_height),
                },
            ),
            (ProvisionState::AwaitingCup, ProvisionEvent::CupSeen(seen)) => if seen {
                (
                    ProvisionState::CheckingBinary { index: 0 },
                    ProvisionActionModel::LookForBinary {
                        index: 0,
                        file: self.binary_file_path(binary_name_text(0), version),
                    },
                )
            } else {
                (
                    ProvisionState::AwaitingCup,
                    ProvisionActionModel::WaitForCup {
                        secs: CUP_POLL_SECS,
                        path: self.cup_file_path(version, start_height),
                    },
                )
            },
            (ProvisionState::CheckingBinary { index }, ProvisionEvent::BinarySeen(seen)) => if seen {
                self.after_binary(version, index)
            } else {
                (
                    ProvisionState::FetchingBinary { index },
                    ProvisionActionModel::FetchBinary {
                        index,
                        fetch: self.fetch_of(binary_name_text(index), version),
                    },
                )
            },
            (ProvisionState::FetchingBinary { index }, ProvisionEvent::BinaryFetched(ok)) => if ok {
                self.after_binary(version, index)
            } else {
                (
                    ProvisionState::Failed,
                    ProvisionActionModel::Fail {
                        notice: Some(self.fetch_of(binary_name_text(index), version).notice),
                        error: self.fetch_of(binary_name_text(index), version).error,
                    },
                )
            },
            (ProvisionState::CheckingConfig, ProvisionEvent::ConfigSeen(seen)) => if seen {
                (ProvisionState::Ready, ProvisionActionModel::Finish)
            } else {
                (ProvisionState::PickingNode, ProvisionActionModel::PickNode)
            },
            (ProvisionState::PickingNode, ProvisionEvent::NodePicked(choice)) => match choice {
                NodeChoice::Found(node_ip) => (
                    ProvisionState::PullingConfig,
                    ProvisionActionModel::PullConfig {
                        command: InvocationModel {
                            program: "rsync"@,
                            args: self.rsync_args(
                                remote_config("backup"@, node_ip@),
                                self.config_file_path(version),
                                seq!["-q"@],
                            ),
                        },
                        policy: rsync_policy(),
                        notice: "Couldn't pull ic.json5 from the nodes!"@,
                    },
                ),
                NodeChoice::NoNode => (
                    ProvisionState::Failed,
                    ProvisionActionModel::Fail {
                        notice: None,
                        error: "Error getting first node."@,
                    },
                ),
                NodeChoice::NoNodeList(reason) => (
                    ProvisionState::Failed,
                    ProvisionActionModel::Fail {
                        notice: None,
                        error: "Error fetching subnet node list: "@ + reason@,
                    },
                ),
            },
            (ProvisionState::PullingConfig, ProvisionEvent::ConfigPulled) => (
                ProvisionState::Ready,
                ProvisionActionModel::Finish,
            ),
            _ => (state, ProvisionActionModel::Ignore),
        }
    }

    /// Nothing is fetched before the catch-up package has been seen: the
    /// wait is left only by the event that reports it, and until then the
    /// only thing asked for is a look at that one file. From then on
    /// provisioning never goes back, executables are handled in their
    /// order, and a state that has ended stays as it is.
    pub proof fn lemma_provision_order(
        &self,
        version: Seq<char>,
        start_height: u64,
        state: ProvisionState,
        event: ProvisionEvent,
    )
        requires
            state matches ProvisionState::CheckingBinary { index } ==> index < BINARY_COUNT,
            state matches ProvisionState::FetchingBinary { index } ==> index < BINARY_COUNT,
        ensures
            state is AwaitingCup && event != ProvisionEvent::CupSeen(true)
                ==> self.provision_transition(version, start_height, state, event).0
                is AwaitingCup,
            (state is Idle || state is AwaitingCup) ==> ({
                let action = self.provision_transition(version, start_height, state, event).1;
                ||| action is Ignore
                ||| action == (ProvisionActionModel::LookForCup {
                    path: self.cup_file_path(version, start_height),
                })
                ||| action == (ProvisionActionModel::WaitForCup {
                    secs: CUP_POLL_SECS,
                    path: self.cup_file_path(version, start_height),
                })
                ||| (action is LookForBinary && event == ProvisionEvent::CupSeen(true))
            }),
            provision_rank(self.provision_transition(version, start_height, state, event).0)
                >= provision_rank(state),
            self.provision_transition(
                version,
                start_height,
                state,
                event,
            ).0 matches ProvisionState::CheckingBinary { index } ==> index < BINARY_COUNT,
            self.provision_transition(
                version,
                start_height,
                state,
                event,
            ).0 matches ProvisionState::FetchingBinary { index } ==> index < BINARY_COUNT,
            self.provision_transition(
                version,
                start_height,
                state,
                event,
            ).1 matches ProvisionActionModel::FetchBinary { index, .. } ==> state == (
            ProvisionState::CheckingBinary { index }),
            (state is Ready || state is Failed) ==> self.provision_transition(
                version,
                start_height,
                state,
                event,
            ) == (state, ProvisionActionModel::Ignore),
    {
    }

    /// Says how the executable `binary_name` of `replica_version` is
    /// fetched and what is reported when that fails.
    pub fn download_binary(&self, binary_name: &str, replica_version: &str) -> (fetch:
        BinaryFetch)
        ensures
            fetch.deep_view() == self.fetch_of(binary_name@, replica_version@),
    {
        let mut notice = "Couldn't download: ".to_owned();
        notice.append(binary_name);
        let mut error = "Binary ".to_owned();
        error.append(binary_name);
        error.append(" is required for the replica ");
        error.append(replica_version);
        BinaryFetch {
            name: binary_name.to_owned(),
            file: self.binary_file(binary_name, replica_version),
            dir: self.binary_dir(replica_version),
            policy: download_retries(),
            notice,
            error,
        }
    }

    /// Says what follows once executable number `index` is in place.
    fn next_after_binary(&self, replica_version: &str, index: u8) -> (next: (
        ProvisionState,
        ProvisionAction,
    ))
        ensures
            next.0 == self.after_binary(replica_version@, index).0,
            next.1.deep_view() == self.after_binary(replica_version@, index).1,
    {
        if index < BINARY_COUNT - 1 {
            (
                ProvisionState::CheckingBinary { index: index + 1 },
                ProvisionAction::LookForBinary {
                    index: index + 1,
                    file: self.binary_file(binary_name(index + 1), replica_version),
                },
            )
        } else {
            (
                ProvisionState::CheckingConfig,
                ProvisionAction::LookForConfig { file: self.ic_config_file_local(replica_version) },
            )
        }
    }

    /// Advances the provisioning for the replay of `replica_version` from
    /// `start_height` by one event and says what is to be done next.
    pub fn download_binaries(
        &self,
        replica_version: &str,
        start_height: u64,
        state: ProvisionState,
        event: ProvisionEvent,
    ) -> (next: (ProvisionState, ProvisionAction))
        ensures
            next.0 == self.provision_transition(replica_version@, start_height, state, event).0,
            next.1.deep_view() == self.provision_transition(
                replica_version@,
                start_height,
                state,
                event,
            ).1,
    {
        match (state, event) {
            (ProvisionState::Idle, ProvisionEvent::Begun) => (
                ProvisionState::AwaitingCup,
                ProvisionAction::LookForCup {
                    path: self.cup_file_location(replica_version, start_height),
                },
            ),
            (ProvisionState::AwaitingCup, ProvisionEvent::CupSeen(seen)) => {
                if seen {
                    (
                        ProvisionState::CheckingBinary { index: 0 },
                        ProvisionAction::LookForBinary {
                            index: 0,
                            file: self.binary_file(binary_name(0), replica_version),
                        },
                    )
                } else {
                    (
                        ProvisionState::AwaitingCup,
                        ProvisionAction::WaitForCup {
                            secs: CUP_POLL_SECS,
                            path: self.cup_file_location(replica_version, start_height),
                        },
                    )
                }
            },
            (ProvisionState::CheckingBinary { index }, ProvisionEvent::BinarySeen(seen)) => {
                if seen {
                    self.next_after_binary(replica_version, index)
                } else {
                    (
                        ProvisionState::FetchingBinary { index },
                        ProvisionAction::FetchBinary {
                            index,
                            fetch: self.download_binary(binary_name(index), replica_version),
                        },
                    )
                }
            },
            (ProvisionState::FetchingBinary { index }, ProvisionEvent::BinaryFetched(ok)) => {
                if ok {
                    self.next_after_binary(replica_version, index)
                } else {
                    let fetch = self.download_binary(binary_name(index), replica_version);
                    (
                        ProvisionState::Failed,
                        ProvisionAction::Fail { notice: Some(fetch.notice), error: fetch.error },
                    )
                }
            },
            (ProvisionState::CheckingConfig, ProvisionEvent::ConfigSeen(seen)) => {
                if seen {
                    (ProvisionState::Ready, ProvisionAction::Finish)
                } else {
                    (ProvisionState::PickingNode, ProvisionAction::PickNode)
                }
            },
            (ProvisionState::PickingNode, ProvisionEvent::NodePicked(choice)) => match choice {
                NodeChoice::Found(node_ip) => (
                    ProvisionState::PullingConfig,
                    ProvisionAction::PullConfig {
                        command: self.rsync_config(node_ip.as_str(), replica_version),
                        policy: rsync_retries(),
                        notice: config_failure_notice(),
                    },
                ),
                NodeChoice::NoNode => (
                    ProvisionState::Failed,
                    ProvisionAction::Fail {
                        notice: None,
                        error: "Error getting first node.".to_owned(),
                    },
                ),
                NodeChoice::NoNodeList(reason) => {
                    let mut error = "Error fetching subnet node list: ".to_owned();
                    error.append(reason.as_str());
                    (ProvisionState::Failed, ProvisionAction::Fail { notice: None, error })
                },
            },
            (ProvisionState::PullingConfig, ProvisionEvent::ConfigPulled) => (
                ProvisionState::Ready,
                ProvisionAction::Finish,
            ),
            (state, _) => (state, ProvisionAction::Ignore),
        }
    }
}

} // verus!
