//! Pulling artifacts and configuration from the nodes of the subnet.
//!
//! Nodes are addressed by the text of their address. They are pulled from
//! one after the other; what a pull from one node looks like and how often
//! it is tried is decided here, and so is which nodes are asked when only
//! some are needed.

use crate::command::{push_arg, Invocation, InvocationModel};
use crate::layout::BackupHelper;
use crate::retry::{retry_step, retry_transition, rsync_policy, rsync_retries};
use crate::retry::{RetryAction, RetryEvent, RetryState};
use rand::seq::SliceRandom;
use vstd::prelude::*;
use vstd::string::*;

verus! {

/// How a node can be reached.
#[derive(Clone, Debug, PartialEq, Eq)]
pub struct ConnectionEndpoint {
    pub ip_addr: String,
    pub port: u32,
}

/// What the registry records about a node, as far as it matters here.
#[derive(Clone, Debug, PartialEq, Eq)]
pub struct NodeRecord {
    /// The endpoint of the node, where the registry knows one.
    pub http: Option<ConnectionEndpoint>,
}

/// Calls `rand::seq::SliceRandom::shuffle` with the generator of the
/// thread. The call swaps elements and does nothing else, so whatever the
/// order that comes out, the nodes are the same as before, each as often
/// as before.
#[verifier::external_body]
fn shuffle_nodes(nodes: &mut Vec<String>)
    ensures
        final(nodes).deep_view().to_multiset() == old(nodes).deep_view().to_multiset(),
{
    nodes.shuffle(&mut rand::thread_rng());
}

/// The addresses of the nodes that the registry has a record and an
/// endpoint for, in the order of the records.
pub open spec fn endpoint_addresses(records: Seq<Option<NodeRecord>>) -> Seq<Seq<char>>
    decreases records.len(),
{
    if records.len() == 0 {
        Seq::empty()
    } else {
        let rest = endpoint_addresses(records.drop_last());
        match records.last() {
            Some(NodeRecord { http: Some(endpoint) }) => rest.push(endpoint.ip_addr@),
            _ => rest,
        }
    }
}

/// The remote location of the artifacts of a subnet on a node.
pub open spec fn remote_spool(user: Seq<char>, node_ip: Seq<char>, subnet: Seq<char>) -> Seq<
    char,
> {
    user + "@["@ + node_ip + "]:/var/lib/ic/backup/"@ + subnet + "/"@
}

/// The remote location of the configuration of a node.
pub open spec fn remote_config(user: Seq<char>, node_ip: Seq<char>) -> Seq<char> {
    user + "@["@ + node_ip + "]:/run/ic-node/config/ic.json5"@
}

/// Collects the addresses of the nodes that have a record with an
/// endpoint. A node without a record or without an endpoint is passed
/// over.
pub fn collect_all_subnet_nodes(records: &Vec<Option<NodeRecord>>) -> (nodes: Vec<String>)
    ensures
        nodes.deep_view() == endpoint_addresses(records@),
{
    let mut nodes: Vec<String> = Vec::new();
    let mut i: usize = 0;
    while i < records.len()
        invariant
            i <= records.len(),
            nodes.deep_view() == endpoint_addresses(records@.take(i as int)),
        decreases records.len() - i,
    {
        proof {
            assert(records@.take(i + 1).drop_last() =~= records@.take(i as int));
        }
        match &records[i] {
            Some(NodeRecord { http: Some(endpoint) }) => {
                nodes.push(endpoint.ip_addr.clone());
            },
            _ => {},
        }
        i = i + 1;
    }
    assert(records@.take(i as int) =~= records@);
    nodes
}

/// Keeps the first `num_nodes` of the nodes, or all of them where there
/// are fewer.
pub fn take_nodes(nodes: Vec<String>, num_nodes: usize) -> (picked: Vec<String>)
    ensures
        picked.deep_view() == nodes.deep_view().take(
            if num_nodes <= nodes.len() {
                num_nodes as int
            } else {
                nodes.len() as int
            },
        ),
{
    let mut picked = nodes;
    picked.truncate(num_nodes);
    assert(picked.deep_view() =~= nodes.deep_view().take(
        if num_nodes <= nodes.len() {
            num_nodes as int
        } else {
            nodes.len() as int
        },
    ));
    picked
}

/// The notification for a node from which no artifacts could be pulled.
pub fn spool_failure_notice() -> (text: String)
    ensures
        text@ == "Couldn't pull artifacts from the nodes!"@,
{
    "Couldn't pull artifacts from the nodes!".to_owned()
}

/// The notification for a node from which no configuration could be
/// pulled.
pub fn config_failure_notice() -> (text: String)
    ensures
        text@ == "Couldn't pull ic.json5 from the nodes!"@,
{
    "Couldn't pull ic.json5 from the nodes!".to_owned()
}

/// Whole minutes in a number of seconds, as reported for the duration of
/// a pull.
pub fn sync_minutes(elapsed_seconds: u64) -> (minutes: u64)
    ensures
        minutes == elapsed_seconds / 60,
{
    elapsed_seconds / 60
}

/// Where a pass over the nodes stands.
#[derive(Clone, Copy, Debug, PartialEq, Eq, Structural)]
pub enum SyncState {
    /// Nothing has happened yet.
    Idle,
    /// Artifacts are being pulled from node number `node`; `failed` pulls
    /// from it came before.
    Pulling { node: usize, failed: u64 },
    /// The pause after failure number `failed` of node number `node`.
    Resting { node: usize, failed: u64 },
    /// Node number `node` is being reported as failed.
    Reporting { node: usize },
    /// The pass is over.
    Finished,
}

/// What the caller reports to a pass over the nodes.
#[derive(Clone, Copy, Debug, PartialEq, Eq, Structural)]
pub enum SyncEvent {
    Begun,
    PullSucceeded,
    PullFailed,
    Rested,
    Reported,
}

/// What the caller is to do next.
#[derive(Debug, PartialEq, Eq)]
pub enum SyncAction {
    /// Run the pull.
    Pull { command: Invocation },
    /// Pause for this many seconds.
    Rest { secs: u64 },
    /// Warn that nothing was pulled from the node and send `notice` as a
    /// failure notification.
    ReportFailure { notice: String },
    /// Nothing more: report how long the pass took.
    Finish,
    /// The event does not belong to the state: do nothing.
    Ignore,
}

/// Mathematical model of an action of a pass over the nodes.
pub enum SyncActionModel {
    Pull { command: InvocationModel },
    Rest { secs: u64 },
    ReportFailure { notice: Seq<char> },
    Finish,
    Ignore,
}

impl DeepView for SyncAction {
    type V = SyncActionModel;

    open spec fn deep_view(&self) -> SyncActionModel {
        match self {
            SyncAction::Pull { command } => SyncActionModel::Pull { command: command.deep_view() },
            SyncAction::Rest { secs } => SyncActionModel::Rest { secs: *secs },
            SyncAction::ReportFailure { notice } => SyncActionModel::ReportFailure {
                notice: notice@,
            },
            SyncAction::Finish => SyncActionModel::Finish,
            SyncAction::Ignore => SyncActionModel::Ignore,
        }
    }
}

impl BackupHelper {
    /// The arguments of a remote copy: the remote shell with the private
    /// key, the time limit of the transport, the arguments of the caller,
    /// the smallest size of a file worth copying, and the two locations.
    pub open spec fn rsync_args(
        &self,
        remote_dir: Seq<char>,
        local_dir: Seq<char>,
        arguments: Seq<Seq<char>>,
    ) -> Seq<Seq<char>> {
        seq![
            "-e"@,
            "ssh -o StrictHostKeyChecking=no -i "@ + self.ssh_private_key@,
            "--timeout=60"@,
        ] + arguments + seq!["--min-size=1"@, remote_dir, local_dir]
    }

    /// The invocation that pulls the artifacts of the subnet from one
    /// node into the spool.
    pub open spec fn spool_pull(&self, node_ip: Seq<char>) -> InvocationModel {
        InvocationModel {
            program: "rsync"@,
            args: self.rsync_args(
                remote_spool("backup"@, node_ip, self.subnet_id@),
                self.spool_dir_path(),
                seq!["-qam"@, "--append-verify"@],
            ),
        }
    }

    /// The invocation of a remote copy from `remote_dir` to `local_dir`.
    pub fn rsync_remote_cmd(&self, remote_dir: &str, local_dir: &str, arguments: &Vec<String>)
        -> (cmd: Invocation)
        ensures
            cmd.deep_view() == (InvocationModel {
                program: "rsync"@,
                args: self.rsync_args(remote_dir@, local_dir@, arguments.deep_view()),
            }),
    {
        let mut args: Vec<String> = Vec::new();
        push_arg(&mut args, "-e");
        let mut shell = "ssh -o StrictHostKeyChecking=no -i ".to_owned();
        shell.append(self.ssh_private_key.as_str());
        push_arg(&mut args, shell.as_str());
        push_arg(&mut args, "--timeout=60");
        let ghost head = args.deep_view();
        let mut i: usize = 0;
        while i < arguments.len()
            invariant
                i <= arguments.len(),
                args.deep_view() == head + arguments.deep_view().take(i as int),
            decreases arguments.len() - i,
        {
            push_arg(&mut args, arguments[i].as_str());
            i = i + 1;
        }
        push_arg(&mut args, "--min-size=1");
        push_arg(&mut args, remote_dir);
        push_arg(&mut args, local_dir);
        assert(args.deep_view() =~= self.rsync_args(
            remote_dir@,
            local_dir@,
            arguments.deep_view(),
        ));
        Invocation { program: "rsync".to_owned(), args }
    }

    /// The invocation that pulls the artifacts of the subnet from the node
    /// at `node_ip` into the spool: quietly, keeping attributes, leaving
    /// out empty directories, and appending to files that are already
    /// there after checking them.
    pub fn rsync_spool(&self, node_ip: &str) -> (cmd: Invocation)
        ensures
            cmd.deep_view() == self.spool_pull(node_ip@),
    {
        proof {
            reveal_strlit("/");
        }
        let mut remote_dir = self.username();
        remote_dir.append("@[");
        remote_dir.append(node_ip);
        remote_dir.append("]:/var/lib/ic/backup/");
        remote_dir.append(self.subnet_id.as_str());
        remote_dir.append("/");
        let mut arguments: Vec<String> = Vec::new();
        push_arg(&mut arguments, "-qam");
        push_arg(&mut arguments, "--append-verify");
        assert(arguments.deep_view() =~= seq!["-qam"@, "--append-verify"@]);
        self.rsync_remote_cmd(remote_dir.as_str(), self.spool_dir().as_str(), &arguments)
    }

    /// The invocation that pulls the configuration of the node at
    /// `node_ip` to where the configuration of `replica_version` is kept.
    pub fn rsync_config(&self, node_ip: &str, replica_version: &str) -> (cmd: Invocation)
        ensures
            cmd.deep_view() == (InvocationModel {
                program: "rsync"@,
                args: self.rsync_args(
                    remote_config("backup"@, node_ip@),
                    self.config_file_path(replica_version@),
                    seq!["-q"@],
                ),
            }),
    {
        let mut remote_dir = self.username();
        remote_dir.append("@[");
        remote_dir.append(node_ip);
        remote_dir.append("]:/run/ic-node/config/ic.json5");
        let mut arguments: Vec<String> = Vec::new();
        push_arg(&mut arguments, "-q");
        assert(arguments.deep_view() =~= seq!["-q"@]);
        self.rsync_remote_cmd(
            remote_dir.as_str(),
            self.ic_config_file_local(replica_version).as_str(),
            &arguments,
        )
    }

    /// What follows once the pass is through with the nodes before number
    /// `node`: the first pull from that node, or the end after the last.
    pub open spec fn next_pull(&self, nodes: Seq<Seq<char>>, node: int) -> (
        SyncState,
        SyncActionModel,
    ) {
        if 0 <= node < nodes.len() {
            (
                SyncState::Pulling { node: node as usize, failed: 0 },
                SyncActionModel::Pull { command: self.spool_pull(nodes[node]) },
            )
        } else {
            (SyncState::Finished, SyncActionModel::Finish)
        }
    }

    /// The transition of a pass over the nodes. The nodes are pulled from
    /// one after the other, in their order. A pull that fails is tried
    /// again as the policy for remote copies has it; a node whose pulls
    /// all fail is reported, and the pass goes on with the next node.
    pub open spec fn sync_transition(&self, nodes: Seq<Seq<char>>, state: SyncState, event: SyncEvent)
        -> (SyncState, SyncActionModel) {
        match (state, event) {
            (SyncState::Idle, SyncEvent::Begun) => self.next_pull(nodes, 0),
            (SyncState::Pulling { node, failed }, SyncEvent::PullSucceeded) => if node
                < nodes.len() {
                self.next_pull(nodes, node + 1)
            } else {
                (state, SyncActionModel::Ignore)
            },
            (SyncState::Pulling { node, failed }, SyncEvent::PullFailed) => match retry_transition(
                rsync_policy(),
                RetryState::Trying { failed },
                RetryEvent::AttemptFailed,
            ) {
                (RetryState::Resting { failed: now }, RetryAction::Rest { secs }) => if node
                    < nodes.len() {
                    (SyncState::Resting { node, failed: now }, SyncActionModel::Rest { secs })
                } else {
                    (state, SyncActionModel::Ignore)
                },
                _ => (state, SyncActionModel::Ignore),
            },
            (SyncState::Resting { node, failed }, SyncEvent::Rested) => if node < nodes.len() {
                match retry_transition(
                    rsync_policy(),
                    RetryState::Resting { failed },
                    RetryEvent::Rested,
                ) {
                    (RetryState::Trying { failed: now }, _) => (
                        SyncState::Pulling { node, failed: now },
                        SyncActionModel::Pull { command: self.spool_pull(nodes[node as int]) },
                    ),
                    _ => (
                        SyncState::Reporting { node },
                        SyncActionModel::ReportFailure {
                            notice: "Couldn't pull artifacts from the nodes!"@,
                        },
                    ),
                }
            } else {
                (state, SyncActionModel::Ignore)
            },
            (SyncState::Reporting { node }, SyncEvent::Reported) => if node < nodes.len() {
                self.next_pull(nodes, node + 1)
            } else {
                (state, SyncActionModel::Ignore)
            },
            _ => (state, SyncActionModel::Ignore),
        }
    }

    /// A node is reported as failed only after the pause that follows its
    /// fifth failed pull, and is pulled from again only after fewer; after
    /// the report the pass goes on with the next node, as it does after a
    /// pull that went through; and no node is pulled from out of its turn.
    pub proof fn lemma_sync_order(&self, nodes: Seq<Seq<char>>, state: SyncState, event: SyncEvent)
        ensures
            self.sync_transition(nodes, state, event).1 is ReportFailure ==> (state matches SyncState::Resting {
                failed,
                ..
            } && failed >= 5),
            state is Resting && event is Rested && state->Resting_node < nodes.len()
                && state->Resting_failed < 5 ==> self.sync_transition(nodes, state, event) == (
                SyncState::Pulling { node: state->Resting_node, failed: state->Resting_failed },
                SyncActionModel::Pull {
                    command: self.spool_pull(nodes[state->Resting_node as int]),
                },
            ),
            state is Reporting && event is Reported && state->Reporting_node < nodes.len()
                ==> self.sync_transition(nodes, state, event) == self.next_pull(
                nodes,
                state->Reporting_node + 1,
            ),
            state is Pulling && event is PullSucceeded && state->Pulling_node < nodes.len()
                ==> self.sync_transition(nodes, state, event) == self.next_pull(
                nodes,
                state->Pulling_node + 1,
            ),
            self.sync_transition(nodes, state, event).1 is Pull ==> (self.sync_transition(
                nodes,
                state,
                event,
            ).0 matches SyncState::Pulling { node, .. } && node < nodes.len()),
            state is Finished ==> self.sync_transition(nodes, state, event) == (
                state,
                SyncActionModel::Ignore,
            ),
    {
    }

    /// Says what follows once the pass is through with the nodes before
    /// number `node`.
    fn pull_next(&self, nodes: &Vec<String>, node: usize) -> (next: (SyncState, SyncAction))
        ensures
            next.0 == self.next_pull(nodes.deep_view(), node as int).0,
            next.1.deep_view() == self.next_pull(nodes.deep_view(), node as int).1,
    {
        if node < nodes.len() {
            (
                SyncState::Pulling { node, failed: 0 },
                SyncAction::Pull { command: self.rsync_spool(nodes[node].as_str()) },
            )
        } else {
            (SyncState::Finished, SyncAction::Finish)
        }
    }

    /// Advances a pass over the nodes by one event and says what is to be
    /// done next. The lock of the spool is held for each pull with its
    /// repetitions.
    pub fn sync_files(&self, nodes: &Vec<String>, state: SyncState, event: SyncEvent) -> (next: (
        SyncState,
        SyncAction,
    ))
        ensures
            next.0 == self.sync_transition(nodes.deep_view(), state, event).0,
            next.1.deep_view() == self.sync_transition(nodes.deep_view(), state, event).1,
    {
        match (state, event) {
            (SyncState::Idle, SyncEvent::Begun) => self.pull_next(nodes, 0),
            (SyncState::Pulling { node, failed }, SyncEvent::PullSucceeded) => {
                if node < nodes.len() {
                    self.pull_next(nodes, node + 1)
                } else {
                    (state, SyncAction::Ignore)
                }
            },
            (SyncState::Pulling { node, failed }, SyncEvent::PullFailed) => {
                match retry_step(
                    rsync_retries(),
                    RetryState::Trying { failed },
                    RetryEvent::AttemptFailed,
                ) {
                    (RetryState::Resting { failed: now }, RetryAction::Rest { secs }) => {
                        if node < nodes.len() {
                            (SyncState::Resting { node, failed: now }, SyncAction::Rest { secs })
                        } else {
                            (state, SyncAction::Ignore)
                        }
                    },
                    _ => (state, SyncAction::Ignore),
                }
            },
            (SyncState::Resting { node, failed }, SyncEvent::Rested) => {
                if node < nodes.len() {
                    match retry_step(
                        rsync_retries(),
                        RetryState::Resting { failed },
                        RetryEvent::Rested,
                    ) {
                        (RetryState::Trying { failed: now }, _) => (
                            SyncState::Pulling { node, failed: now },
                            SyncAction::Pull { command: self.rsync_spool(nodes[node].as_str()) },
                        ),
                        _ => (
                            SyncState::Reporting { node },
                            SyncAction::ReportFailure { notice: spool_failure_notice() },
                        ),
                    }
                } else {
                    (state, SyncAction::Ignore)
                }
            },
            (SyncState::Reporting { node }, SyncEvent::Reported) => {
                if node < nodes.len() {
                    self.pull_next(nodes, node + 1)
                } else {
                    (state, SyncAction::Ignore)
                }
            },
            _ => (state, SyncAction::Ignore),
        }
    }

    /// Picks `num_nodes` of the nodes at random, or all of them where
    /// there are fewer. Whatever the choice, nothing is picked that was not
    /// offered, and nothing more often than it was offered.
    pub fn collect_nodes(&self, all_nodes: Vec<String>, num_nodes: usize) -> (picked: Vec<String>)
        ensures
            picked.len() == if num_nodes <= all_nodes.len() {
                num_nodes
            } else {
                all_nodes.len()
            },
            picked.deep_view().to_multiset().subset_of(all_nodes.deep_view().to_multiset()),
    {
        let mut nodes = all_nodes;
        shuffle_nodes(&mut nodes);
        let ghost shuffled = nodes.deep_view();
        proof {
            shuffled.to_multiset_ensures();
            all_nodes.deep_view().to_multiset_ensures();
        }
        let picked = take_nodes(nodes, num_nodes);
        proof {
            let count = picked.deep_view().len() as int;
            assert(shuffled =~= shuffled.take(count) + shuffled.skip(count));
            vstd::seq_lib::lemma_multiset_commutative(shuffled.take(count), shuffled.skip(count));
        }
        picked
    }
}

} // verus!
