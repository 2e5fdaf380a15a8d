use ic_backup::layout::BackupHelper;
use ic_backup::provision::{
    binary_name, NodeChoice, ProvisionAction, ProvisionEvent, ProvisionState,
};
use ic_backup::retry::{
    download_retries, retry_start, retry_step, rsync_retries, RetryAction, RetryEvent,
    RetryPolicy, RetryState,
};
use ic_backup::sync::{
    collect_all_subnet_nodes, config_failure_notice, spool_failure_notice, sync_minutes,
    take_nodes, ConnectionEndpoint, NodeRecord, SyncAction, SyncEvent, SyncState,
};

fn helper() -> BackupHelper {
    BackupHelper {
        subnet_id: "qdvhd-os4o2".to_string(),
        initial_replica_version: "0.9.0-initial".to_string(),
        root_dir: "/backup".to_string(),
        excluded_dirs: vec![],
        ssh_private_key: "/home/backup/.ssh/id_ed25519".to_string(),
        disk_threshold_warn: 80,
        cold_storage_dir: "/cold".to_string(),
        versions_hot: 2,
        daily_replays: 3,
        do_cold_storage: true,
    }
}

fn names(list: &[&str]) -> Vec<String> {
    list.iter().map(|s| s.to_string()).collect()
}

/// Runs an operation under a policy against a script of attempt outcomes
/// and returns the end state, the number of attempts made and the seconds
/// paused.
fn run(policy: RetryPolicy, outcomes: &[bool]) -> (RetryState, usize, u64) {
    let (mut state, mut action) = retry_start(policy);
    let mut attempts = 0;
    let mut paused = 0;
    loop {
        match action {
            RetryAction::Attempt => {
                if attempts == outcomes.len() {
                    return (state, attempts, paused);
                }
                let event = if outcomes[attempts] {
                    RetryEvent::AttemptSucceeded
                } else {
                    RetryEvent::AttemptFailed
                };
                attempts += 1;
                (state, action) = retry_step(policy, state, event);
            }
            RetryAction::Rest { secs } => {
                paused += secs;
                (state, action) = retry_step(policy, state, RetryEvent::Rested);
            }
            RetryAction::Done | RetryAction::GiveUp | RetryAction::Ignore => {
                return (state, attempts, paused);
            }
        }
    }
}

#[test]
fn retry_policies() {
    assert_eq!(
        rsync_retries(),
        RetryPolicy {
            attempts: 5,
            pause_secs: 60
        }
    );
    assert_eq!(
        download_retries(),
        RetryPolicy {
            attempts: 3,
            pause_secs: 10
        }
    );
}

#[test]
fn retry_stops_at_first_success() {
    let always = [true; 10];
    assert_eq!(run(rsync_retries(), &always), (RetryState::Succeeded, 1, 0));
    let third = [false, false, true, false, true];
    assert_eq!(run(rsync_retries(), &third), (RetryState::Succeeded, 3, 120));
    let fifth = [false, false, false, false, true];
    assert_eq!(run(rsync_retries(), &fifth), (RetryState::Succeeded, 5, 240));
}

#[test]
fn retry_gives_up_after_the_allowed_attempts() {
    let never = [false; 10];
    assert_eq!(run(rsync_retries(), &never), (RetryState::Exhausted, 5, 300));
    assert_eq!(run(download_retries(), &never), (RetryState::Exhausted, 3, 30));
    let sixth = [false, false, false, false, false, true];
    assert_eq!(run(rsync_retries(), &sixth), (RetryState::Exhausted, 5, 300));
    let none = RetryPolicy {
        attempts: 0,
        pause_secs: 60,
    };
    assert_eq!(retry_start(none), (RetryState::Exhausted, RetryAction::GiveUp));
    assert_eq!(run(none, &never), (RetryState::Exhausted, 0, 0));
}

#[test]
fn retry_ignores_events_out_of_turn() {
    let p = rsync_retries();
    assert_eq!(
        retry_step(p, RetryState::Succeeded, RetryEvent::AttemptFailed),
        (RetryState::Succeeded, RetryAction::Ignore)
    );
    assert_eq!(
        retry_step(p, RetryState::Exhausted, RetryEvent::Rested),
        (RetryState::Exhausted, RetryAction::Ignore)
    );
    assert_eq!(
        retry_step(p, RetryState::Trying { failed: 1 }, RetryEvent::Rested),
        (RetryState::Trying { failed: 1 }, RetryAction::Ignore)
    );
    assert_eq!(
        retry_step(p, RetryState::Resting { failed: 1 }, RetryEvent::AttemptSucceeded),
        (RetryState::Resting { failed: 1 }, RetryAction::Ignore)
    );
    assert_eq!(
        retry_step(p, RetryState::Trying { failed: u64::MAX }, RetryEvent::AttemptFailed),
        (RetryState::Trying { failed: u64::MAX }, RetryAction::Ignore)
    );
}

#[test]
fn remote_copy_invocations() {
    let h = helper();
    let cmd = h.rsync_spool("2001:db8::1");
    assert_eq!(cmd.program, "rsync");
    assert_eq!(
        cmd.args,
        vec![
            "-e",
            "ssh -o StrictHostKeyChecking=no -i /home/backup/.ssh/id_ed25519",
            "--timeout=60",
            "-qam",
            "--append-verify",
            "--min-size=1",
            "backup@[2001:db8::1]:/var/lib/ic/backup/qdvhd-os4o2/",
            "/backup/spool/qdvhd-os4o2",
        ]
    );
    let cmd = h.rsync_config("2001:db8::1", "v1");
    assert_eq!(
        cmd.args,
        vec![
            "-e",
            "ssh -o StrictHostKeyChecking=no -i /home/backup/.ssh/id_ed25519",
            "--timeout=60",
            "-q",
            "--min-size=1",
            "backup@[2001:db8::1]:/run/ic-node/config/ic.json5",
            "/backup/binaries/v1/config.json5",
        ]
    );
    let cmd = h.rsync_remote_cmd("remote", "local", &vec![]);
    assert_eq!(
        cmd.args,
        vec![
            "-e",
            "ssh -o StrictHostKeyChecking=no -i /home/backup/.ssh/id_ed25519",
            "--timeout=60",
            "--min-size=1",
            "remote",
            "local",
        ]
    );
}

/// Runs a pass over the nodes against a script that says, for each pull,
/// whether it goes through. Returns the nodes pulled from, in order, the
/// seconds paused and the number of failure reports.
fn sync_pass(nodes: &Vec<String>, script: &[bool]) -> (Vec<String>, u64, usize) {
    let h = helper();
    let mut pulled = Vec::new();
    let mut paused = 0;
    let mut reports = 0;
    let (mut state, mut action) = h.sync_files(nodes, SyncState::Idle, SyncEvent::Begun);
    loop {
        let event = match action {
            SyncAction::Pull { command } => {
                let node = nodes
                    .iter()
                    .find(|n| h.rsync_spool(n) == command)
                    .expect("the pull of a node");
                pulled.push(node.clone());
                if script[pulled.len() - 1] {
                    SyncEvent::PullSucceeded
                } else {
                    SyncEvent::PullFailed
                }
            }
            SyncAction::Rest { secs } => {
                paused += secs;
                SyncEvent::Rested
            }
            SyncAction::ReportFailure { notice } => {
                assert_eq!(notice, spool_failure_notice());
                reports += 1;
                SyncEvent::Reported
            }
            SyncAction::Finish => {
                assert_eq!(state, SyncState::Finished);
                return (pulled, paused, reports);
            }
            SyncAction::Ignore => panic!("the pass left its course"),
        };
        (state, action) = h.sync_files(nodes, state, event);
    }
}

#[test]
fn every_node_is_pulled_from_in_order() {
    let nodes = names(&["2001:db8::3", "2001:db8::1", "2001:db8::2"]);
    assert_eq!(
        sync_pass(&nodes, &[true, true, true]),
        (nodes.clone(), 0, 0)
    );
    assert_eq!(sync_pass(&vec![], &[]), (vec![], 0, 0));
    assert_eq!(spool_failure_notice(), "Couldn't pull artifacts from the nodes!");
    assert_eq!(config_failure_notice(), "Couldn't pull ic.json5 from the nodes!");
    assert_eq!(sync_minutes(119), 1);
    assert_eq!(sync_minutes(7_200), 120);
}

#[test]
fn a_node_that_fails_is_tried_five_times_and_the_pass_goes_on() {
    let nodes = names(&["2001:db8::3", "2001:db8::1", "2001:db8::2"]);
    // The first node fails twice, the second always, the third never.
    let script = [false, false, true, false, false, false, false, false, true];
    let (pulled, paused, reports) = sync_pass(&nodes, &script);
    assert_eq!(
        pulled,
        names(&[
            "2001:db8::3",
            "2001:db8::3",
            "2001:db8::3",
            "2001:db8::1",
            "2001:db8::1",
            "2001:db8::1",
            "2001:db8::1",
            "2001:db8::1",
            "2001:db8::2",
        ])
    );
    assert_eq!(paused, 7 * 60);
    assert_eq!(reports, 1);
    // Every node failing: five pulls each, one report each.
    let (pulled, paused, reports) = sync_pass(&nodes, &[false; 15]);
    assert_eq!(pulled.len(), 15);
    assert_eq!(paused, 15 * 60);
    assert_eq!(reports, 3);
    let h = helper();
    assert_eq!(
        h.sync_files(&nodes, SyncState::Finished, SyncEvent::Begun),
        (SyncState::Finished, SyncAction::Ignore)
    );
    assert_eq!(
        h.sync_files(&nodes, SyncState::Pulling { node: 3, failed: 0 }, SyncEvent::PullFailed),
        (SyncState::Pulling { node: 3, failed: 0 }, SyncAction::Ignore)
    );
}

#[test]
fn nodes_without_endpoint_are_passed_over() {
    let record = |ip: &str| {
        Some(NodeRecord {
            http: Some(ConnectionEndpoint {
                ip_addr: ip.to_string(),
                port: 8080,
            }),
        })
    };
    let records = vec![
        record("2001:db8::1"),
        None,
        Some(NodeRecord { http: None }),
        record("2001:db8::2"),
        record("not an address"),
    ];
    assert_eq!(
        collect_all_subnet_nodes(&records),
        names(&["2001:db8::1", "2001:db8::2", "not an address"])
    );
    assert!(collect_all_subnet_nodes(&vec![None, None]).is_empty());
}

#[test]
fn picked_nodes_are_among_the_offered() {
    let h = helper();
    let all: Vec<String> = (0..32).map(|i| format!("2001:db8::{:x}", i)).collect();
    for wanted in [0usize, 1, 5, 32, 33, 1000] {
        let picked = h.collect_nodes(all.clone(), wanted);
        assert_eq!(picked.len(), wanted.min(32));
        let mut seen = picked.clone();
        seen.sort();
        seen.dedup();
        assert_eq!(seen.len(), picked.len());
        assert!(picked.iter().all(|n| all.contains(n)));
    }
    assert!(h.collect_nodes(vec![], 1).is_empty());
    assert_eq!(take_nodes(names(&["a", "b", "c"]), 2), names(&["a", "b"]));
    assert_eq!(take_nodes(names(&["a", "b", "c"]), 9), names(&["a", "b", "c"]));
}

#[test]
fn picked_nodes_come_in_changing_order() {
    let h = helper();
    let all: Vec<String> = (0..32).map(|i| format!("2001:db8::{:x}", i)).collect();
    let mut changed = false;
    for _ in 0..64 {
        let picked = h.collect_nodes(all.clone(), 32);
        let mut sorted = picked.clone();
        sorted.sort();
        let mut expected = all.clone();
        expected.sort();
        assert_eq!(sorted, expected);
        if picked != all {
            changed = true;
        }
    }
    assert!(changed);
}

fn provision(events: Vec<ProvisionEvent>) -> (ProvisionState, Vec<ProvisionAction>) {
    let h = helper();
    let mut state = ProvisionState::Idle;
    let mut actions = Vec::new();
    for event in events {
        let (next, action) = h.download_binaries("v1", 20_042, state, event);
        state = next;
        actions.push(action);
    }
    (state, actions)
}

fn look_for_binary(index: u8) -> ProvisionAction {
    ProvisionAction::LookForBinary {
        index,
        file: format!("/backup/binaries/v1/{}", binary_name(index)),
    }
}

#[test]
fn provisioning_waits_for_the_catch_up_package() {
    let cup = "/backup/spool/qdvhd-os4o2/v1/20000/20042/catch_up_package".to_string();
    let (state, actions) = provision(vec![
        ProvisionEvent::Begun,
        ProvisionEvent::CupSeen(false),
        ProvisionEvent::BinarySeen(true),
        ProvisionEvent::CupSeen(false),
        ProvisionEvent::ConfigSeen(true),
        ProvisionEvent::CupSeen(true),
    ]);
    assert_eq!(state, ProvisionState::CheckingBinary { index: 0 });
    assert_eq!(
        actions,
        vec![
            ProvisionAction::LookForCup { path: cup.clone() },
            ProvisionAction::WaitForCup {
                secs: 30,
                path: cup.clone()
            },
            ProvisionAction::Ignore,
            ProvisionAction::WaitForCup {
                secs: 30,
                path: cup
            },
            ProvisionAction::Ignore,
            look_for_binary(0),
        ]
    );
}

#[test]
fn provisioning_fetches_what_is_missing() {
    let h = helper();
    let (state, actions) = provision(vec![
        ProvisionEvent::Begun,
        ProvisionEvent::CupSeen(true),
        ProvisionEvent::BinarySeen(true),
        ProvisionEvent::BinarySeen(false),
        ProvisionEvent::BinaryFetched(true),
        ProvisionEvent::BinarySeen(true),
        ProvisionEvent::ConfigSeen(false),
        ProvisionEvent::NodePicked(NodeChoice::Found("2001:db8::1".to_string())),
        ProvisionEvent::ConfigPulled,
        ProvisionEvent::CupSeen(true),
    ]);
    assert_eq!(state, ProvisionState::Ready);
    assert_eq!(
        actions[1..],
        [
            look_for_binary(0),
            look_for_binary(1),
            ProvisionAction::FetchBinary {
                index: 1,
                fetch: h.download_binary("sandbox-launcher", "v1")
            },
            look_for_binary(2),
            ProvisionAction::LookForConfig {
                file: "/backup/binaries/v1/config.json5".to_string()
            },
            ProvisionAction::PickNode,
            ProvisionAction::PullConfig {
                command: h.rsync_config("2001:db8::1", "v1"),
                policy: rsync_retries(),
                notice: config_failure_notice(),
            },
            ProvisionAction::Finish,
            ProvisionAction::Ignore,
        ]
    );
    let (state, actions) = provision(vec![
        ProvisionEvent::Begun,
        ProvisionEvent::CupSeen(true),
        ProvisionEvent::BinarySeen(true),
        ProvisionEvent::BinarySeen(true),
        ProvisionEvent::BinarySeen(true),
        ProvisionEvent::ConfigSeen(true),
    ]);
    assert_eq!(state, ProvisionState::Ready);
    assert_eq!(actions[5], ProvisionAction::Finish);
}

#[test]
fn provisioning_failures() {
    let (state, actions) = provision(vec![
        ProvisionEvent::Begun,
        ProvisionEvent::CupSeen(true),
        ProvisionEvent::BinarySeen(false),
        ProvisionEvent::BinaryFetched(false),
        ProvisionEvent::BinarySeen(true),
    ]);
    assert_eq!(state, ProvisionState::Failed);
    assert_eq!(
        actions[3..],
        [
            ProvisionAction::Fail {
                notice: Some("Couldn't download: replay-tool".to_string()),
                error: "Binary replay-tool is required for the replica v1".to_string()
            },
            ProvisionAction::Ignore,
        ]
    );
    let h = helper();
    for (index, name) in [(1u8, "sandbox-launcher"), (2u8, "canister-sandbox")] {
        assert_eq!(
            h.download_binaries(
                "v1",
                0,
                ProvisionState::FetchingBinary { index },
                ProvisionEvent::BinaryFetched(false)
            )
            .1,
            ProvisionAction::Fail {
                notice: Some(format!("Couldn't download: {}", name)),
                error: format!("Binary {} is required for the replica v1", name)
            }
        );
    }
    assert_eq!(
        h.download_binaries(
            "v1",
            0,
            ProvisionState::PickingNode,
            ProvisionEvent::NodePicked(NodeChoice::NoNode)
        ),
        (
            ProvisionState::Failed,
            ProvisionAction::Fail {
                notice: None,
                error: "Error getting first node.".to_string()
            }
        )
    );
    assert_eq!(
        h.download_binaries(
            "v1",
            0,
            ProvisionState::PickingNode,
            ProvisionEvent::NodePicked(NodeChoice::NoNodeList("\"registry away\"".to_string()))
        ),
        (
            ProvisionState::Failed,
            ProvisionAction::Fail {
                notice: None,
                error: "Error fetching subnet node list: \"registry away\"".to_string()
            }
        )
    );
}

#[test]
fn one_executable_is_fetched_like_this() {
    let h = helper();
    assert_eq!(binary_name(0), "replay-tool");
    assert_eq!(binary_name(1), "sandbox-launcher");
    assert_eq!(binary_name(2), "canister-sandbox");
    let fetch = h.download_binary(binary_name(1), "v1");
    assert_eq!(fetch.name, "sandbox-launcher");
    assert_eq!(fetch.file, "/backup/binaries/v1/sandbox-launcher");
    assert_eq!(fetch.dir, "/backup/binaries/v1");
    assert_eq!(fetch.policy, download_retries());
    assert_eq!(fetch.notice, "Couldn't download: sandbox-launcher");
    assert_eq!(
        fetch.error,
        "Binary sandbox-launcher is required for the replica v1"
    );
}
