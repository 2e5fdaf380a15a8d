use ic_backup::command::CommandOutcome;
use ic_backup::disk::{parse_usage, DiskStats, DiskStatsError};
use ic_backup::layout::BackupHelper;
use ic_backup::replay::{
    check_upgrade_request, elapsed_minutes, no_progress_notice, restored_notice, upgrade_notice,
    ReplayAction, ReplayEvent, ReplayResult, ReplayState, RunAction, RunEvent, RunState,
};
use ic_backup::scan::{find_field, find_from, is_space, last_line_bounds, trim_bounds};
use ic_backup::spool::{
    fetch_top_height, is_height_in_spool, retrieve_replica_version, BucketDir, VersionDir,
};

fn helper() -> BackupHelper {
    BackupHelper {
        subnet_id: "qdvhd-os4o2".to_string(),
        initial_replica_version: "0.9.0-initial".to_string(),
        root_dir: "/backup".to_string(),
        excluded_dirs: vec![],
        ssh_private_key: "/key".to_string(),
        disk_threshold_warn: 80,
        cold_storage_dir: "/cold".to_string(),
        versions_hot: 2,
        daily_replays: 3,
        do_cold_storage: true,
    }
}

fn bucket(name: &str, entries: &[&str]) -> BucketDir {
    BucketDir {
        name: name.to_string(),
        entries: entries.iter().map(|s| s.to_string()).collect(),
    }
}

fn version(name: &str, is_version: bool, buckets: Vec<BucketDir>) -> VersionDir {
    VersionDir {
        name: name.to_string(),
        is_version,
        buckets,
    }
}

#[test]
fn upgrade_marker_yields_the_version() {
    let stdout = "some output\nPlease use the replay tool of version 1.2.3-abcdef01 to continue backup recovery from height 500\nmore output\n";
    assert_eq!(
        check_upgrade_request(stdout),
        Some("1.2.3-abcdef01".to_string())
    );
    let stdout = "...Please use the replay tool of version 1.2.3-abcdef01 to continue backup recovery from height 500...";
    assert_eq!(
        check_upgrade_request(stdout),
        Some("1.2.3-abcdef01".to_string())
    );
}

#[test]
fn upgrade_marker_needs_the_prefix() {
    assert_eq!(check_upgrade_request(""), None);
    assert_eq!(
        check_upgrade_request(
            "Please use the replay tool of the version 1.2.3-abcdef01 to continue backup recovery from height 500"
        ),
        None
    );
    assert_eq!(
        check_upgrade_request("1.2.3-abcdef01 to continue backup recovery from height 500"),
        None
    );
}

#[test]
fn upgrade_marker_needs_enough_text_behind_the_prefix() {
    assert_eq!(
        check_upgrade_request("Please use the replay tool of version"),
        None
    );
    assert_eq!(
        check_upgrade_request("Please use the replay tool of version 1.2.3"),
        None
    );
    // Exactly as long as prefix, shortest token and suffix: still too short.
    let at_limit = "Please use the replay tool of version 1234567to continue backup recovery from height";
    assert_eq!(at_limit.len(), 37 + 8 + 39);
    assert_eq!(check_upgrade_request(at_limit), None);
    // One character more and the suffix present: a token, however short.
    let beyond = "Please use the replay tool of version 1234567to continue backup recovery from height ";
    assert_eq!(check_upgrade_request(beyond), Some("1234567".to_string()));
    let short = "Please use the replay tool of version v1 to continue backup recovery from height 200000";
    assert_eq!(check_upgrade_request(short), Some("v1".to_string()));
    // Enough text, but no suffix.
    let no_suffix = "Please use the replay tool of version 1.2.3-abcdef01 and then go on with whatever comes after this line";
    assert_eq!(check_upgrade_request(no_suffix), None);
}

#[test]
fn upgrade_marker_takes_first_prefix_and_trims() {
    let stdout = "Please use the replay tool of version \t first-version01 \n to continue backup recovery from height 1 Please use the replay tool of version second-version to continue backup recovery from height 2";
    assert_eq!(
        check_upgrade_request(stdout),
        Some("first-version01".to_string())
    );
    let spaced = "Please use the replay tool of version      to continue backup recovery from height 77";
    assert_eq!(check_upgrade_request(spaced), Some(String::new()));
}

#[test]
fn scanning_primitives() {
    let text: Vec<char> = "abcabcabd".chars().collect();
    let pat: Vec<char> = "abd".chars().collect();
    assert_eq!(find_from(&text, &pat, 0), Some(6));
    assert_eq!(find_from(&text, &pat, 7), None);
    let pat: Vec<char> = "abc".chars().collect();
    assert_eq!(find_from(&text, &pat, 0), Some(0));
    assert_eq!(find_from(&text, &pat, 1), Some(3));
    assert_eq!(find_from(&text, &vec![], 9), Some(9));
    assert_eq!(find_from(&text, &vec![], 10), None);
    for c in ['a', ' ', '\t', '\n', '\r', '\u{b}', '\u{c}', '\u{85}', '\u{a0}', '\u{1680}',
        '\u{2000}', '\u{200a}', '\u{200b}', '\u{2028}', '\u{2029}', '\u{202f}', '\u{205f}',
        '\u{3000}', '\u{feff}', '0', '%']
    {
        assert_eq!(is_space(c), c.is_whitespace(), "{:?}", c);
    }
    let text: Vec<char> = "  hello world \n".chars().collect();
    assert_eq!(trim_bounds(&text, 0, text.len()), (2, 13));
    assert_eq!(trim_bounds(&text, 0, 2), (2, 2));
    assert_eq!(find_field(&text, 0), Some((2, 7)));
    assert_eq!(find_field(&text, 1), Some((8, 13)));
    assert_eq!(find_field(&text, 2), None);
    let text: Vec<char> = "first\nsecond\nthird\n".chars().collect();
    assert_eq!(last_line_bounds(&text), (13, 18));
    let text: Vec<char> = "first\nsecond".chars().collect();
    assert_eq!(last_line_bounds(&text), (6, 12));
    let text: Vec<char> = "first\n\n".chars().collect();
    assert_eq!(last_line_bounds(&text), (6, 6));
    assert_eq!(last_line_bounds(&vec![]), (0, 0));
}

#[test]
fn disk_usage_above_threshold_warns_once() {
    let output = "Filesystem     1K-blocks     Used Available Use% Mounted on\n/dev/nvme0n1p2 102400000 82944000  19456000  81% /data\n";
    assert_eq!(parse_usage(output).unwrap(), 81);
    let reading = helper()
        .get_disk_stats(DiskStats::Space, &CommandOutcome::Output(output.to_string()))
        .unwrap();
    assert_eq!(reading.percentage, 81);
    assert_eq!(reading.warning, Some("space usage is at 81%".to_string()));
    let reading = helper()
        .get_disk_stats(DiskStats::Inodes, &CommandOutcome::Output("a b c d 81% /data".to_string()))
        .unwrap();
    assert_eq!(reading.percentage, 81);
    assert_eq!(reading.warning, Some("inodes usage is at 81%".to_string()));
}

#[test]
fn disk_usage_at_and_below_threshold() {
    let h = helper();
    let at = h
        .get_disk_stats(DiskStats::Space, &CommandOutcome::Output("fs 1 2 3 80% /".to_string()))
        .unwrap();
    assert_eq!(at.percentage, 80);
    assert_eq!(at.warning, Some("space usage is at 80%".to_string()));
    let below = h
        .get_disk_stats(DiskStats::Space, &CommandOutcome::Output("fs 1 2 3 79% /".to_string()))
        .unwrap();
    assert_eq!(below.percentage, 79);
    assert_eq!(below.warning, None);
    let empty = h
        .get_disk_stats(DiskStats::Inodes, &CommandOutcome::Output("fs 1 2 3 0% /\n".to_string()))
        .unwrap();
    assert_eq!(empty.percentage, 0);
    assert_eq!(empty.warning, None);
}

#[test]
fn disk_usage_that_cannot_be_read() {
    let h = helper();
    assert!(matches!(
        h.get_disk_stats(DiskStats::Space, &CommandOutcome::Failed("df: no such file".to_string())),
        Err(DiskStatsError::QueryFailed(reason)) if reason == "df: no such file"
    ));
    assert!(matches!(
        h.get_disk_stats(DiskStats::Space, &CommandOutcome::Silent),
        Err(DiskStatsError::MissingField(_))
    ));
    assert!(matches!(parse_usage(""), Err(DiskStatsError::MissingField(_))));
    assert!(matches!(
        parse_usage("Filesystem 1K-blocks Used Available Use% Mounted on\n/dev/sda1 1 2 3\n"),
        Err(DiskStatsError::MissingField(_))
    ));
    // The last line is read, not the first that fits.
    assert!(matches!(
        parse_usage("fs 1 2 3 55% /\n\n"),
        Err(DiskStatsError::MissingField(_))
    ));
    assert!(matches!(
        parse_usage("Filesystem 1K-blocks Used Available Use% Mounted on"),
        Err(DiskStatsError::NotANumber(_))
    ));
    assert!(matches!(parse_usage("a b c d % f"), Err(DiskStatsError::NotANumber(_))));
    assert!(matches!(parse_usage("a b c d -1% f"), Err(DiskStatsError::NotANumber(_))));
    assert!(matches!(
        parse_usage("a b c d 4294967296% f"),
        Err(DiskStatsError::NotANumber(_))
    ));
    // The last character goes, whatever it is; the rest is the number.
    assert_eq!(parse_usage("a b c d 4294967295% f").unwrap(), u32::MAX);
    assert_eq!(parse_usage("a b c d 123 f").unwrap(), 12);
    assert_eq!(parse_usage("a b c d +7% f").unwrap(), 7);
    assert_eq!(parse_usage("x\r\n a\tb  c d 9% f\r\n").unwrap(), 9);
}

#[test]
fn disk_failures_in_words() {
    assert_eq!(
        DiskStatsError::QueryFailed("df: not found".to_string()).describe(),
        "Error fetching disk stats: df: not found"
    );
    assert_eq!(
        parse_usage("a b c d").unwrap_err(),
        DiskStatsError::MissingField("a b c d".to_string())
    );
    assert_eq!(
        parse_usage("a b c d").unwrap_err().describe(),
        "Error converting disk stats: a b c d"
    );
    assert_eq!(
        parse_usage("a b c d e f").unwrap_err(),
        DiskStatsError::NotANumber("a b c d e f".to_string())
    );
    assert_eq!(
        parse_usage("a b c d e f").unwrap_err().describe(),
        "Error converting number from: a b c d e f"
    );
    assert_eq!(
        helper()
            .get_disk_stats(DiskStats::Space, &CommandOutcome::Silent)
            .unwrap_err(),
        DiskStatsError::MissingField(String::new())
    );
}

#[test]
fn disk_query_invocation() {
    let h = helper();
    let space = h.disk_stats_command(DiskStats::Space);
    assert_eq!(space.program, "df");
    assert_eq!(space.args, vec!["-k", "/backup"]);
    let inodes = h.disk_stats_command(DiskStats::Inodes);
    assert_eq!(inodes.args, vec!["-i", "/backup"]);
}

#[test]
fn top_height_of_a_version_directory() {
    let dir = version(
        "v1",
        true,
        vec![
            bucket("0", &["1", "42", "9999"]),
            bucket("20000", &["20000", "20500", "cup.tmp"]),
            bucket("10000", &["10000", "19999"]),
        ],
    );
    assert_eq!(fetch_top_height(&dir), 20500);
    // The largest bucket is looked up under its plain numeral.
    let odd = version("v1", true, vec![bucket("0", &["7"]), bucket("+10000", &["10001"])]);
    assert_eq!(fetch_top_height(&odd), 0);
    let plain = version("v1", true, vec![bucket("junk", &["5"]), bucket("0", &["7", "x"])]);
    assert_eq!(fetch_top_height(&plain), 7);
    assert_eq!(fetch_top_height(&version("v1", true, vec![])), 0);
    assert_eq!(fetch_top_height(&version("v1", true, vec![bucket("10000", &[])])), 0);
}

#[test]
fn height_is_looked_for_in_its_own_bucket() {
    let dir = version(
        "v1",
        true,
        vec![bucket("0", &["42", "12345"]), bucket("10000", &["10000", "42"])],
    );
    assert!(is_height_in_spool(&dir, 42));
    assert!(is_height_in_spool(&dir, 10000));
    assert!(!is_height_in_spool(&dir, 12345));
    assert!(!is_height_in_spool(&dir, 43));
    assert!(!is_height_in_spool(&dir, 20000));
}

#[test]
fn no_version_from_the_spool_without_a_checkpoint() {
    // The spool holds only version "A" with an artifact at bucket 0, height 42.
    let spool = vec![version("A", true, vec![bucket("0", &["42"])])];
    assert_eq!(retrieve_replica_version(&spool, 0), None);
    // The configured version is then the one to replay with.
    let h = helper();
    assert_eq!(h.current_replica_version(&spool, 0), "0.9.0-initial");
    // With the checkpoint at that height the spool does name the version.
    assert_eq!(retrieve_replica_version(&spool, 42), Some("A".to_string()));
    assert_eq!(h.current_replica_version(&spool, 42), "A");
    assert_eq!(h.current_replica_version(&spool, 43), "0.9.0-initial");
    assert_eq!(h.current_replica_version(&vec![], 42), "0.9.0-initial");
}

#[test]
fn version_with_highest_top_height_among_those_holding_the_checkpoint() {
    let spool = vec![
        version("old", true, vec![bucket("0", &["100", "200"])]),
        version("mid", true, vec![bucket("0", &["200", "300"])]),
        version("new", true, vec![bucket("0", &["300", "400"])]),
        version("not-a-version", false, vec![bucket("0", &["200", "900"])]),
        version("tie", true, vec![bucket("0", &["200", "300"])]),
    ];
    assert_eq!(retrieve_replica_version(&spool, 200), Some("mid".to_string()));
    assert_eq!(retrieve_replica_version(&spool, 300), Some("new".to_string()));
    assert_eq!(retrieve_replica_version(&spool, 100), Some("old".to_string()));
    assert_eq!(retrieve_replica_version(&spool, 900), None);
    assert_eq!(retrieve_replica_version(&spool, 250), None);
    assert_eq!(retrieve_replica_version(&vec![], 200), None);
}

#[test]
fn version_is_found_even_at_top_height_zero() {
    // The largest bucket of the directory holds no height, so its top
    // height is zero; it holds the checkpoint all the same.
    let empty_top = version("only", true, vec![bucket("0", &["200"]), bucket("10000", &[])]);
    assert_eq!(fetch_top_height(&empty_top), 0);
    assert_eq!(
        retrieve_replica_version(&vec![empty_top.clone()], 200),
        Some("only".to_string())
    );
    // Of two such directories the first is taken; one with a greater top
    // height takes its place wherever it stands.
    let second = version("second", true, vec![bucket("0", &["200"]), bucket("10000", &[])]);
    let higher = version("higher", true, vec![bucket("0", &["200", "300"])]);
    assert_eq!(
        retrieve_replica_version(&vec![empty_top.clone(), second.clone()], 200),
        Some("only".to_string())
    );
    assert_eq!(
        retrieve_replica_version(&vec![empty_top.clone(), higher.clone(), second], 200),
        Some("higher".to_string())
    );
    assert_eq!(
        retrieve_replica_version(&vec![higher, empty_top], 200),
        Some("higher".to_string())
    );
}

#[test]
fn replay_invocation_has_fixed_argument_order() {
    let cmd = helper().replay_command("1.2.3-abcdef01", 500);
    assert_eq!(cmd.program, "/backup/binaries/1.2.3-abcdef01/replay-tool");
    assert_eq!(
        cmd.args,
        vec![
            "--data-root",
            "/backup/data/qdvhd-os4o2",
            "--subnet-id",
            "qdvhd-os4o2",
            "/backup/binaries/1.2.3-abcdef01/config.json5",
            "restore-from-backup2",
            "/backup/ic_registry_local_store",
            "/backup/spool",
            "1.2.3-abcdef01",
            "500",
        ]
    );
}

fn run(events: Vec<RunEvent>) -> (RunState, Vec<RunAction>) {
    let h = helper();
    let mut state = RunState::Idle;
    let mut actions = Vec::new();
    for event in events {
        let (next, action) = h.replay_current_version("1.2.3-abcdef01", state, event);
        state = next;
        actions.push(action);
    }
    (state, actions)
}

#[test]
fn run_provisions_then_invokes_the_tool() {
    let h = helper();
    let (state, actions) = run(vec![
        RunEvent::Begun { start_height: 500 },
        RunEvent::Provisioned(Ok(())),
    ]);
    assert_eq!(state, RunState::Running { start_height: 500 });
    assert_eq!(
        actions,
        vec![
            RunAction::Provision { start_height: 500 },
            RunAction::Run {
                command: h.replay_command("1.2.3-abcdef01", 500)
            },
        ]
    );
    let (state, actions) = run(vec![
        RunEvent::Begun { start_height: 500 },
        RunEvent::Provisioned(Err("Binary replay-tool is required".to_string())),
        RunEvent::Ran(CommandOutcome::Silent),
    ]);
    assert_eq!(state, RunState::Finished);
    assert_eq!(
        actions[1..],
        [
            RunAction::Fail {
                error: "Binary replay-tool is required".to_string()
            },
            RunAction::Ignore,
        ]
    );
}

#[test]
fn replay_output_is_read() {
    let ran = |outcome: CommandOutcome| {
        run(vec![
            RunEvent::Begun { start_height: 500 },
            RunEvent::Provisioned(Ok(())),
            RunEvent::Ran(outcome),
        ])
    };
    let (state, actions) = ran(CommandOutcome::Failed("exit status 1".to_string()));
    assert_eq!(state, RunState::Finished);
    assert_eq!(
        actions[2],
        RunAction::Fail {
            error: "exit status 1".to_string()
        }
    );
    let (_, actions) = ran(CommandOutcome::Silent);
    assert_eq!(
        actions[2],
        RunAction::Fail {
            error: "No ic-replay output".to_string()
        }
    );
    let (state, actions) = ran(CommandOutcome::Output("Latest height: 700\n".to_string()));
    assert_eq!(state, RunState::Storing { upgrade: None });
    assert_eq!(
        actions[2],
        RunAction::Store {
            log_file: "/backup/logs/qdvhd-os4o2_500.log".to_string(),
            upgrade: None
        }
    );
    let (state, actions) = ran(CommandOutcome::Output(
        "Please use the replay tool of version 1.2.3-abcdef02 to continue backup recovery from height 700".to_string(),
    ));
    assert_eq!(
        state,
        RunState::Storing {
            upgrade: Some("1.2.3-abcdef02".to_string())
        }
    );
    assert_eq!(
        actions[2],
        RunAction::Store {
            log_file: "/backup/logs/qdvhd-os4o2_500.log".to_string(),
            upgrade: Some("1.2.3-abcdef02".to_string())
        }
    );
}

#[test]
fn run_ends_with_its_result() {
    let h = helper();
    let stored = |upgrade: Option<&str>, written: Result<(), String>, defect: Option<&str>| {
        h.replay_current_version(
            "v1",
            RunState::Storing {
                upgrade: upgrade.map(|t| t.to_string()),
            },
            RunEvent::Stored {
                written,
                token_defect: defect.map(|t| t.to_string()),
            },
        )
    };
    assert_eq!(
        stored(None, Ok(()), None),
        (RunState::Finished, RunAction::Finish(ReplayResult::Done))
    );
    assert_eq!(
        stored(Some("v2"), Ok(()), None),
        (
            RunState::Finished,
            RunAction::Finish(ReplayResult::UpgradeRequired("v2".to_string()))
        )
    );
    assert_eq!(
        stored(Some("v 2"), Ok(()), Some("bad version")),
        (
            RunState::Finished,
            RunAction::Fail {
                error: "bad version".to_string()
            }
        )
    );
    assert_eq!(
        stored(Some("v2"), Err("Error creating log file".to_string()), None),
        (
            RunState::Finished,
            RunAction::Fail {
                error: "Error creating log file".to_string()
            }
        )
    );
    assert_eq!(
        h.replay_current_version("v1", RunState::Finished, RunEvent::Begun { start_height: 1 }),
        (RunState::Finished, RunAction::Ignore)
    );
}

fn spool_a() -> Vec<VersionDir> {
    vec![version("A", true, vec![bucket("0", &["42"])])]
}

fn drive(events: Vec<ReplayEvent>) -> (ReplayState, Vec<ReplayAction>) {
    let h = helper();
    let mut state = ReplayState::Idle;
    let mut actions = Vec::new();
    for event in events {
        let (next, action) = h.replay(state, event);
        state = next;
        actions.push(action);
    }
    (state, actions)
}

#[test]
fn first_replay_uses_the_configured_version_without_a_checkpoint() {
    // The spool holds only version "A" with an artifact at bucket 0, height
    // 42; there is no checkpoint yet.
    let (state, actions) = drive(vec![ReplayEvent::Started {
        start_height: 0,
        spool: spool_a(),
    }]);
    assert_eq!(
        actions,
        vec![ReplayAction::Replay {
            version: "0.9.0-initial".to_string()
        }]
    );
    assert_eq!(
        state,
        ReplayState::Replaying {
            start_height: 0,
            version: "0.9.0-initial".to_string()
        }
    );
    // With the checkpoint at height 42 the version of the spool is used.
    let (_, actions) = drive(vec![ReplayEvent::Started {
        start_height: 42,
        spool: spool_a(),
    }]);
    assert_eq!(
        actions,
        vec![ReplayAction::Replay {
            version: "A".to_string()
        }]
    );
}

#[test]
fn replay_cycle_with_upgrade_and_progress() {
    let (state, actions) = drive(vec![
        ReplayEvent::Started {
            start_height: 500,
            spool: vec![],
        },
        ReplayEvent::Replayed(Ok(ReplayResult::UpgradeRequired("v2".to_string()))),
        ReplayEvent::Replayed(Ok(ReplayResult::UpgradeRequired("v3".to_string()))),
        ReplayEvent::Replayed(Ok(ReplayResult::Done)),
        ReplayEvent::Measured { finish_height: 900 },
        ReplayEvent::Archived { ok: true },
    ]);
    assert_eq!(state, ReplayState::Finished);
    assert_eq!(
        actions,
        vec![
            ReplayAction::Replay {
                version: "0.9.0-initial".to_string()
            },
            ReplayAction::UpgradeAndReplay {
                notice: upgrade_notice("0.9.0-initial", "v2"),
                version: "v2".to_string()
            },
            ReplayAction::UpgradeAndReplay {
                notice: upgrade_notice("v2", "v3"),
                version: "v3".to_string()
            },
            ReplayAction::Measure,
            ReplayAction::Archive { height: 900 },
            ReplayAction::ReportRestored {
                height: 900,
                notice: restored_notice(900)
            },
        ]
    );
}

#[test]
fn replay_cycle_without_progress_does_not_archive() {
    let (state, actions) = drive(vec![
        ReplayEvent::Started {
            start_height: 500,
            spool: vec![],
        },
        ReplayEvent::Replayed(Err("exit status 1".to_string())),
        ReplayEvent::Measured { finish_height: 500 },
        ReplayEvent::Archived { ok: true },
    ]);
    assert_eq!(state, ReplayState::Finished);
    assert_eq!(
        actions[1..],
        [
            ReplayAction::Measure,
            ReplayAction::ReportNoProgress {
                notice: no_progress_notice()
            },
            ReplayAction::Ignore,
        ]
    );
    let (_, actions) = drive(vec![
        ReplayEvent::Started {
            start_height: 500,
            spool: vec![],
        },
        ReplayEvent::Replayed(Ok(ReplayResult::Done)),
        ReplayEvent::Measured { finish_height: 499 },
    ]);
    assert_eq!(
        actions[2],
        ReplayAction::ReportNoProgress {
            notice: no_progress_notice()
        }
    );
}

#[test]
fn replay_cycle_after_failure_archives_what_was_reached() {
    let (state, actions) = drive(vec![
        ReplayEvent::Started {
            start_height: 500,
            spool: vec![],
        },
        ReplayEvent::Replayed(Err("exit status 1".to_string())),
        ReplayEvent::Measured { finish_height: 501 },
        ReplayEvent::Archived { ok: false },
        ReplayEvent::Started {
            start_height: 501,
            spool: vec![],
        },
    ]);
    assert_eq!(state, ReplayState::Finished);
    assert_eq!(
        actions[1..],
        [
            ReplayAction::Measure,
            ReplayAction::Archive { height: 501 },
            ReplayAction::Stop,
            ReplayAction::Ignore,
        ]
    );
    let h = helper();
    assert_eq!(
        h.replay(ReplayState::Idle, ReplayEvent::Measured { finish_height: 1 }),
        (ReplayState::Idle, ReplayAction::Ignore)
    );
}

#[test]
fn replay_notices() {
    assert_eq!(
        upgrade_notice("v1", "v2"),
        "Replica version upgrade detected (current: v1 new: v2): upgrading the ic-replay tool to retry... 🤞"
    );
    assert_eq!(
        restored_notice(900),
        "✅ Successfully restored the state at height *900*"
    );
    assert_eq!(
        no_progress_notice(),
        "No height progress after the last replay detected!"
    );
    assert_eq!(elapsed_minutes(0), 0);
    assert_eq!(elapsed_minutes(59), 0);
    assert_eq!(elapsed_minutes(60), 1);
    assert_eq!(elapsed_minutes(3_725), 62);
}

/// The reading of a utilisation report written with the text functions of
/// the standard library.
fn usage_by_the_book(output: &str) -> Option<Option<u32>> {
    let field = output
        .lines()
        .next_back()
        .unwrap_or_default()
        .split_whitespace()
        .nth(4)?;
    let mut number = field.to_string();
    number.pop();
    Some(number.parse::<u32>().ok())
}

#[test]
fn disk_usage_is_read_like_the_standard_text_functions_read_it() {
    let samples = [
        "",
        "\n",
        "\r\n",
        "a b c d 5% f",
        "a b c d 5% f\n",
        "a b c d 5% f\r\n",
        "a b c d 5% f\r",
        "a b c d 5% f\n\r",
        "a b c d 5% f\n\n",
        "h1 h2 h3 h4 h5 h6\na b c d 57% /\n",
        "h1 h2 h3 h4 h5 h6\r\na b c d 57% /\r\n",
        "  a\tb\u{a0}c\u{2003}d\u{3000}99%   /data  \n",
        "a b c d",
        "a b c d e",
        "a b c d 100",
        "a b c d %",
        "a b c d 12345678901% f",
        "a b c d ٣% f",
        "a b c d 5é f",
        "a b c d é f",
        "a b c d +5% f",
        "a b c d -5% f",
        "a\u{85}b\u{1680}c\u{2028}d\u{2029}7%\u{202f}f\u{205f}g",
        "a\u{200b}b c d 7% f g",
        "x\ny\na b c d 1% f",
    ];
    for s in samples {
        let expected = usage_by_the_book(s);
        let actual = parse_usage(s);
        match expected {
            None => assert!(matches!(actual, Err(DiskStatsError::MissingField(_))), "{:?}", s),
            Some(None) => assert!(matches!(actual, Err(DiskStatsError::NotANumber(_))), "{:?}", s),
            Some(Some(n)) => assert_eq!(actual.ok(), Some(n), "{:?}", s),
        }
    }
}

/// The search for the upgrade marker written with the text functions of
/// the standard library.
fn upgrade_by_the_book(stdout: &str) -> Option<String> {
    let prefix = "Please use the replay tool of version";
    let suffix = "to continue backup recovery from height";
    let min_version_len = 8;
    if let Some(pos) = stdout.find(prefix) {
        if pos + prefix.len() + min_version_len + suffix.len() < stdout.len() {
            let pos2 = pos + prefix.len();
            if let Some(pos3) = stdout[pos2..].find(suffix) {
                return Some(stdout[pos2..(pos2 + pos3)].trim().to_string());
            }
        }
    }
    None
}

#[test]
fn upgrade_marker_is_found_like_the_standard_text_functions_find_it() {
    let prefix = "Please use the replay tool of version";
    let suffix = "to continue backup recovery from height";
    let mut samples: Vec<String> = vec![
        String::new(),
        prefix.to_string(),
        suffix.to_string(),
        format!("{}{}", prefix, suffix),
        format!("{} {}", prefix, suffix),
        format!("{}12345678{}", prefix, suffix),
        format!("{}12345678{} ", prefix, suffix),
        format!("{}1234567{}x", prefix, suffix),
        format!("{}  v  {} 12", prefix, suffix),
        format!("{}\n\tabc-def\r\n{}\n", prefix, suffix),
        format!("log\nlog\n{} 0.1.2 {} 500\nlog", prefix, suffix),
        format!("{} a {} b {} c {}", prefix, suffix, prefix, suffix),
        format!("{} a {} b {} c", suffix, prefix, suffix),
        format!("{} first {} x", &prefix[..36], suffix),
        format!("Please use Please use the replay tool of version v9 {} 1", suffix),
        format!("{} v9 to continue backup recovery from heigh", prefix),
        format!("{} v9 to continue backup recovery from heigh{}", prefix, suffix),
    ];
    for pad in 0..12 {
        samples.push(format!("{}{}{}", prefix, "x".repeat(pad), suffix));
        samples.push(format!("{}{}{}{}", prefix, " ".repeat(pad), suffix, "y".repeat(pad)));
    }
    for s in &samples {
        assert_eq!(check_upgrade_request(s), upgrade_by_the_book(s), "{:?}", s);
    }
}
