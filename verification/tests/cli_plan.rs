use chanvoy::cli::args::{
    AttentionCommand, ChannelsArgs, CheckArgs, CommandSet, DaemonCommand, DmCommand, DmReadArgs,
    PostArgs, ProfileCommand, ReadArgs, ReadWindowArgs, SearchArgs, WaitArgs,
};
use chanvoy::cli::daemon::{
    already_running_text, await_ready, handle_daemon_start, keeps_running, list_running_daemon_profiles,
    listening_text, not_running, read_daemon_pid, stop_answered, stop_begin, stop_looked,
    stopped_text, DaemonTraces, ReadyStep, StartStep, Starting, StopAnswer, StopStep, POLL_TRIES,
};
use chanvoy::cli::error::{CliError, DaemonFailure};
use chanvoy::cli::plan::{
    archived_text, check_exit_code, dm_receipt_text, execute, handle_dm_raw, member_added_text,
    notify_receipt_text, parse_since_arg, profile_for, receipt_text, restored_text, route,
    wait_timed_out, wait_timeout_text, waiting_text, DaemonCall, Plan, Route,
};
use chanvoy::health::build_daemon_status;
use chanvoy::profile::{FallbackPolicy, ResolverError, ResolverInputs};
use chanvoy::types::{
    CapabilityClass, CredentialMode, DaemonStatus, IpcStatusSnapshot, PostReceipt, Profile,
    Provider, WsStatusSnapshot,
};

fn words(items: &[&str]) -> Vec<String> {
    items.iter().map(|s| s.to_string()).collect()
}

fn read_args() -> ReadArgs {
    ReadArgs {
        channel: "ops".to_string(),
        since: None,
        after: None,
        since_last_mine: false,
        since_bootstrap: false,
        limit: None,
        advance: false,
        team: None,
    }
}

fn refused(result: Result<Plan, CliError>) -> String {
    match result {
        Err(CliError::Bootstrap(why)) => why,
        other => panic!("expected a refusal, got {other:?}"),
    }
}

#[test]
fn changing_a_daemon_needs_a_named_profile() {
    for command in [
        DaemonCommand::Start,
        DaemonCommand::Serve,
        DaemonCommand::Stop,
    ] {
        assert_eq!(
            route(&CommandSet::Daemon(command)),
            Route::UnderProfile(FallbackPolicy::ExplicitOnly)
        );
    }
    assert_eq!(
        route(&CommandSet::Daemon(DaemonCommand::Status)),
        Route::UnderProfile(FallbackPolicy::AllowReadFallbacks)
    );
    assert_eq!(
        route(&CommandSet::Whoami),
        Route::UnderProfile(FallbackPolicy::AllowReadFallbacks)
    );
}

#[test]
fn a_daemon_is_not_started_under_a_profile_that_nobody_named() {
    let profiles = words(&["dispatch-lanytehq", "other"]);
    let running = words(&["dispatch-lanytehq"]);
    let inputs = ResolverInputs {
        profiles: &profiles,
        running_daemon_profiles: &running,
        active_profile: Some("other"),
        env_role: Some("dispatch"),
        env_scope: None,
        env_chanvoy_profile: None,
    };
    for command in [
        DaemonCommand::Start,
        DaemonCommand::Serve,
        DaemonCommand::Stop,
    ] {
        let command = CommandSet::Daemon(command);
        match profile_for(&command, None, &inputs) {
            Err(CliError::Resolver(ResolverError::DestructiveRequiresExplicit { available })) => {
                assert_eq!(available, profiles);
            }
            other => panic!("expected a refusal, got {other:?}"),
        }
        let named = profile_for(&command, Some("seat"), &inputs).unwrap();
        assert_eq!(named, Some("seat".to_string()));
    }
    let status = CommandSet::Daemon(DaemonCommand::Status);
    assert_eq!(
        profile_for(&status, None, &inputs).unwrap(),
        Some("dispatch-lanytehq".to_string())
    );
    let list = CommandSet::Profile(ProfileCommand::List);
    assert_eq!(profile_for(&list, None, &inputs).unwrap(), None);
}

#[test]
fn profile_list_succeeds_on_clean_bootstrap_with_no_env_no_profiles() {
    assert_eq!(
        route(&CommandSet::Profile(ProfileCommand::List)),
        Route::Profiles
    );
}

#[test]
fn a_bare_limit_is_refused() {
    let mut args = read_args();
    args.limit = Some(5);
    let why = refused(execute(CommandSet::Read(args)));
    assert_eq!(
        why,
        "`--limit` requires an explicit read-mode flag \u{2014} use `--since-bootstrap --limit N` for 'give me the latest N posts', or `--since <window> --limit N` to cap a time-window read. Bare `read --limit N` is rejected."
    );
    let mut args = read_args();
    args.limit = Some(5);
    args.since_bootstrap = true;
    assert!(execute(CommandSet::Read(args)).is_ok());
}

#[test]
fn reading_a_window_counts_seconds() {
    let mut args = read_args();
    args.since = Some("2h".to_string());
    args.limit = Some(7);
    args.team = Some("org".to_string());
    match execute(CommandSet::Read(args)).unwrap() {
        Plan::Call(DaemonCall::ReadChannel {
            channel,
            since_secs,
            limit,
            team,
            ..
        }) => {
            assert_eq!(channel, "ops");
            assert_eq!(since_secs, Some(7_200));
            assert_eq!(limit, Some(7));
            assert_eq!(team, Some("org".to_string()));
        }
        other => panic!("expected a read, got {other:?}"),
    }
    let mut args = read_args();
    args.since = Some("3mo".to_string());
    assert!(refused(execute(CommandSet::Read(args))).contains("'mo'"));
}

fn search_args(query: &str) -> SearchArgs {
    SearchArgs {
        channel: "ops".to_string(),
        query: query.to_string(),
        limit: 20,
        from: None,
        since: Some("30".to_string()),
        team: None,
    }
}

#[test]
fn a_search_is_checked_before_it_is_sent() {
    match execute(CommandSet::Search(search_args("boom"))).unwrap() {
        Plan::Call(DaemonCall::SearchChannel {
            query,
            limit,
            since_secs,
            ..
        }) => {
            assert_eq!(query, "boom");
            assert_eq!(limit, Some(20));
            assert_eq!(since_secs, Some(1_800));
        }
        other => panic!("expected a search, got {other:?}"),
    }
    assert!(refused(execute(CommandSet::Search(search_args("in:x")))).contains("`in:`"));
    assert!(refused(execute(CommandSet::Search(search_args("after:x")))).contains("`after:`"));
    assert!(execute(CommandSet::Search(search_args("from:x"))).is_ok());
}

#[test]
fn plain_commands_pass_their_arguments_on() {
    assert_eq!(
        execute(CommandSet::Whoami).unwrap(),
        Plan::Call(DaemonCall::Whoami)
    );
    assert_eq!(
        execute(CommandSet::Post(PostArgs {
            channel: "ops".to_string(),
            message: "hi".to_string(),
            team: None,
            reply_to: Some("p".to_string()),
        }))
        .unwrap(),
        Plan::Call(DaemonCall::PostMessage {
            channel: "ops".to_string(),
            message: "hi".to_string(),
            team: None,
            reply_to: Some("p".to_string()),
        })
    );
    assert_eq!(
        execute(CommandSet::Check(CheckArgs {
            channel: "ops".to_string(),
            after: Some("p".to_string()),
            team: None,
        }))
        .unwrap(),
        Plan::Call(DaemonCall::CheckChannel {
            channel: "ops".to_string(),
            after: Some("p".to_string()),
            team: None,
        })
    );
    assert_eq!(
        execute(CommandSet::Dm(DmCommand::Read(DmReadArgs {
            username: "dave".to_string(),
            since: 5,
        })))
        .unwrap(),
        Plan::Call(DaemonCall::ReadDirectMessages {
            username: "dave".to_string(),
            since_minutes: 5,
        })
    );
    assert_eq!(
        execute(CommandSet::Attention(AttentionCommand::List)).unwrap(),
        Plan::Call(DaemonCall::AttentionList)
    );
    assert_eq!(
        execute(CommandSet::Daemon(DaemonCommand::Status)).unwrap(),
        Plan::Daemon(DaemonCommand::Status)
    );
    assert!(matches!(
        execute(CommandSet::Channels(ChannelsArgs {
            team: None,
            primary_team: true,
            sort: None,
        }))
        .unwrap(),
        Plan::Channels(_)
    ));
}

#[test]
fn windows_of_waits_and_notifications_are_read() {
    assert_eq!(
        execute(CommandSet::Wait(WaitArgs {
            channel: "ops".to_string(),
            timeout: "10".to_string(),
            team: None,
        }))
        .unwrap(),
        Plan::Call(DaemonCall::WaitChannel {
            channel: "ops".to_string(),
            timeout_secs: 600,
            team: None,
        })
    );
    assert_eq!(
        execute(CommandSet::Notifications(ReadWindowArgs {
            since: "1d".to_string(),
            unread: true,
        }))
        .unwrap(),
        Plan::Call(DaemonCall::Notifications {
            since_secs: 86_400,
            unread_only: true,
        })
    );
    let why = refused(execute(CommandSet::Wait(WaitArgs {
        channel: "ops".to_string(),
        timeout: "".to_string(),
        team: None,
    })));
    assert!(why.contains("empty"));
}

#[test]
fn direct_messages_without_a_verb() {
    assert_eq!(
        handle_dm_raw(&words(&["dave", "hello", "there"])).unwrap(),
        DaemonCall::DirectMessage {
            username: "dave".to_string(),
            message: "hello there".to_string(),
        }
    );
    assert_eq!(
        handle_dm_raw(&words(&["read", "dave"])).unwrap(),
        DaemonCall::ReadDirectMessages {
            username: "dave".to_string(),
            since_minutes: 60,
        }
    );
    assert_eq!(
        handle_dm_raw(&words(&["read", "dave", "--since", "5"])).unwrap(),
        DaemonCall::ReadDirectMessages {
            username: "dave".to_string(),
            since_minutes: 5,
        }
    );
    let usage =
        "bootstrap error: usage: chanvoy dm <username> <message>\n       chanvoy dm read <username> [--since <minutes>]";
    for bad in [&[][..], &["dave"], &["read"], &["read", "dave", "x"], &["read", "dave", "--for", "5"]] {
        assert_eq!(handle_dm_raw(&words(bad)).unwrap_err().message(), usage);
    }
    let err = handle_dm_raw(&words(&["read", "dave", "--since", "soon"])).unwrap_err();
    assert_eq!(
        err.message(),
        "bootstrap error: invalid --since value for dm read"
    );
    assert_eq!(parse_since_arg(&words(&["--since", "9"]), 0).unwrap(), 9);
    assert_eq!(parse_since_arg(&words(&["x"]), 1).unwrap(), 60);
}

#[test]
fn answers_become_texts_and_codes() {
    assert_eq!(check_exit_code(true), 0);
    assert_eq!(check_exit_code(false), 1);
    let late = DaemonFailure::Rpc {
        code: -32005,
        message: "late".to_string(),
    };
    assert_eq!(wait_timed_out(&late), Some("late".to_string()));
    let other = DaemonFailure::Rpc {
        code: -32000,
        message: "no".to_string(),
    };
    assert_eq!(wait_timed_out(&other), None);
    assert_eq!(
        waiting_text("ops", 60),
        "waiting for new message in #ops (timeout: 60s)..."
    );
    assert_eq!(
        wait_timeout_text("ops", 60),
        "timeout: no new messages in #ops after 60 seconds"
    );
    let receipt = PostReceipt {
        id: "p".to_string(),
        parent_id: None,
    };
    assert_eq!(receipt_text("posted", &receipt), "posted: p");
    assert_eq!(dm_receipt_text("dave", &receipt), "dm sent: p (to @dave)");
    assert_eq!(notify_receipt_text("bot", &receipt), "notified @bot: p");
    assert_eq!(archived_text("ops"), "archived: #ops");
    assert_eq!(restored_text("ops"), "restored: #ops");
    assert_eq!(member_added_text("ops", "dave"), "added: @dave \u{2192} #ops");
}

#[test]
fn a_start_looks_twenty_times() {
    assert_eq!(
        handle_daemon_start(Starting::Probe, true),
        StartStep::AlreadyRunning
    );
    let mut step = handle_daemon_start(Starting::Probe, false);
    let mut looks = 0;
    loop {
        match step {
            StartStep::Spawn(at) | StartStep::Wait(at) => {
                looks += 1;
                step = handle_daemon_start(at, false);
            }
            StartStep::NotRunning => break,
            other => panic!("unexpected {other:?}"),
        }
    }
    assert_eq!(looks, 20);
    assert_eq!(
        handle_daemon_start(Starting::Poll(POLL_TRIES), true),
        StartStep::Listening
    );
    assert_eq!(
        not_running("seat").message(),
        "daemon for profile seat is not running"
    );
}

#[test]
fn a_started_daemon_has_ten_seconds() {
    assert_eq!(await_ready(0, Some(true)), ReadyStep::Started);
    assert_eq!(await_ready(9_999, Some(false)), ReadyStep::Look);
    assert_eq!(await_ready(10_000, None), ReadyStep::NotRunning);
}

fn status(answer: Result<String, String>) -> DaemonStatus {
    build_daemon_status(
        "seat".to_string(),
        "/run/seat.sock".to_string(),
        "agent-seat".to_string(),
        answer,
        WsStatusSnapshot {
            connection_state: None,
            last_event_at: None,
            last_error: None,
            reconnect_count: None,
            last_disconnect_at: None,
            last_recovered_at: None,
            suspected_gap: None,
            recovering_until: 0,
        },
        IpcStatusSnapshot {
            connected: None,
            peer_id: None,
            reconnect_count: None,
        },
        0,
    )
}

#[test]
fn only_a_healthy_daemon_is_kept() {
    assert!(keeps_running(Some(&status(Ok("agent-seat".to_string())))));
    assert!(!keeps_running(Some(&status(Ok("someone".to_string())))));
    assert!(!keeps_running(Some(&status(Err("no".to_string())))));
    assert!(!keeps_running(None));
}

#[test]
fn a_stop_ends_one_way_or_another() {
    assert!(matches!(stop_begin(false), StopStep::Done));
    assert!(matches!(stop_begin(true), StopStep::Ask));
    assert!(matches!(
        stop_answered(StopAnswer::NotRunning),
        StopStep::Done
    ));
    assert!(matches!(
        stop_answered(StopAnswer::Stopped),
        StopStep::Poll(20)
    ));
    assert!(matches!(
        stop_answered(StopAnswer::TimedOut),
        StopStep::Poll(20)
    ));
    assert!(matches!(
        stop_answered(StopAnswer::Failed(DaemonFailure::Other("x".to_string()))),
        StopStep::Fail(CliError::Daemon(_))
    ));
    assert!(matches!(
        stop_looked(20, false, "seat", None),
        StopStep::Done
    ));
    assert!(matches!(
        stop_looked(20, true, "seat", None),
        StopStep::Poll(19)
    ));
    assert!(matches!(
        stop_looked(1, true, "seat", Some(7)),
        StopStep::Kill(7)
    ));
    match stop_looked(1, true, "seat", None) {
        StopStep::Fail(e) => assert_eq!(
            e.message(),
            "bootstrap error: daemon for profile seat did not exit within the shutdown grace window and no pid file was readable for the force-kill fallback"
        ),
        _ => panic!("expected a failure"),
    }
}

#[test]
fn a_pid_is_read_from_its_file() {
    assert_eq!(read_daemon_pid(Some(" 42\n")), Some(42));
    assert_eq!(read_daemon_pid(Some("4294967296")), None);
    assert_eq!(read_daemon_pid(Some("x")), None);
    assert_eq!(read_daemon_pid(None), None);
}

fn named(name: &str) -> Profile {
    Profile {
        name: name.to_string(),
        role: "r".to_string(),
        scope: "s".to_string(),
        provider: Provider::Mattermost,
        bot_username: "b".to_string(),
        team_name: "t".to_string(),
        server_url: "u".to_string(),
        env_name: "E".to_string(),
        env_file: None,
        credential_mode: CredentialMode::EnvName,
        capability_class: CapabilityClass::Standard,
        monitored_channels: Vec::new(),
        ipc: None,
        reduce: None,
    }
}

#[test]
fn running_daemons_leave_all_their_traces() {
    let traces = |socket_exists, pid_file_exists, alive| DaemonTraces {
        socket_exists,
        pid_file_exists,
        alive,
    };
    let profiles = vec![named("a"), named("b"), named("c"), named("d"), named("e")];
    let seen = vec![
        traces(true, true, Some(true)),
        traces(false, true, Some(true)),
        traces(true, true, Some(false)),
        traces(true, true, None),
        traces(true, true, Some(true)),
    ];
    assert_eq!(
        list_running_daemon_profiles(&profiles, &seen),
        words(&["a", "e"])
    );
}

#[test]
fn texts_on_the_daemon() {
    assert_eq!(
        already_running_text("p", "/s"),
        "daemon already running for profile p at /s"
    );
    assert_eq!(listening_text("p", "/s"), "daemon listening for profile p at /s");
    assert_eq!(stopped_text("p"), "stopped daemon for profile p");
}
