use dogwatch::agent::{nudge_args, session_file_path, session_state_from_file, SessionState};
use dogwatch::cli::{Cli, Command, LogLevelArg, LogsArgs};
use dogwatch::config::{config_display_path, Config, LimitsConfig, PathsConfig, RuntimePaths};
use dogwatch::decision::{decide, repo_owner, ActionKind, FailureKind};
use dogwatch::github::{GitHubClient, PullRequest, PullRequestCheck, PullRequestReview, ReviewUser};
use dogwatch::logging::{oldest_first, rows_to_rotate, LogLevel};
use dogwatch::models::{CiStatus, DrydockRun, ItemPriority, ReviewStatus};
use dogwatch::notifications::{openclaw_args, Notifier, NotifyError};
use dogwatch::text::{decimal_string, is_blank, same_text};

fn pr() -> PullRequest {
    PullRequest {
        repo: "owner/repo".to_string(),
        number: 42,
        title: "Add feature".to_string(),
        head_ref_name: "feature".to_string(),
        url: "https://github.com/owner/repo/pull/42".to_string(),
    }
}

fn check(bucket: Option<&str>, state: Option<&str>) -> PullRequestCheck {
    PullRequestCheck {
        bucket: bucket.map(str::to_string),
        state: state.map(str::to_string),
    }
}

fn review(login: Option<&str>, state: &str) -> PullRequestReview {
    PullRequestReview {
        state: Some(state.to_string()),
        user: Some(ReviewUser { login: login.map(str::to_string) }),
    }
}

#[test]
fn decimal_writing_matches_display() {
    for n in [0u64, 7, 10, 42, 1000, u64::MAX] {
        assert_eq!(decimal_string(n), n.to_string());
    }
}

#[test]
fn text_helpers_compare_and_trim() {
    assert!(same_text("abc", "abc"));
    assert!(!same_text("abc", "abd"));
    assert!(!same_text("ab", "abc"));
    assert!(is_blank(" \t\n"));
    assert!(!is_blank(" x "));
    assert!(is_blank("\u{3000}\u{85}\u{a0}"));
    assert!(!is_blank("\u{200b}"));
    assert!(is_blank(""));
}

#[test]
fn decisions_cover_every_state() {
    let failed = decide(&pr(), CiStatus::Failed, ReviewStatus::Approved);
    assert_eq!(failed.action, ActionKind::Nudge);
    assert_eq!(failed.failure_kind, Some(FailureKind::Ci));
    assert_eq!(
        failed.nudge_message.as_deref(),
        Some("CI has failed on PR #42. Please investigate the failures using the gh cli and fix them.")
    );
    let comments = decide(&pr(), CiStatus::NoChecks, ReviewStatus::ChangesRequested);
    assert_eq!(comments.failure_kind, Some(FailureKind::Reviews));
    assert_eq!(
        comments.nudge_message.as_deref(),
        Some("There are review comments on PR #42 that need to be addressed. Please check and address the comments using the gh cli.")
    );
    let pending = decide(&pr(), CiStatus::Pending, ReviewStatus::ChangesRequested);
    assert_eq!(pending.action, ActionKind::Skip);
    assert_eq!(pending.summary, "CI pending");
    assert!(pending.nudge_message.is_none());
}

#[test]
fn repo_owner_is_text_before_first_slash() {
    assert_eq!(repo_owner("AI-Safety-SA/repo"), Some("AI-Safety-SA"));
    assert_eq!(repo_owner("noslash"), Some("noslash"));
    assert_eq!(repo_owner("a/b/c"), Some("a"));
}

#[test]
fn ci_status_from_checks() {
    let gh = GitHubClient::new(false);
    assert_eq!(gh.pull_request_checks(&vec![]), CiStatus::NoChecks);
    assert_eq!(
        gh.pull_request_checks(&vec![check(Some("pass"), None), check(Some("cancel"), None)]),
        CiStatus::Failed
    );
    assert_eq!(
        gh.pull_request_checks(&vec![check(Some("pass"), None), check(Some("pending"), None)]),
        CiStatus::Pending
    );
    assert_eq!(
        gh.pull_request_checks(&vec![check(Some("pass"), None), check(Some("skipping"), None)]),
        CiStatus::Passed
    );
    assert_eq!(
        gh.pull_request_checks(&vec![check(None, Some("QUEUED"))]),
        CiStatus::Pending
    );
    assert_eq!(
        gh.pull_request_checks(&vec![check(None, Some("DONE"))]),
        CiStatus::Failed
    );
}

#[test]
fn review_status_uses_latest_review_per_author() {
    let gh = GitHubClient::new(false);
    assert_eq!(gh.pull_request_review_status(&vec![]), ReviewStatus::NoReviews);
    assert_eq!(
        gh.pull_request_review_status(&vec![review(None, "APPROVED")]),
        ReviewStatus::Pending
    );
    assert_eq!(
        gh.pull_request_review_status(&vec![
            review(Some("alice"), "CHANGES_REQUESTED"),
            review(Some("alice"), "APPROVED"),
        ]),
        ReviewStatus::Approved
    );
    assert_eq!(
        gh.pull_request_review_status(&vec![
            review(Some("alice"), "APPROVED"),
            review(Some("bob"), "CHANGES_REQUESTED"),
        ]),
        ReviewStatus::ChangesRequested
    );
    assert_eq!(
        gh.pull_request_review_status(&vec![review(Some("carol"), "COMMENTED")]),
        ReviewStatus::Pending
    );
}

#[test]
fn gh_commands_name_the_pull_request() {
    let gh = GitHubClient::new(true);
    assert!(gh.verbose());
    let checks = gh.checks_command(&pr());
    assert_eq!(checks.program, "gh");
    assert_eq!(checks.args, vec!["pr", "checks", "42", "-R", "owner/repo", "--json", "bucket,state"]);
    assert!(checks.accepts(Some(8)));
    assert!(checks.accepts(None));
    assert!(!checks.accepts(Some(1)));
    let reviews = gh.reviews_command(&pr());
    assert_eq!(reviews.args, vec!["api", "repos/owner/repo/pulls/42/reviews"]);
    assert!(!reviews.accepts(Some(8)));
    assert_eq!(gh.head_ref_command("o/r", 5).args[2], "5");
    assert_eq!(gh.search_pull_requests_command().args[0], "search");
}

#[test]
fn notifier_messages_and_delivery() {
    let notifier = Notifier::new(Some("-100:7".to_string()), false);
    let ready = notifier.ready_for_review(&pr(), false).unwrap();
    assert_eq!(
        ready.message,
        "\u{2705} PR ready for review: owner/repo #42 \u{2014} Add feature\n   https://github.com/owner/repo/pull/42"
    );
    assert_eq!(ready.deliver_to.as_deref(), Some("-100:7"));
    let dry = notifier.session_unavailable(&pr(), true).unwrap();
    assert!(dry.deliver_to.is_none());
    assert!(dry.message.starts_with("\u{1F534} Agent session unavailable: owner/repo #42"));
    let limit = notifier
        .retry_limit_reached(&pr(), 6, FailureKind::Ci, false)
        .unwrap();
    assert!(limit.message.ends_with("(6 attempts, last failure: ci)"));
    let run = DrydockRun {
        id: 9,
        item_id: None,
        item_title: None,
        repo: "o/r".to_string(),
        branch: "b".to_string(),
        status: "running".to_string(),
        ci_status: None,
        review_status: None,
        retry_count: 0,
        pr_url: None,
        notes: None,
        session_id: None,
        started_at: None,
        item_priority: ItemPriority::default(),
    };
    let stale = notifier.stale_run(&run, false).unwrap();
    assert_eq!(
        stale.message,
        "\u{26a0}\u{fe0f} Stale run: \"unknown item\" (run #9) \u{2014} session dead, no PR found"
    );
    let long = notifier.long_running(&run, false).unwrap();
    assert!(long.message.ends_with("session active, no PR after 45min"));
    let unconfigured = Notifier::new(None, true);
    assert_eq!(unconfigured.ready_for_review(&pr(), false).unwrap_err(), NotifyError::MissingTarget);
    assert_eq!(
        NotifyError::MissingTarget.message(),
        "notifications.telegram_target is not configured"
    );
    assert_eq!(
        openclaw_args("t", "m"),
        vec!["message", "send", "--channel", "telegram", "--target", "t", "m"]
    );
}

#[test]
fn statuses_and_levels_have_stored_names() {
    assert_eq!(CiStatus::NoChecks.as_str(), "no-checks");
    assert_eq!(ReviewStatus::ChangesRequested.as_str(), "changes_requested");
    assert_eq!(ItemPriority::Critical.rank(), 0);
    assert_eq!(ItemPriority::default().rank(), 4);
    for level in [LogLevel::Info, LogLevel::Warn, LogLevel::Error] {
        assert_eq!(LogLevel::from_stored(level.as_str()), level);
    }
    assert_eq!(LogLevel::from_stored("debug"), LogLevel::Error);
    assert_eq!(LogLevel::from(LogLevelArg::Warn), LogLevel::Warn);
}

#[test]
fn log_rotation_keeps_recent_rows() {
    assert_eq!(rows_to_rotate(5000, 5000), None);
    assert_eq!(rows_to_rotate(5001, 5000), Some(1001));
    assert_eq!(rows_to_rotate(5000, 100), Some(4900));
    assert_eq!(rows_to_rotate(3500, 3000), Some(500));
    assert_eq!(rows_to_rotate(9000, 6000), Some(5000));
}

#[test]
fn config_defaults_and_paths() {
    let limits = LimitsConfig::default();
    assert_eq!((limits.max_retries, limits.stale_cycles, limits.log_max_rows), (6, 3, 5000));
    let config = Config::default_for_home(Some("/home/me"));
    assert_eq!(config.drydock.api_url, "http://localhost:3000");
    assert_eq!(config.paths.acpx_sessions, "/home/me/.acpx/sessions");
    assert_eq!(PathsConfig::for_home(None).acpx_sessions, "~/.acpx/sessions");
    let paths = RuntimePaths::from_homes("/tmp/home", "/x/config", "/x/data");
    assert_eq!(paths.config_file, "/x/config/dogwatch/config.toml");
    assert_eq!(paths.data_dir, "/x/data/dogwatch");
    assert_eq!(paths.database_file, "/x/data/dogwatch/dogwatch.db");
    assert_eq!(paths.pause_file, "/x/data/dogwatch/paused");
    assert_eq!(config_display_path("/a/b"), "/a/b");
}

#[test]
fn sessions_and_nudges() {
    match session_state_from_file(Some(true), Some("n".to_string()), "id") {
        SessionState::Closed => {}
        other => panic!("unexpected {other:?}"),
    }
    match session_state_from_file(None, None, "id-7") {
        SessionState::Alive { session_name } => assert_eq!(session_name, "id-7"),
        other => panic!("unexpected {other:?}"),
    }
    match session_state_from_file(Some(false), Some("named".to_string()), "id-7") {
        SessionState::Alive { session_name } => assert_eq!(session_name, "named"),
        other => panic!("unexpected {other:?}"),
    }
    assert_eq!(session_file_path("/s", "abc"), "/s/abc.json");
    assert_eq!(nudge_args("sess", "hi"), vec!["codex", "prompt", "--session", "sess", "hi"]);
}

#[test]
fn cli_defaults_to_check() {
    let cli = Cli { dry_run: false, verbose: false, once: false, command: None };
    assert!(matches!(cli.selected_command(), Command::Check));
    let logs = Cli {
        dry_run: false,
        verbose: false,
        once: false,
        command: Some(Command::Logs(LogsArgs { last: 5, run_id: Some(1), level: None })),
    };
    match logs.selected_command() {
        Command::Logs(args) => assert_eq!(args.last, 5),
        other => panic!("unexpected {other:?}"),
    }
    assert_eq!(LogsArgs::default_args().last, 50);
}

#[test]
fn runtime_paths_follow_xdg_variables() {
    let defaulted = RuntimePaths::discover(Some("/home/me"), None, None).unwrap();
    assert_eq!(defaulted.config_file, "/home/me/.config/dogwatch/config.toml");
    assert_eq!(defaulted.database_file, "/home/me/.local/share/dogwatch/dogwatch.db");
    let explicit = RuntimePaths::discover(Some("/home/me"), Some("/cfg"), Some("/dat")).unwrap();
    assert_eq!(explicit.config_file, "/cfg/dogwatch/config.toml");
    assert_eq!(explicit.pause_file, "/dat/dogwatch/paused");
    assert!(RuntimePaths::discover(None, Some("/cfg"), None).is_err());
}

#[test]
fn a_notification_runs_openclaw_only_when_it_has_a_target() {
    let sent = Notifier::new(Some("chat:7".to_string()), false).long_running(&DrydockRun {
        id: 3,
        item_id: None,
        item_title: Some("Docs".to_string()),
        repo: "o/r".to_string(),
        branch: "b".to_string(),
        status: "running".to_string(),
        ci_status: None,
        review_status: None,
        retry_count: 0,
        pr_url: None,
        notes: None,
        session_id: None,
        started_at: None,
        item_priority: ItemPriority::NoPriority,
    }, false).unwrap();
    let args = sent.delivery_args().unwrap();
    assert_eq!(&args[..5], ["message", "send", "--channel", "telegram", "--target"]);
    assert_eq!(args[5], "chat:7");
    assert_eq!(args[6], sent.message);

    let dry = Notifier::new(None, false).ready_for_review(&pr(), true).unwrap();
    assert!(dry.delivery_args().is_none());
}

#[test]
fn queried_log_rows_come_oldest_first() {
    assert_eq!(oldest_first(vec![3, 2, 1]), vec![1, 2, 3]);
    assert_eq!(oldest_first(Vec::<u8>::new()), Vec::<u8>::new());
    assert_eq!(oldest_first(vec!["only"]), vec!["only"]);
}
