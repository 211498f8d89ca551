use dogwatch::agent::SessionState;
use dogwatch::clock::LocalDateTime;
use dogwatch::cycle::{
    append_note, latest_run_by_key, nudge_allowed, open_pr_keys, pause_gate, plan_matched, plan_nudge,
    plan_pull_request, plan_set_pause, plan_stale_probe, plan_stale_run, plan_stale_tracker,
    sort_matched, CyclePolicy, Effect, MatchedRun,
};
use dogwatch::github::PullRequest;
use dogwatch::logging::{LogLevel, StaleTracker};
use dogwatch::models::{CiStatus, DrydockRun, ItemPriority, ReviewStatus, UtcTime};
use dogwatch::notifications::{Notifier, NotifyError};

fn pr(repo: &str, branch: &str, number: u64) -> PullRequest {
    PullRequest {
        repo: repo.to_string(),
        number,
        title: "Fix things".to_string(),
        head_ref_name: branch.to_string(),
        url: format!("https://github.com/{repo}/pull/{number}"),
    }
}

fn run(id: i64, repo: &str, branch: &str, started: Option<i64>) -> DrydockRun {
    DrydockRun {
        id,
        item_id: Some(100 + id),
        item_title: Some("Item".to_string()),
        repo: repo.to_string(),
        branch: branch.to_string(),
        status: "running".to_string(),
        ci_status: None,
        review_status: None,
        retry_count: 0,
        pr_url: None,
        notes: None,
        session_id: Some(format!("session-{id}")),
        started_at: started.map(|secs| UtcTime { secs, nanos: 0 }),
        item_priority: ItemPriority::NoPriority,
    }
}

fn policy(dry_run: bool) -> CyclePolicy {
    CyclePolicy { max_retries: 6, stale_cycles: 3, dry_run }
}

fn notifier() -> Notifier {
    Notifier::new(Some("chat:1".to_string()), false)
}

fn entry(ci: CiStatus, review: ReviewStatus) -> MatchedRun {
    MatchedRun {
        pr: pr("owner/repo", "feature", 12),
        run: run(5, "owner/repo", "feature", Some(1000)),
        ci_status: ci,
        review_status: review,
    }
}

fn log_messages(effects: &[Effect]) -> Vec<String> {
    effects
        .iter()
        .filter_map(|e| match e {
            Effect::Log { record } => Some(record.message.clone()),
            _ => None,
        })
        .collect()
}

fn is_write(effect: &Effect) -> bool {
    match effect {
        Effect::UpdateRun { .. }
        | Effect::UpdateItemStatus { .. }
        | Effect::SendNudge { .. }
        | Effect::SetDrydockPause { .. } => true,
        Effect::Notify { notification } => notification.deliver_to.is_some(),
        _ => false,
    }
}

#[test]
fn append_note_adds_a_line_below_existing_notes() {
    assert_eq!(append_note(Some("first"), "second"), "first\nsecond");
    assert_eq!(append_note(Some("   \n"), "second"), "second");
    assert_eq!(append_note(None, "second"), "second");
}

#[test]
fn latest_run_per_branch_is_the_last_started() {
    let runs = vec![
        run(1, "o/r", "a", Some(10)),
        run(2, "o/r", "a", Some(30)),
        run(3, "o/r", "b", None),
        run(4, "o/r", "a", Some(30)),
        run(5, "o/r", "b", Some(5)),
    ];
    assert_eq!(latest_run_by_key(&runs), vec![1, 4]);
}

#[test]
fn pull_request_matches_latest_run_or_is_orphan() {
    let runs = vec![run(1, "o/r", "a", Some(10)), run(2, "o/r", "a", Some(20))];
    let matched = plan_pull_request(&runs, &pr("o/r", "a", 3));
    assert_eq!(matched.matched, Some(1));
    assert!(matches!(matched.effects[..], [Effect::ClearStaleCycle { run_id: 2 }]));

    let orphan = plan_pull_request(&runs, &pr("o/r", "zzz", 4));
    assert_eq!(orphan.matched, None);
    assert_eq!(
        log_messages(&orphan.effects),
        vec!["orphan PR detected; no matching Drydock run".to_string()]
    );
}

#[test]
fn ready_pull_request_is_synced_notified_and_moved_to_evaluating() {
    let plan = plan_matched(&entry(CiStatus::Passed, ReviewStatus::Approved), policy(false), &notifier());
    assert!(plan.probe_session.is_none());
    match &plan.effects[0] {
        Effect::UpdateRun { run_id, update } => {
            assert_eq!(*run_id, 5);
            assert_eq!(update.ci_status.as_deref(), Some("passed"));
            assert_eq!(update.review_status.as_deref(), Some("approved"));
            assert_eq!(update.pr_url.as_deref(), Some("https://github.com/owner/repo/pull/12"));
            assert!(update.status.is_none());
        }
        other => panic!("unexpected {other:?}"),
    }
    match &plan.effects[2] {
        Effect::Notify { notification } => {
            assert_eq!(notification.deliver_to.as_deref(), Some("chat:1"));
            assert!(notification.message.contains("PR ready for review: owner/repo #12"));
        }
        other => panic!("unexpected {other:?}"),
    }
    assert!(matches!(
        &plan.effects[4],
        Effect::UpdateItemStatus { item_id: 105, status } if status == "evaluating"
    ));
    match plan.effects.last().unwrap() {
        Effect::Log { record } => assert_eq!(record.message, "marked run evaluating"),
        other => panic!("unexpected {other:?}"),
    }
    match &plan.effects[plan.effects.len() - 2] {
        Effect::UpdateRun { update, .. } => assert_eq!(update.status.as_deref(), Some("evaluating")),
        other => panic!("unexpected {other:?}"),
    }
}

#[test]
fn dry_run_plans_write_nothing() {
    let cases = [
        (CiStatus::Passed, ReviewStatus::Approved),
        (CiStatus::Failed, ReviewStatus::NoReviews),
        (CiStatus::Pending, ReviewStatus::Pending),
    ];
    for (ci, review) in cases {
        let plan = plan_matched(&entry(ci, review), policy(true), &notifier());
        assert!(plan.effects.iter().all(|e| !is_write(e)));
    }
    let nudge = plan_nudge(
        &entry(CiStatus::Failed, ReviewStatus::Approved),
        &Ok(SessionState::Alive { session_name: "codex-1".to_string() }),
        policy(true),
        &notifier(),
    );
    assert!(nudge.iter().all(|e| !is_write(e)));
    assert_eq!(
        log_messages(&plan_set_pause(true, true)),
        vec!["local pause enabled".to_string()]
    );
    assert!(plan_set_pause(true, true).iter().all(|e| !is_write(e)));
}

#[test]
fn failing_ci_inspects_the_session_then_nudges_once() {
    let e = entry(CiStatus::Failed, ReviewStatus::Approved);
    let plan = plan_matched(&e, policy(false), &notifier());
    assert_eq!(plan.probe_session.as_deref(), Some("session-5"));
    let effects = plan_nudge(
        &e,
        &Ok(SessionState::Alive { session_name: "codex-1".to_string() }),
        policy(false),
        &notifier(),
    );
    match &effects[0] {
        Effect::SendNudge { session_name, message } => {
            assert_eq!(session_name, "codex-1");
            assert_eq!(
                message,
                "CI has failed on PR #12. Please investigate the failures using the gh cli and fix them."
            );
        }
        other => panic!("unexpected {other:?}"),
    }
    match &effects[1] {
        Effect::UpdateRun { update, .. } => {
            assert_eq!(update.retry_count, Some(1));
            assert_eq!(update.notes.as_deref(), Some("Sent nudge #1 for CI failed."));
        }
        other => panic!("unexpected {other:?}"),
    }
}

#[test]
fn retry_limit_escalates_instead_of_nudging() {
    let mut e = entry(CiStatus::Passed, ReviewStatus::ChangesRequested);
    e.run.retry_count = 6;
    e.run.notes = Some("earlier".to_string());
    let plan = plan_matched(&e, policy(false), &notifier());
    assert!(plan.probe_session.is_none());
    assert!(plan.effects.iter().all(|x| !matches!(x, Effect::SendNudge { .. })));
    match &plan.effects[2] {
        Effect::UpdateRun { update, .. } => assert_eq!(
            update.notes.as_deref(),
            Some("earlier\nRetry limit reached after 6 attempts (address comments).")
        ),
        other => panic!("unexpected {other:?}"),
    }
    match &plan.effects[4] {
        Effect::Notify { notification } => assert!(notification
            .message
            .ends_with("(6 attempts, last failure: reviews)")),
        other => panic!("unexpected {other:?}"),
    }
}

#[test]
fn missing_target_aborts_the_notification() {
    let silent = Notifier::new(None, false);
    let plan = plan_matched(&entry(CiStatus::Passed, ReviewStatus::NoReviews), policy(false), &silent);
    assert!(matches!(
        plan.effects.last().unwrap(),
        Effect::Abort { error: NotifyError::MissingTarget }
    ));
}

#[test]
fn closed_or_missing_session_marks_run_failed() {
    let e = entry(CiStatus::Failed, ReviewStatus::Approved);
    let effects = plan_nudge(&e, &Ok(SessionState::Closed), policy(false), &notifier());
    match &effects[0] {
        Effect::UpdateRun { update, .. } => {
            assert_eq!(update.status.as_deref(), Some("failed"));
            assert_eq!(
                update.notes.as_deref(),
                Some("Unable to nudge agent: agent session is closed.")
            );
        }
        other => panic!("unexpected {other:?}"),
    }
    let unreadable = plan_nudge(&e, &Err("no such file".to_string()), policy(false), &notifier());
    match &unreadable[0] {
        Effect::UpdateRun { update, .. } => assert_eq!(
            update.notes.as_deref(),
            Some("Unable to nudge agent: failed to inspect session: no such file.")
        ),
        other => panic!("unexpected {other:?}"),
    }
    let mut no_session = entry(CiStatus::Failed, ReviewStatus::Approved);
    no_session.run.session_id = None;
    let plan = plan_matched(&no_session, policy(false), &notifier());
    assert!(plan.probe_session.is_none());
    assert!(log_messages(&plan.effects)
        .contains(&"marked run failed because the agent session is unavailable".to_string()));
}

#[test]
fn stale_runs_are_escalated_only_without_an_open_pr() {
    let prs = vec![pr("o/r", "a", 1)];
    let keys = open_pr_keys(&prs);
    let with_pr = plan_stale_run(&run(1, "o/r", "a", None), &keys, &vec![]);
    assert!(matches!(with_pr.effects[..], [Effect::ClearStaleCycle { run_id: 1 }]));
    assert!(with_pr.probe_session.is_none());

    let lonely = run(2, "o/r", "b", None);
    let plan = plan_stale_run(&lonely, &keys, &vec![]);
    assert_eq!(plan.probe_session.as_deref(), Some("session-2"));
    let closed = plan_stale_probe(&lonely, "session-2", &Ok(SessionState::Closed), policy(false), &notifier());
    assert!(!closed.bump_stale_cycle);
    assert!(matches!(closed.effects.last().unwrap(), Effect::ClearStaleCycle { run_id: 2 }));
    let alive = plan_stale_probe(
        &lonely,
        "session-2",
        &Ok(SessionState::Alive { session_name: "s".to_string() }),
        policy(false),
        &notifier(),
    );
    assert!(alive.bump_stale_cycle && alive.effects.is_empty());
    let failed = plan_stale_probe(&lonely, "session-2", &Err("boom".to_string()), policy(false), &notifier());
    assert_eq!(
        log_messages(&failed.effects),
        vec!["failed to inspect session session-2: boom".to_string()]
    );
}

#[test]
fn long_running_notification_goes_out_once() {
    let lonely = run(2, "o/r", "b", None);
    let early = plan_stale_tracker(&lonely, StaleTracker { cycles: 2, notified: false }, policy(false), &notifier());
    assert_eq!(early.len(), 1);
    let due = plan_stale_tracker(&lonely, StaleTracker { cycles: 3, notified: false }, policy(false), &notifier());
    assert!(matches!(due.last().unwrap(), Effect::MarkLongRunningNotified { run_id: 2 }));
    let done = plan_stale_tracker(&lonely, StaleTracker { cycles: 9, notified: true }, policy(false), &notifier());
    assert_eq!(done.len(), 1);
    let bumped = StaleTracker::after_bump(Some((3, true)));
    assert_eq!(bumped, StaleTracker { cycles: 4, notified: true });
    assert_eq!(StaleTracker::after_bump(None), StaleTracker { cycles: 1, notified: false });
}

#[test]
fn matched_entries_sort_by_org_rank_then_newest() {
    let now = LocalDateTime::from_ymd_hms(2026, 3, 30, 9, 0, 0).unwrap();
    let mut a = entry(CiStatus::Passed, ReviewStatus::Approved);
    a.run.item_priority = ItemPriority::Low;
    let mut b = entry(CiStatus::Passed, ReviewStatus::Approved);
    b.run.item_priority = ItemPriority::High;
    b.run.id = 7;
    let mut c = entry(CiStatus::Passed, ReviewStatus::Approved);
    c.run.item_priority = ItemPriority::High;
    c.run.started_at = Some(UtcTime { secs: 5000, nanos: 0 });
    c.run.id = 8;
    let mut d = entry(CiStatus::Passed, ReviewStatus::Approved);
    d.pr = pr("AI-Safety-SA/x", "feature", 3);
    d.run.item_priority = ItemPriority::NoPriority;
    d.run.id = 9;
    let sorted = sort_matched(now, vec![a, b, c, d]);
    let ids: Vec<i64> = sorted.iter().map(|e| e.run.id).collect();
    assert_eq!(ids, vec![9, 8, 7, 5]);
}

#[test]
fn pause_gate_prefers_local_pause() {
    match pause_gate(true, true) {
        Some(Effect::Log { record }) => {
            assert_eq!(record.level, LogLevel::Info);
            assert_eq!(record.message, "local pause is enabled; skipping cycle");
        }
        other => panic!("unexpected {other:?}"),
    }
    match pause_gate(false, true) {
        Some(Effect::Log { record }) => {
            assert_eq!(record.message, "Drydock pause flag is enabled; skipping cycle")
        }
        other => panic!("unexpected {other:?}"),
    }
    assert!(pause_gate(false, false).is_none());
    assert!(matches!(
        plan_set_pause(false, false)[0],
        Effect::SetDrydockPause { paused: false }
    ));
}

#[test]
fn nudges_are_allowed_only_for_failing_runs_with_retries_left() {
    let failing = entry(CiStatus::Failed, ReviewStatus::Approved);
    assert!(nudge_allowed(&failing, policy(false)));
    let mut exhausted = entry(CiStatus::Failed, ReviewStatus::Approved);
    exhausted.run.retry_count = 6;
    assert!(!nudge_allowed(&exhausted, policy(false)));
    assert!(!nudge_allowed(&entry(CiStatus::Passed, ReviewStatus::Approved), policy(false)));
}

#[test]
fn stale_row_counts_bumps_and_keeps_a_recorded_notice() {
    let first = StaleTracker::after_bump(None);
    assert_eq!(first, StaleTracker { cycles: 1, notified: false });
    let second = StaleTracker::after_bump(Some((first.cycles, first.notified)));
    assert_eq!(second, StaleTracker { cycles: 2, notified: false });
    // The notice is recorded after the second bump.
    let third = StaleTracker::after_bump(Some((second.cycles, true)));
    assert_eq!(third, StaleTracker { cycles: 3, notified: true });
}
