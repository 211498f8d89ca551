use dogwatch::agent::SessionState;
use dogwatch::check_cycle::{CheckCycle, CycleEvent, CycleRequest};
use dogwatch::clock::LocalDateTime;
use dogwatch::cycle::{CyclePolicy, Effect};
use dogwatch::github::PullRequest;
use dogwatch::logging::StaleTracker;
use dogwatch::models::{CiStatus, DrydockRun, ItemPriority, ReviewStatus, UtcTime};
use dogwatch::notifications::Notifier;

fn pull_request(repo: &str, branch: &str, number: u64) -> PullRequest {
    PullRequest {
        repo: repo.to_string(),
        number,
        title: "Fix things".to_string(),
        head_ref_name: branch.to_string(),
        url: format!("https://github.com/{repo}/pull/{number}"),
    }
}

fn running(id: i64, repo: &str, branch: &str) -> DrydockRun {
    DrydockRun {
        id,
        item_id: Some(100 + id),
        item_title: Some("Item".to_string()),
        repo: repo.to_string(),
        branch: branch.to_string(),
        status: "running".to_string(),
        ci_status: None,
        review_status: None,
        retry_count: 0,
        pr_url: None,
        notes: None,
        session_id: Some(format!("session-{id}")),
        started_at: Some(UtcTime { secs: 1000 + id, nanos: 0 }),
        item_priority: ItemPriority::NoPriority,
    }
}

fn new_cycle() -> CheckCycle {
    CheckCycle::new(
        CyclePolicy { max_retries: 6, stale_cycles: 1, dry_run: false },
        Notifier::new(Some("chat:1".to_string()), false),
    )
}

fn writes_outside(effect: &Effect) -> bool {
    match effect {
        Effect::UpdateRun { .. }
        | Effect::UpdateItemStatus { .. }
        | Effect::SendNudge { .. }
        | Effect::SetDrydockPause { .. } => true,
        Effect::Notify { notification } => notification.deliver_to.is_some(),
        _ => false,
    }
}

fn log_messages(effects: &[Effect]) -> Vec<String> {
    effects
        .iter()
        .filter_map(|e| match e {
            Effect::Log { record } => Some(record.message.clone()),
            _ => None,
        })
        .collect()
}

#[test]
fn local_pause_ends_the_cycle_with_one_log_row() {
    let (cycle, effects, request) = new_cycle().step(CycleEvent::Continue);
    assert!(effects.is_empty());
    assert!(matches!(request, CycleRequest::LocalPause));
    let (cycle, effects, request) = cycle.step(CycleEvent::LocalPause { paused: true });
    assert_eq!(log_messages(&effects), vec!["local pause is enabled; skipping cycle".to_string()]);
    assert_eq!(effects.len(), 1);
    assert!(matches!(request, CycleRequest::Finished));
    let (_, effects, request) = cycle.step(CycleEvent::Continue);
    assert!(effects.is_empty());
    assert!(matches!(request, CycleRequest::Finished));
}

#[test]
fn drydock_pause_is_asked_only_without_local_pause() {
    let (cycle, _, _) = new_cycle().step(CycleEvent::Continue);
    let (cycle, effects, request) = cycle.step(CycleEvent::LocalPause { paused: false });
    assert!(effects.is_empty());
    assert!(matches!(request, CycleRequest::DrydockPause));
    let (_, effects, request) = cycle.step(CycleEvent::DrydockPause { paused: true });
    assert_eq!(
        log_messages(&effects),
        vec!["Drydock pause flag is enabled; skipping cycle".to_string()]
    );
    assert!(matches!(request, CycleRequest::Finished));
}

#[test]
fn an_unexpected_event_repeats_the_request() {
    let (cycle, _, _) = new_cycle().step(CycleEvent::Continue);
    let (cycle, effects, request) = cycle.step(CycleEvent::DrydockPause { paused: true });
    assert!(effects.is_empty());
    assert!(matches!(request, CycleRequest::LocalPause));
    let (_, _, request) = cycle.step(CycleEvent::LocalPause { paused: false });
    assert!(matches!(request, CycleRequest::DrydockPause));
}

#[test]
fn a_full_cycle_handles_matched_pull_requests_before_stale_runs() {
    let runs = vec![running(5, "owner/repo", "feature"), running(6, "owner/repo", "other")];
    let prs = vec![pull_request("owner/repo", "feature", 12), pull_request("owner/repo", "gone", 13)];

    let (cycle, _, _) = new_cycle().step(CycleEvent::Continue);
    let (cycle, _, _) = cycle.step(CycleEvent::LocalPause { paused: false });
    let (cycle, _, request) = cycle.step(CycleEvent::DrydockPause { paused: false });
    assert!(matches!(request, CycleRequest::RunningRuns));
    let (cycle, effects, request) = cycle.step(CycleEvent::RunningRuns { runs });
    assert!(effects.is_empty());
    assert!(matches!(request, CycleRequest::OpenPullRequests));
    let (cycle, effects, request) = cycle.step(CycleEvent::OpenPullRequests { prs });
    assert!(effects.is_empty());
    assert!(matches!(request, CycleRequest::Continue));

    // The first pull request is matched to run 5: its stale count is cleared and its
    // statuses are asked for.
    let (cycle, effects, request) = cycle.step(CycleEvent::Continue);
    assert!(matches!(effects[..], [Effect::ClearStaleCycle { run_id: 5 }]));
    assert!(matches!(request, CycleRequest::PullRequestStatuses { pr: 0 }));
    let (cycle, effects, request) = cycle.step(CycleEvent::PullRequestStatuses {
        ci_status: CiStatus::Passed,
        review_status: ReviewStatus::Approved,
    });
    assert!(effects.is_empty());
    assert!(matches!(request, CycleRequest::Continue));

    // The second has no run.
    let (cycle, effects, request) = cycle.step(CycleEvent::Continue);
    assert_eq!(
        log_messages(&effects),
        vec!["orphan PR detected; no matching Drydock run".to_string()]
    );
    assert!(!effects.iter().any(writes_outside));
    assert!(matches!(request, CycleRequest::Continue));
    let (cycle, _, request) = cycle.step(CycleEvent::Continue);
    assert!(matches!(request, CycleRequest::LocalTime));
    let now = LocalDateTime::from_ymd_hms(2026, 3, 30, 9, 0, 0).unwrap();
    let (cycle, effects, request) = cycle.step(CycleEvent::LocalTime { now });
    assert!(effects.is_empty());
    assert!(matches!(request, CycleRequest::Continue));

    // The ready pull request is synced and its item moved to evaluating.
    let (cycle, effects, request) = cycle.step(CycleEvent::Continue);
    assert!(matches!(&effects[0], Effect::UpdateRun { run_id: 5, .. }));
    assert!(effects.iter().any(|e| matches!(
        e,
        Effect::UpdateItemStatus { item_id: 105, status } if status == "evaluating"
    )));
    assert!(matches!(request, CycleRequest::Continue));
    let (cycle, effects, request) = cycle.step(CycleEvent::Continue);
    assert!(effects.is_empty());
    assert!(matches!(request, CycleRequest::Continue));

    // Then the stale runs: run 5 has an open pull request, run 6 has none.
    let (cycle, effects, request) = cycle.step(CycleEvent::Continue);
    assert!(matches!(effects[..], [Effect::ClearStaleCycle { run_id: 5 }]));
    assert!(matches!(request, CycleRequest::Continue));
    let (cycle, effects, request) = cycle.step(CycleEvent::Continue);
    assert!(effects.is_empty());
    match &request {
        CycleRequest::Session { session_id } => assert_eq!(session_id, "session-6"),
        other => panic!("unexpected {other:?}"),
    }
    let (cycle, effects, request) = cycle.step(CycleEvent::Session {
        probe: Ok(SessionState::Alive { session_name: "agent-6".to_string() }),
    });
    assert!(effects.is_empty());
    assert!(matches!(request, CycleRequest::BumpStaleCycle { run_id: 6 }));
    let (cycle, effects, request) = cycle.step(CycleEvent::StaleTracker {
        tracker: StaleTracker { cycles: 1, notified: false },
    });
    assert!(matches!(effects.last(), Some(Effect::MarkLongRunningNotified { run_id: 6 })));
    assert!(effects.iter().any(|e| matches!(e, Effect::Notify { .. })));
    assert!(matches!(request, CycleRequest::Continue));
    let (_, effects, request) = cycle.step(CycleEvent::Continue);
    assert!(effects.is_empty());
    assert!(matches!(request, CycleRequest::Finished));
}

#[test]
fn failing_ci_asks_for_the_session_before_nudging() {
    let runs = vec![running(5, "owner/repo", "feature")];
    let prs = vec![pull_request("owner/repo", "feature", 12)];
    let (cycle, _, _) = new_cycle().step(CycleEvent::Continue);
    let (cycle, _, _) = cycle.step(CycleEvent::LocalPause { paused: false });
    let (cycle, _, _) = cycle.step(CycleEvent::DrydockPause { paused: false });
    let (cycle, _, _) = cycle.step(CycleEvent::RunningRuns { runs });
    let (cycle, _, _) = cycle.step(CycleEvent::OpenPullRequests { prs });
    let (cycle, _, _) = cycle.step(CycleEvent::Continue);
    let (cycle, _, _) = cycle.step(CycleEvent::PullRequestStatuses {
        ci_status: CiStatus::Failed,
        review_status: ReviewStatus::Pending,
    });
    let (cycle, _, _) = cycle.step(CycleEvent::Continue);
    let now = LocalDateTime::from_ymd_hms(2026, 3, 30, 9, 0, 0).unwrap();
    let (cycle, _, _) = cycle.step(CycleEvent::LocalTime { now });
    let (cycle, effects, request) = cycle.step(CycleEvent::Continue);
    assert!(!effects.iter().any(|e| matches!(e, Effect::SendNudge { .. })));
    match &request {
        CycleRequest::Session { session_id } => assert_eq!(session_id, "session-5"),
        other => panic!("unexpected {other:?}"),
    }
    let (_, effects, request) = cycle.step(CycleEvent::Session {
        probe: Ok(SessionState::Alive { session_name: "agent-5".to_string() }),
    });
    let nudges: Vec<&Effect> = effects.iter().filter(|e| matches!(e, Effect::SendNudge { .. })).collect();
    assert_eq!(nudges.len(), 1);
    match nudges[0] {
        Effect::SendNudge { session_name, .. } => assert_eq!(session_name, "agent-5"),
        other => panic!("unexpected {other:?}"),
    }
    assert!(matches!(request, CycleRequest::Continue));
}
