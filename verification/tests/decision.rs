use chrono::{DateTime, Datelike, Local, TimeZone, Timelike};

use dogwatch::clock::LocalDateTime;
use dogwatch::decision::{decide, is_sast_work_hours, sort_candidates, ActionKind};
use dogwatch::github::PullRequest;
use dogwatch::models::{CiStatus, DrydockRun, ItemPriority, ReviewStatus, UtcTime};

fn local(time: DateTime<Local>) -> LocalDateTime {
    LocalDateTime::from_ymd_hms(
        time.year(),
        time.month(),
        time.day(),
        time.hour(),
        time.minute(),
        time.second(),
    )
    .unwrap()
}

fn pr(repo: &str, number: u64) -> PullRequest {
    PullRequest {
        repo: repo.to_string(),
        number,
        title: "Example".to_string(),
        head_ref_name: "branch".to_string(),
        url: "https://example.invalid".to_string(),
    }
}

fn run(repo: &str, priority: ItemPriority) -> DrydockRun {
    let started = Local.with_ymd_and_hms(2026, 3, 30, 10, 0, 0).unwrap().to_utc();
    DrydockRun {
        id: 1,
        item_id: Some(1),
        item_title: Some("Item".to_string()),
        repo: repo.to_string(),
        branch: "branch".to_string(),
        status: "running".to_string(),
        ci_status: None,
        review_status: None,
        retry_count: 0,
        pr_url: None,
        notes: None,
        session_id: None,
        started_at: Some(UtcTime {
            secs: started.timestamp(),
            nanos: started.timestamp_subsec_nanos(),
        }),
        item_priority: priority,
    }
}

#[test]
fn changes_requested_with_passed_ci_nudges() {
    let decision = decide(
        &pr("owner/repo", 12),
        CiStatus::Passed,
        ReviewStatus::ChangesRequested,
    );
    assert_eq!(decision.action, ActionKind::Nudge);
    assert_eq!(decision.summary, "address comments");
}

#[test]
fn approved_without_checks_notifies() {
    let decision = decide(
        &pr("owner/repo", 12),
        CiStatus::NoChecks,
        ReviewStatus::Approved,
    );
    assert_eq!(decision.action, ActionKind::Notify);
    assert!(decision.update_item_to_evaluating);
}

#[test]
fn sast_hours_prioritize_ai_safety_sa() {
    let now = local(Local.with_ymd_and_hms(2026, 3, 30, 9, 0, 0).unwrap());
    let mut entries = [
        (
            run("other/repo", ItemPriority::Critical),
            pr("other/repo", 1),
        ),
        (
            run("AI-Safety-SA/repo", ItemPriority::Low),
            pr("AI-Safety-SA/repo", 2),
        ),
    ];

    entries
        .sort_by(|left, right| sort_candidates(now, (&left.0, &left.1), (&right.0, &right.1)));
    assert_eq!(entries[0].1.repo, "AI-Safety-SA/repo");
}

#[test]
fn sast_hours_detection_matches_weekday_window() {
    let monday = local(Local.with_ymd_and_hms(2026, 3, 30, 8, 30, 0).unwrap());
    let saturday = local(Local.with_ymd_and_hms(2026, 4, 4, 10, 0, 0).unwrap());
    assert!(is_sast_work_hours(monday));
    assert!(!is_sast_work_hours(saturday));
}
