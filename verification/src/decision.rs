use vstd::prelude::*;

use crate::clock::LocalDateTime;
use crate::github::PullRequest;
use crate::models::{CiStatus, DrydockRun, ReviewStatus};
use crate::text::{decimal, push_decimal, same_text};
use std::cmp::Ordering;

verus! {

/// What a check cycle does about a matched pull request.
#[derive(Debug, Clone, Copy, PartialEq, Eq, Structural)]
pub enum ActionKind {
    Nudge,
    Notify,
    Skip,
}

/// Why a coding agent is nudged.
#[derive(Debug, Clone, Copy, PartialEq, Eq, Structural)]
pub enum FailureKind {
    Ci,
    Reviews,
}

/// The decision for one pull request.
#[derive(Debug, Clone, PartialEq, Eq)]
pub struct Decision {
    pub action: ActionKind,
    pub summary: &'static str,
    pub nudge_message: Option<String>,
    pub failure_kind: Option<FailureKind>,
    pub update_item_to_evaluating: bool,
    pub update_run_to_evaluating: bool,
}

/// The mathematical value of a `Decision`.
pub struct DecisionView {
    pub action: ActionKind,
    pub summary: Seq<char>,
    pub nudge_message: Option<Seq<char>>,
    pub failure_kind: Option<FailureKind>,
    pub update_item_to_evaluating: bool,
    pub update_run_to_evaluating: bool,
}

impl View for Decision {
    type V = DecisionView;

    open spec fn view(&self) -> DecisionView {
        DecisionView {
            action: self.action,
            summary: self.summary@,
            nudge_message: match self.nudge_message {
                Some(m) => Some(m@),
                None => None,
            },
            failure_kind: self.failure_kind,
            update_item_to_evaluating: self.update_item_to_evaluating,
            update_run_to_evaluating: self.update_run_to_evaluating,
        }
    }
}

/// The message that asks an agent to fix the failing CI of pull request `number`.
pub open spec fn ci_nudge_message(number: u64) -> Seq<char> {
    "CI has failed on PR #"@ + decimal(number as nat)
        + ". Please investigate the failures using the gh cli and fix them."@
}

/// The message that asks an agent to address the review comments on pull request `number`.
pub open spec fn review_nudge_message(number: u64) -> Seq<char> {
    "There are review comments on PR #"@ + decimal(number as nat)
        + " that need to be addressed. Please check and address the comments using the gh cli."@
}

/// The decision for pull request `number` with the given CI and review states: failed CI is
/// nudged first; then requested changes on passed (or absent) CI; pending CI is skipped; the
/// rest is ready for review.
pub open spec fn spec_decide(number: u64, ci: CiStatus, review: ReviewStatus) -> DecisionView {
    if ci == CiStatus::Failed {
        DecisionView {
            action: ActionKind::Nudge,
            summary: "CI failed"@,
            nudge_message: Some(ci_nudge_message(number)),
            failure_kind: Some(FailureKind::Ci),
            update_item_to_evaluating: false,
            update_run_to_evaluating: false,
        }
    } else if (ci == CiStatus::Passed || ci == CiStatus::NoChecks) && review
        == ReviewStatus::ChangesRequested {
        DecisionView {
            action: ActionKind::Nudge,
            summary: "address comments"@,
            nudge_message: Some(review_nudge_message(number)),
            failure_kind: Some(FailureKind::Reviews),
            update_item_to_evaluating: false,
            update_run_to_evaluating: false,
        }
    } else if ci == CiStatus::Pending {
        DecisionView {
            action: ActionKind::Skip,
            summary: "CI pending"@,
            nudge_message: None,
            failure_kind: None,
            update_item_to_evaluating: false,
            update_run_to_evaluating: false,
        }
    } else {
        DecisionView {
            action: ActionKind::Notify,
            summary: "ready for review"@,
            nudge_message: None,
            failure_kind: None,
            update_item_to_evaluating: true,
            update_run_to_evaluating: true,
        }
    }
}

fn ci_nudge_text(number: u64) -> (s: String)
    ensures
        s@ == ci_nudge_message(number),
{
    let mut s = String::new();
    s.append("CI has failed on PR #");
    push_decimal(&mut s, number);
    s.append(". Please investigate the failures using the gh cli and fix them.");
    s
}

fn review_nudge_text(number: u64) -> (s: String)
    ensures
        s@ == review_nudge_message(number),
{
    let mut s = String::new();
    s.append("There are review comments on PR #");
    push_decimal(&mut s, number);
    s.append(
        " that need to be addressed. Please check and address the comments using the gh cli.",
    );
    s
}

/// Decides what to do about a pull request from its CI and review states.
pub fn decide(pr: &PullRequest, ci_status: CiStatus, review_status: ReviewStatus) -> (d: Decision)
    ensures
        d@ == spec_decide(pr.number, ci_status, review_status),
        (ci_status == CiStatus::Passed || ci_status == CiStatus::NoChecks) && review_status
            != ReviewStatus::ChangesRequested ==> d.action == ActionKind::Notify && d.summary@
            == "ready for review"@ && d.update_item_to_evaluating && d.update_run_to_evaluating,
{
    match (ci_status, review_status) {
        (CiStatus::Failed, _) => Decision {
            action: ActionKind::Nudge,
            summary: "CI failed",
            nudge_message: Some(ci_nudge_text(pr.number)),
            failure_kind: Some(FailureKind::Ci),
            update_item_to_evaluating: false,
            update_run_to_evaluating: false,
        },
        (CiStatus::Passed, ReviewStatus::ChangesRequested)
        | (CiStatus::NoChecks, ReviewStatus::ChangesRequested) => Decision {
            action: ActionKind::Nudge,
            summary: "address comments",
            nudge_message: Some(review_nudge_text(pr.number)),
            failure_kind: Some(FailureKind::Reviews),
            update_item_to_evaluating: false,
            update_run_to_evaluating: false,
        },
        (CiStatus::Pending, _) => Decision {
            action: ActionKind::Skip,
            summary: "CI pending",
            nudge_message: None,
            failure_kind: None,
            update_item_to_evaluating: false,
            update_run_to_evaluating: false,
        },
        (
            CiStatus::Passed,
            ReviewStatus::Approved | ReviewStatus::Pending | ReviewStatus::NoReviews,
        )
        | (
            CiStatus::NoChecks,
            ReviewStatus::Approved | ReviewStatus::Pending | ReviewStatus::NoReviews,
        ) => Decision {
            action: ActionKind::Notify,
            summary: "ready for review",
            nudge_message: None,
            failure_kind: None,
            update_item_to_evaluating: true,
            update_run_to_evaluating: true,
        },
    }
}

/// A decision nudges exactly when it names a failure, exactly when it carries a nudge
/// message; it moves the item and the run to evaluating exactly when it notifies.
pub proof fn lemma_decision_is_consistent(number: u64, ci: CiStatus, review: ReviewStatus)
    ensures
        ({
            let d = spec_decide(number, ci, review);
            &&& (d.action == ActionKind::Nudge) <==> d.failure_kind is Some
            &&& (d.action == ActionKind::Nudge) <==> d.nudge_message is Some
            &&& (d.action == ActionKind::Notify) <==> d.update_item_to_evaluating
            &&& (d.action == ActionKind::Notify) <==> d.update_run_to_evaluating
        }),
{
}

/// Failed CI is always nudged as a CI failure, whatever the reviews say; pending CI is
/// never reported ready for review.
pub proof fn lemma_failed_ci_always_nudges(number: u64, ci: CiStatus, review: ReviewStatus)
    ensures
        ci == CiStatus::Failed ==> spec_decide(number, ci, review).action == ActionKind::Nudge
            && spec_decide(number, ci, review).failure_kind == Some(FailureKind::Ci),
        ci == CiStatus::Pending ==> spec_decide(number, ci, review).action != ActionKind::Notify,
{
}

/// Green CI (passed, or no checks at all) is ready for review unless changes were requested
/// on it: a pending review, an approval or no review at all all report the pull request
/// ready and move its item and run to evaluating.
pub proof fn lemma_green_ci_is_ready_unless_changes_requested(number: u64, ci: CiStatus, review: ReviewStatus)
    requires
        ci == CiStatus::Passed || ci == CiStatus::NoChecks,
        review != ReviewStatus::ChangesRequested,
    ensures
        spec_decide(number, ci, review).action == ActionKind::Notify,
        spec_decide(number, ci, review).summary == "ready for review"@,
        spec_decide(number, ci, review).nudge_message is None,
        spec_decide(number, ci, review).failure_kind is None,
        spec_decide(number, ci, review).update_item_to_evaluating,
        spec_decide(number, ci, review).update_run_to_evaluating,
{
}

/// Of the review states only a request for changes counts: a pending review, an approval
/// and no review at all lead to the same decision, whatever the CI state.
pub proof fn lemma_only_requested_changes_count(number: u64, ci: CiStatus)
    ensures
        spec_decide(number, ci, ReviewStatus::Pending) == spec_decide(number, ci, ReviewStatus::Approved),
        spec_decide(number, ci, ReviewStatus::NoReviews) == spec_decide(number, ci, ReviewStatus::Approved),
{
}

/// Requested changes on green CI nudge the agent to address the comments, with the review
/// message for that pull request.
pub proof fn lemma_requested_changes_on_green_ci_nudge(number: u64, ci: CiStatus)
    requires
        ci == CiStatus::Passed || ci == CiStatus::NoChecks,
    ensures
        spec_decide(number, ci, ReviewStatus::ChangesRequested).action == ActionKind::Nudge,
        spec_decide(number, ci, ReviewStatus::ChangesRequested).failure_kind == Some(FailureKind::Reviews),
        spec_decide(number, ci, ReviewStatus::ChangesRequested).nudge_message == Some(
            review_nudge_message(number),
        ),
{
}

/// Pending CI is skipped, whatever the reviews say.
pub proof fn lemma_pending_ci_is_skipped(number: u64, review: ReviewStatus)
    ensures
        spec_decide(number, CiStatus::Pending, review).action == ActionKind::Skip,
        spec_decide(number, CiStatus::Pending, review).summary == "CI pending"@,
        !spec_decide(number, CiStatus::Pending, review).update_item_to_evaluating,
        !spec_decide(number, CiStatus::Pending, review).update_run_to_evaluating,
{
}

/// Whether a local time falls in South African working hours: Monday to Friday, from 08:00
/// up to (not including) 17:00.
pub open spec fn spec_is_work_hours(now: LocalDateTime) -> bool {
    now.spec_weekday() < 5 && 8 <= now.spec_hour() < 17
}

/// Working hours are every hour from 08:00 to 16:59 on Monday, Tuesday, Wednesday, Thursday
/// and Friday (weekdays 0 to 4, counted from Monday); no hour of Saturday or Sunday (5 and 6)
/// is, nor any hour before 08:00 or from 17:00 on.
pub proof fn lemma_working_hours(now: LocalDateTime)
    ensures
        (now.spec_weekday() == 0 || now.spec_weekday() == 1 || now.spec_weekday() == 2
            || now.spec_weekday() == 3 || now.spec_weekday() == 4) && 8 <= now.spec_hour()
            && now.spec_hour() <= 16 ==> spec_is_work_hours(now),
        now.spec_weekday() == 5 || now.spec_weekday() == 6 ==> !spec_is_work_hours(now),
        now.spec_hour() < 8 || now.spec_hour() >= 17 ==> !spec_is_work_hours(now),
{
}

pub fn is_sast_work_hours(now: LocalDateTime) -> (r: bool)
    ensures
        r == spec_is_work_hours(now),
        (now.spec_weekday() == 0 || now.spec_weekday() == 1 || now.spec_weekday() == 2
            || now.spec_weekday() == 3 || now.spec_weekday() == 4) && 8 <= now.spec_hour()
            && now.spec_hour() <= 16 ==> r,
{
    let weekday = now.weekday_from_monday();
    let hour = now.hour();
    weekday < 5 && 8 <= hour && hour < 17
}

/// Whether `owner` is the part of `repo` before its first `/` (all of `repo` when it has
/// none), as `repo.split('/').next()` gives it.
pub open spec fn is_owner_part(repo: Seq<char>, owner: Seq<char>) -> bool {
    &&& owner.len() <= repo.len()
    &&& owner == repo.take(owner.len() as int)
    &&& forall|j: int| 0 <= j < owner.len() ==> owner[j] != '/'
    &&& (owner.len() == repo.len() || repo[owner.len() as int] == '/')
}

/// Two owner parts of one repository are the same.
pub proof fn lemma_owner_part_unique(repo: Seq<char>, a: Seq<char>, b: Seq<char>)
    requires
        is_owner_part(repo, a),
        is_owner_part(repo, b),
    ensures
        a == b,
{
    if a.len() < b.len() {
        assert(b[a.len() as int] == repo[a.len() as int]);
    } else if b.len() < a.len() {
        assert(a[b.len() as int] == repo[b.len() as int]);
    }
    assert(a =~= b);
}

/// The owner of a repository named `owner/name`.
pub fn repo_owner(repo: &str) -> (r: Option<&str>)
    ensures
        r matches Some(o) && is_owner_part(repo@, o@),
{
    let n = repo.unicode_len();
    let mut i: usize = 0;
    while i < n
        invariant
            n == repo@.len(),
            i <= n,
            forall|j: int| 0 <= j < i ==> repo@[j] != '/',
        ensures
            i <= n,
            forall|j: int| 0 <= j < i ==> repo@[j] != '/',
            i == n || repo@[i as int] == '/',
        decreases n - i,
    {
        if repo.get_char(i) == '/' {
            break;
        }
        i = i + 1;
    }
    let owner = repo.substring_char(0, i);
    assert(owner@ =~= repo@.take(i as int));
    Some(owner)
}

/// The organisation whose pull requests come first during working hours.
pub open spec fn priority_org() -> Seq<char> {
    "AI-Safety-SA"@
}

/// The seconds of a run's start, or 0 for a run without one.
pub open spec fn started_secs(run: DrydockRun) -> int {
    match run.started_at {
        Some(t) => t.secs as int,
        None => 0,
    }
}

/// The key by which candidates are ordered: the priority organisation first during working
/// hours, then the item's rank, then the most recently started run.
pub open spec fn candidate_key(now: LocalDateTime, run: DrydockRun, pr: PullRequest) -> (
    int,
    int,
    int,
) {
    (org_rank(now, pr) as int, run.item_priority.spec_rank() as int, -started_secs(run))
}

/// 0 for the priority organisation's pull requests during working hours, 1 otherwise.
pub open spec fn org_rank(now: LocalDateTime, pr: PullRequest) -> u8 {
    if spec_is_work_hours(now) && is_owner_part(pr.repo@, priority_org()) {
        0
    } else {
        1
    }
}

/// Lexicographic order on keys.
pub open spec fn key_less(a: (int, int, int), b: (int, int, int)) -> bool {
    a.0 < b.0 || (a.0 == b.0 && (a.1 < b.1 || (a.1 == b.1 && a.2 < b.2)))
}

/// Whether candidate `a` may come no later than candidate `b`.
pub open spec fn candidate_le(
    now: LocalDateTime,
    a: (DrydockRun, PullRequest),
    b: (DrydockRun, PullRequest),
) -> bool {
    !key_less(candidate_key(now, b.0, b.1), candidate_key(now, a.0, a.1))
}

pub(crate) fn run_start_secs(run: &DrydockRun) -> (s: i64)
    ensures
        s == started_secs(*run),
{
    match run.started_at {
        Some(t) => t.secs,
        None => 0,
    }
}

pub(crate) fn org_priority(now: LocalDateTime, pr: &PullRequest) -> (p: u8)
    ensures
        p == org_rank(now, *pr),
{
    let in_work_hours = is_sast_work_hours(now);
    if !in_work_hours {
        return 1;
    }
    match repo_owner(pr.repo.as_str()) {
        Some(o) => {
            proof {
                reveal_strlit("AI-Safety-SA");
                if is_owner_part(pr.repo@, priority_org()) {
                    lemma_owner_part_unique(pr.repo@, o@, priority_org());
                }
            }
            if same_text(o, "AI-Safety-SA") {
                0
            } else {
                1
            }
        },
        None => 1,
    }
}

/// The ordering of two candidates: `Less` when `left` is handled first.
pub open spec fn candidate_ordering(
    now: LocalDateTime,
    left: (DrydockRun, PullRequest),
    right: (DrydockRun, PullRequest),
) -> Ordering {
    let a = candidate_key(now, left.0, left.1);
    let b = candidate_key(now, right.0, right.1);
    if key_less(a, b) {
        Ordering::Less
    } else if a == b {
        Ordering::Equal
    } else {
        Ordering::Greater
    }
}

/// Orders two (run, pull request) candidates: during working hours the priority
/// organisation's pull requests come first, then items by priority rank, then the most
/// recently started run.
pub fn sort_candidates(
    now: LocalDateTime,
    left: (&DrydockRun, &PullRequest),
    right: (&DrydockRun, &PullRequest),
) -> (o: Ordering)
    ensures
        o == candidate_ordering(now, (*left.0, *left.1), (*right.0, *right.1)),
{
    let left_org = org_priority(now, left.1);
    let right_org = org_priority(now, right.1);
    let left_rank = left.0.item_priority.rank();
    let right_rank = right.0.item_priority.rank();
    let left_start = run_start_secs(left.0);
    let right_start = run_start_secs(right.0);
    if left_org < right_org {
        Ordering::Less
    } else if left_org > right_org {
        Ordering::Greater
    } else if left_rank < right_rank {
        Ordering::Less
    } else if left_rank > right_rank {
        Ordering::Greater
    } else if left_start > right_start {
        Ordering::Less
    } else if left_start < right_start {
        Ordering::Greater
    } else {
        Ordering::Equal
    }
}

/// Swapping the two candidates reverses their ordering.
pub proof fn lemma_candidate_ordering_antisymmetric(
    now: LocalDateTime,
    a: (DrydockRun, PullRequest),
    b: (DrydockRun, PullRequest),
)
    ensures
        candidate_ordering(now, a, b) == Ordering::Less <==> candidate_ordering(now, b, a)
            == Ordering::Greater,
        candidate_ordering(now, a, b) == Ordering::Equal <==> candidate_ordering(now, b, a)
            == Ordering::Equal,
{
}

/// The ordering is transitive: a candidate that comes no later than a second, which comes
/// no later than a third, comes no later than the third.
pub proof fn lemma_candidate_ordering_transitive(
    now: LocalDateTime,
    a: (DrydockRun, PullRequest),
    b: (DrydockRun, PullRequest),
    c: (DrydockRun, PullRequest),
)
    requires
        candidate_ordering(now, a, b) != Ordering::Greater,
        candidate_ordering(now, b, c) != Ordering::Greater,
    ensures
        candidate_ordering(now, a, c) != Ordering::Greater,
{
}

/// During working hours a pull request of the priority organisation comes before any other
/// organisation's, whatever the items' priorities and start times.
pub proof fn lemma_work_hours_put_priority_org_first(
    now: LocalDateTime,
    a: (DrydockRun, PullRequest),
    b: (DrydockRun, PullRequest),
)
    requires
        spec_is_work_hours(now),
        is_owner_part(a.1.repo@, priority_org()),
        !is_owner_part(b.1.repo@, priority_org()),
    ensures
        candidate_ordering(now, a, b) == Ordering::Less,
{
}

/// Outside working hours the organisation plays no part: only rank and start time count.
pub proof fn lemma_outside_work_hours_org_ignored(
    now: LocalDateTime,
    a: (DrydockRun, PullRequest),
    b: (DrydockRun, PullRequest),
)
    requires
        !spec_is_work_hours(now),
    ensures
        candidate_key(now, a.0, a.1).0 == candidate_key(now, b.0, b.1).0,
{
}

} // verus!
