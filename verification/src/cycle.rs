use vstd::prelude::*;

use crate::agent::{SessionState, SessionStateView};
use crate::clock::LocalDateTime;
use crate::decision::{
    ActionKind, DecisionView, FailureKind, candidate_key, decide, key_less, spec_decide,
};
use crate::github::PullRequest;
use crate::logging::{LogLevel, LogRecord, LogRecordView, StaleTracker};
use crate::models::{
    CiStatus, DrydockRun, ReviewStatus, RunUpdate, RunUpdateView, started_at_no_later,
    started_no_later,
};
use crate::notifications::{
    Notification, NotificationView, Notifier, NotifyError, long_running_message,
    notify_outcome_view, ready_for_review_message, retry_limit_message,
    session_unavailable_message, stale_run_message,
};
use crate::text::{
    decimal, is_blank, option_view, push_decimal, push_signed_decimal, same_text, signed_decimal,
    trimmed,
};

verus! {

/// One step of outside work that a check cycle asks for, in the order it is to be done.
#[derive(Debug, Clone)]
pub enum Effect {
    /// `PATCH /runs/:id` with the update.
    UpdateRun { run_id: i64, update: RunUpdate },
    /// `PATCH /items/:id` with the status.
    UpdateItemStatus { item_id: i64, status: String },
    /// Deliver the notification (nothing is sent when it has no target).
    Notify { notification: Notification },
    /// Prompt the agent session with the message.
    SendNudge { session_name: String, message: String },
    /// Record the log row.
    Log { record: LogRecord },
    /// Forget the stale-cycle count of the run.
    ClearStaleCycle { run_id: i64 },
    /// Remember that the long-running notification of the run went out.
    MarkLongRunningNotified { run_id: i64 },
    /// `PUT /meta/paused` with the flag.
    SetDrydockPause { paused: bool },
    /// Print the line on standard output.
    Print { line: String },
    /// Stop the cycle with the error; nothing after it is done.
    Abort { error: NotifyError },
}

/// The mathematical value of an `Effect`.
pub enum EffectView {
    UpdateRun { run_id: i64, update: RunUpdateView },
    UpdateItemStatus { item_id: i64, status: Seq<char> },
    Notify { notification: NotificationView },
    SendNudge { session_name: Seq<char>, message: Seq<char> },
    Log { record: LogRecordView },
    ClearStaleCycle { run_id: i64 },
    MarkLongRunningNotified { run_id: i64 },
    SetDrydockPause { paused: bool },
    Print { line: Seq<char> },
    Abort { error: NotifyError },
}

impl View for Effect {
    type V = EffectView;

    open spec fn view(&self) -> EffectView {
        match self {
            Effect::UpdateRun { run_id, update } => EffectView::UpdateRun {
                run_id: *run_id,
                update: update@,
            },
            Effect::UpdateItemStatus { item_id, status } => EffectView::UpdateItemStatus {
                item_id: *item_id,
                status: status@,
            },
            Effect::Notify { notification } => EffectView::Notify {
                notification: notification@,
            },
            Effect::SendNudge { session_name, message } => EffectView::SendNudge {
                session_name: session_name@,
                message: message@,
            },
            Effect::Log { record } => EffectView::Log { record: record@ },
            Effect::ClearStaleCycle { run_id } => EffectView::ClearStaleCycle { run_id: *run_id },
            Effect::MarkLongRunningNotified { run_id } => EffectView::MarkLongRunningNotified {
                run_id: *run_id,
            },
            Effect::SetDrydockPause { paused } => EffectView::SetDrydockPause { paused: *paused },
            Effect::Print { line } => EffectView::Print { line: line@ },
            Effect::Abort { error } => EffectView::Abort { error: *error },
        }
    }
}

/// The views of a sequence of effects.
pub open spec fn views(effects: Seq<Effect>) -> Seq<EffectView> {
    Seq::new(effects.len(), |i: int| effects[i]@)
}

/// Whether an effect changes nothing outside: no Drydock write, no delivered notification and
/// no prompt to an agent.
pub open spec fn is_read_only(effect: EffectView) -> bool {
    match effect {
        EffectView::UpdateRun { .. } => false,
        EffectView::UpdateItemStatus { .. } => false,
        EffectView::SendNudge { .. } => false,
        EffectView::SetDrydockPause { .. } => false,
        EffectView::Notify { notification } => notification.deliver_to is None,
        _ => true,
    }
}

/// Whether a sequence of effects changes nothing outside (what a dry run may do).
pub open spec fn writes_nothing(effects: Seq<EffectView>) -> bool {
    forall|i: int| 0 <= i < effects.len() ==> is_read_only(#[trigger] effects[i])
}

/// Whether some effect prompts an agent.
pub open spec fn sends_nudge(effects: Seq<EffectView>) -> bool {
    exists|i: int| 0 <= i < effects.len() && #[trigger] effects[i] is SendNudge
}

/// Whether some effect is a notification.
pub open spec fn notifies(effects: Seq<EffectView>) -> bool {
    exists|i: int| 0 <= i < effects.len() && #[trigger] effects[i] is Notify
}

fn emit(effects: &mut Vec<Effect>, effect: Effect)
    ensures
        views(final(effects)@) == views(old(effects)@).push(effect@),
{
    effects.push(effect);
    assert(views(effects@) =~= views(old(effects)@).push(effect@));
}

/// A log row as an effect.
pub open spec fn log_view(
    level: LogLevel,
    run_id: Option<i64>,
    repo: Option<Seq<char>>,
    pr_number: Option<u64>,
    action: Seq<char>,
    message: Seq<char>,
) -> EffectView {
    EffectView::Log { record: LogRecordView { level, run_id, repo, pr_number, action, message } }
}

fn log_effect(
    level: LogLevel,
    run_id: Option<i64>,
    repo: Option<&str>,
    pr_number: Option<u64>,
    action: &str,
    message: &str,
) -> (e: Effect)
    ensures
        e@ == log_view(
            level,
            run_id,
            match repo {
                Some(r) => Some(r@),
                None => None,
            },
            pr_number,
            action@,
            message@,
        ),
{
    Effect::Log {
        record: LogRecord {
            level,
            run_id,
            repo: match repo {
                Some(r) => Some(r.to_owned()),
                None => None,
            },
            pr_number,
            action: action.to_owned(),
            message: message.to_owned(),
        },
    }
}

/// What a check cycle is configured to do.
#[derive(Debug, Clone, Copy, PartialEq, Eq, Structural)]
pub struct CyclePolicy {
    /// Nudges allowed per run before the run is escalated.
    pub max_retries: u32,
    /// Cycles a live session may go without a pull request before it is reported.
    pub stale_cycles: u32,
    /// Preview write actions without executing them.
    pub dry_run: bool,
}

/// A pull request with the running Drydock run of its branch, and its CI and review states.
#[derive(Debug, Clone)]
pub struct MatchedRun {
    pub pr: PullRequest,
    pub run: DrydockRun,
    pub ci_status: CiStatus,
    pub review_status: ReviewStatus,
}

// ---------------------------------------------------------------------------------------
// Notes
// ---------------------------------------------------------------------------------------

/// A run's notes with one more line: the line alone when the notes are missing or blank.
pub open spec fn appended_note(existing: Option<Seq<char>>, addition: Seq<char>) -> Seq<char> {
    match existing {
        Some(current) => if trimmed(current).len() != 0 {
            current + "\n"@ + addition
        } else {
            addition
        },
        None => addition,
    }
}

/// Adds a line to a run's notes.
pub fn append_note(existing: Option<&str>, addition: &str) -> (r: String)
    ensures
        r@ == appended_note(
            match existing {
                Some(e) => Some(e@),
                None => None,
            },
            addition@,
        ),
{
    match existing {
        Some(current) => {
            if !is_blank(current) {
                let mut r = current.to_owned();
                r.append("\n");
                r.append(addition);
                r
            } else {
                addition.to_owned()
            }
        },
        None => addition.to_owned(),
    }
}

/// A note never loses what it held: a non-blank note stays in front of the new line, and the
/// new line always ends it.
pub proof fn lemma_append_note_keeps_history(existing: Option<Seq<char>>, addition: Seq<char>)
    ensures
        appended_note(existing, addition).len() >= addition.len(),
        appended_note(existing, addition).subrange(
            appended_note(existing, addition).len() - addition.len(),
            appended_note(existing, addition).len() as int,
        ) == addition,
        existing matches Some(current) ==> (trimmed(current).len() != 0 ==> appended_note(
            existing,
            addition,
        ).subrange(0, current.len() as int) == current),
{
    let r = appended_note(existing, addition);
    assert(r.subrange(r.len() - addition.len(), r.len() as int) =~= addition);
    if let Some(current) = existing {
        if trimmed(current).len() != 0 {
            assert(r.subrange(0, current.len() as int) =~= current);
        }
    }
}

fn note_of(run: &DrydockRun) -> (n: Option<&str>)
    ensures
        match n {
            Some(s) => option_view(run.notes) == Some(s@),
            None => run.notes is None,
        },
{
    match &run.notes {
        Some(s) => Some(s.as_str()),
        None => None,
    }
}

// ---------------------------------------------------------------------------------------
// Drydock writes, guarded by the dry-run flag
// ---------------------------------------------------------------------------------------

/// Writing a run update: in a dry run only the log row, otherwise the update and the row.
pub open spec fn spec_run_update_effects(
    dry_run: bool,
    run: DrydockRun,
    update: RunUpdateView,
    action: Seq<char>,
    message: Seq<char>,
) -> Seq<EffectView> {
    let log = log_view(LogLevel::Info, Some(run.id), Some(run.repo@), None, action, message);
    if dry_run {
        seq![log]
    } else {
        seq![EffectView::UpdateRun { run_id: run.id, update }, log]
    }
}

fn push_run_update(
    effects: &mut Vec<Effect>,
    dry_run: bool,
    run: &DrydockRun,
    update: RunUpdate,
    action: &str,
    message: &str,
)
    ensures
        views(final(effects)@) == views(old(effects)@) + spec_run_update_effects(
            dry_run,
            *run,
            update@,
            action@,
            message@,
        ),
{
    let ghost update_view = update@;
    if !dry_run {
        emit(effects, Effect::UpdateRun { run_id: run.id, update });
    }
    emit(effects, log_effect(LogLevel::Info, Some(run.id), Some(run.repo.as_str()), None, action, message));
    proof {
        let expected = spec_run_update_effects(dry_run, *run, update_view, action@, message@);
        assert(views(effects@) =~= views(old(effects)@) + expected);
    }
}

/// Moving an item to a status: in a dry run only a log row saying what would be done.
pub open spec fn spec_item_status_effects(dry_run: bool, item_id: i64, status: Seq<char>) -> Seq<
    EffectView,
> {
    if dry_run {
        seq![
            log_view(
                LogLevel::Info,
                None,
                None,
                None,
                "notify"@,
                "would update Drydock item "@ + signed_decimal(item_id as int) + " to "@ + status,
            ),
        ]
    } else {
        seq![
            EffectView::UpdateItemStatus { item_id, status },
            log_view(
                LogLevel::Info,
                None,
                None,
                None,
                "notify"@,
                "updated Drydock item "@ + signed_decimal(item_id as int) + " to "@ + status,
            ),
        ]
    }
}

fn push_item_status(effects: &mut Vec<Effect>, dry_run: bool, item_id: i64, status: &str)
    ensures
        views(final(effects)@) == views(old(effects)@) + spec_item_status_effects(
            dry_run,
            item_id,
            status@,
        ),
{
    let mut message = String::new();
    if dry_run {
        message.append("would update Drydock item ");
    } else {
        message.append("updated Drydock item ");
        emit(effects, Effect::UpdateItemStatus { item_id, status: status.to_owned() });
    }
    push_signed_decimal(&mut message, item_id);
    message.append(" to ");
    message.append(status);
    emit(effects, log_effect(LogLevel::Info, None, None, None, "notify", message.as_str()));
    proof {
        let expected = spec_item_status_effects(dry_run, item_id, status@);
        assert(views(effects@) =~= views(old(effects)@) + expected);
    }
}

/// A notification followed by its log row, or the error that stops the cycle.
pub open spec fn spec_notice_effects(
    outcome: Result<NotificationView, NotifyError>,
    level: LogLevel,
    run_id: Option<i64>,
    repo: Option<Seq<char>>,
    pr_number: Option<u64>,
    action: Seq<char>,
) -> Seq<EffectView> {
    match outcome {
        Ok(n) => seq![
            EffectView::Notify { notification: n },
            log_view(level, run_id, repo, pr_number, action, n.message),
        ],
        Err(e) => seq![EffectView::Abort { error: e }],
    }
}

fn push_notice(
    effects: &mut Vec<Effect>,
    outcome: Result<Notification, NotifyError>,
    level: LogLevel,
    run_id: Option<i64>,
    repo: Option<&str>,
    pr_number: Option<u64>,
    action: &str,
) -> (ok: bool)
    ensures
        ok == notify_outcome_view(outcome) is Ok,
        views(final(effects)@) == views(old(effects)@) + spec_notice_effects(
            notify_outcome_view(outcome),
            level,
            run_id,
            match repo {
                Some(r) => Some(r@),
                None => None,
            },
            pr_number,
            action@,
        ),
{
    match outcome {
        Ok(notification) => {
            let log = log_effect(level, run_id, repo, pr_number, action, notification.message.as_str());
            emit(effects, Effect::Notify { notification });
            emit(effects, log);
            proof {
                let expected = spec_notice_effects(
                    notify_outcome_view(outcome),
                    level,
                    run_id,
                    match repo {
                        Some(r) => Some(r@),
                        None => None,
                    },
                    pr_number,
                    action@,
                );
                assert(views(effects@) =~= views(old(effects)@) + expected);
            }
            true
        },
        Err(error) => {
            emit(effects, Effect::Abort { error });
            proof {
                assert(views(effects@) =~= views(old(effects)@) + seq![
                    EffectView::Abort { error },
                ]);
            }
            false
        },
    }
}

// ---------------------------------------------------------------------------------------
// Matching pull requests to runs
// ---------------------------------------------------------------------------------------

/// Whether a run works on branch `branch` of repository `repo`.
pub open spec fn has_key(run: DrydockRun, repo: Seq<char>, branch: Seq<char>) -> bool {
    run.repo@ == repo && run.branch@ == branch
}

/// Whether `i` is the latest run on `repo`/`branch`: no run on that branch started later,
/// and every earlier one on it started strictly earlier (so among equally late runs the
/// first one listed counts).
pub open spec fn is_latest(runs: Seq<DrydockRun>, repo: Seq<char>, branch: Seq<char>, i: int) -> bool {
    &&& 0 <= i < runs.len()
    &&& has_key(runs[i], repo, branch)
    &&& forall|j: int|
        0 <= j < runs.len() && has_key(#[trigger] runs[j], repo, branch) ==> started_no_later(
            runs[j].started_at,
            runs[i].started_at,
        )
    &&& forall|j: int|
        0 <= j < i && has_key(#[trigger] runs[j], repo, branch) ==> !started_no_later(
            runs[i].started_at,
            runs[j].started_at,
        )
}

/// Whether some run works on `repo`/`branch`.
pub open spec fn has_run_on(runs: Seq<DrydockRun>, repo: Seq<char>, branch: Seq<char>) -> bool {
    exists|j: int| 0 <= j < runs.len() && has_key(#[trigger] runs[j], repo, branch)
}

/// A pull request and a run belong together only when both the repository and the branch
/// are the same: a run on another repository never counts, whatever its branch. The latest
/// run on a repository and branch works there, no run there started later, and every
/// earlier-listed one there started strictly earlier; there is a run there exactly when some
/// run has that repository and that branch.
pub proof fn lemma_runs_match_by_repository_and_branch(
    runs: Seq<DrydockRun>,
    repo: Seq<char>,
    branch: Seq<char>,
    i: int,
)
    ensures
        is_latest(runs, repo, branch, i) <==> {
            &&& 0 <= i < runs.len()
            &&& runs[i].repo@ == repo && runs[i].branch@ == branch
            &&& forall|j: int|
                0 <= j < runs.len() && #[trigger] runs[j].repo@ == repo && runs[j].branch@ == branch
                    ==> started_no_later(runs[j].started_at, runs[i].started_at)
            &&& forall|j: int|
                0 <= j < i && #[trigger] runs[j].repo@ == repo && runs[j].branch@ == branch
                    ==> !started_no_later(runs[i].started_at, runs[j].started_at)
        },
        has_run_on(runs, repo, branch) <==> exists|j: int|
            0 <= j < runs.len() && #[trigger] runs[j].repo@ == repo && runs[j].branch@ == branch,
        forall|j: int| 0 <= j < runs.len() && #[trigger] runs[j].repo@ != repo ==> !has_key(runs[j], repo, branch),
{
    if has_run_on(runs, repo, branch) {
        let j = choose|j: int| 0 <= j < runs.len() && has_key(#[trigger] runs[j], repo, branch);
        assert(runs[j].repo@ == repo && runs[j].branch@ == branch);
    }
    if exists|j: int| 0 <= j < runs.len() && #[trigger] runs[j].repo@ == repo && runs[j].branch@ == branch {
        let j = choose|j: int| 0 <= j < runs.len() && #[trigger] runs[j].repo@ == repo && runs[j].branch@ == branch;
        assert(has_key(runs[j], repo, branch));
    }
    if is_latest(runs, repo, branch, i) {
        assert forall|j: int|
            0 <= j < runs.len() && #[trigger] runs[j].repo@ == repo && runs[j].branch@ == branch
                implies started_no_later(runs[j].started_at, runs[i].started_at) by {
            assert(has_key(runs[j], repo, branch));
        }
        assert forall|j: int|
            0 <= j < i && #[trigger] runs[j].repo@ == repo && runs[j].branch@ == branch
                implies !started_no_later(runs[i].started_at, runs[j].started_at) by {
            assert(has_key(runs[j], repo, branch));
        }
    }
}

/// A branch has at most one latest run.
pub proof fn lemma_one_latest_run_per_key(
    runs: Seq<DrydockRun>,
    repo: Seq<char>,
    branch: Seq<char>,
    i: int,
    j: int,
)
    requires
        is_latest(runs, repo, branch, i),
        is_latest(runs, repo, branch, j),
    ensures
        i == j,
{
    assert(has_key(runs[i], repo, branch));
    assert(has_key(runs[j], repo, branch));
}

/// The key under which runs and pull requests are matched: repository and branch.
pub fn run_key(repo: &str, branch: &str) -> (k: (String, String))
    ensures
        k.0@ == repo@,
        k.1@ == branch@,
{
    (repo.to_owned(), branch.to_owned())
}

fn run_has_key(run: &DrydockRun, repo: &str, branch: &str) -> (r: bool)
    ensures
        r == has_key(*run, repo@, branch@),
{
    same_text(run.repo.as_str(), repo) && same_text(run.branch.as_str(), branch)
}

/// The latest run on `repo`/`branch`, if any run works there.
pub fn latest_run_for(runs: &Vec<DrydockRun>, repo: &str, branch: &str) -> (r: Option<usize>)
    ensures
        r is None <==> !has_run_on(runs@, repo@, branch@),
        r matches Some(i) ==> is_latest(runs@, repo@, branch@, i as int),
        r matches Some(i) ==> runs@[i as int].repo@ == repo@ && runs@[i as int].branch@ == branch@,
{
    let mut best: Option<usize> = None;
    let mut k: usize = 0;
    while k < runs.len()
        invariant
            k <= runs@.len(),
            best is None <==> (forall|j: int| 0 <= j < k ==> !has_key(#[trigger] runs@[j], repo@, branch@)),
            best matches Some(b) ==> {
                &&& b < k
                &&& has_key(runs@[b as int], repo@, branch@)
                &&& forall|j: int|
                    0 <= j < k && has_key(#[trigger] runs@[j], repo@, branch@) ==> started_no_later(
                        runs@[j].started_at,
                        runs@[b as int].started_at,
                    )
                &&& forall|j: int|
                    0 <= j < b && has_key(#[trigger] runs@[j], repo@, branch@) ==> !started_no_later(
                        runs@[b as int].started_at,
                        runs@[j].started_at,
                    )
            },
        decreases runs@.len() - k,
    {
        if run_has_key(&runs[k], repo, branch) {
            match best {
                None => {
                    best = Some(k);
                },
                Some(b) => {
                    if !started_at_no_later(runs[k].started_at, runs[b].started_at) {
                        best = Some(k);
                    }
                },
            }
        }
        k = k + 1;
    }
    proof {
        if best is None {
            assert forall|j: int| 0 <= j < runs@.len() implies !has_key(#[trigger] runs@[j], repo@, branch@) by {}
        } else {
            assert(has_key(runs@[best->0 as int], repo@, branch@));
        }
    }
    best
}

/// The latest run of each branch that some run works on, by index, in the order the runs
/// are listed.
pub fn latest_run_by_key(runs: &Vec<DrydockRun>) -> (r: Vec<usize>)
    ensures
        forall|k: int|
            0 <= k < r@.len() ==> is_latest(
                runs@,
                runs@[r@[k] as int].repo@,
                runs@[r@[k] as int].branch@,
                #[trigger] r@[k] as int,
            ),
        forall|i: int|
            0 <= i < runs@.len() && is_latest(runs@, runs@[i].repo@, runs@[i].branch@, i)
                ==> r@.contains(i as usize),
        forall|k: int, l: int| 0 <= k < l < r@.len() ==> r@[k] < r@[l],
{
    let mut r: Vec<usize> = Vec::new();
    let mut i: usize = 0;
    while i < runs.len()
        invariant
            i <= runs@.len(),
            forall|k: int|
                0 <= k < r@.len() ==> #[trigger] r@[k] < i && is_latest(
                    runs@,
                    runs@[r@[k] as int].repo@,
                    runs@[r@[k] as int].branch@,
                    r@[k] as int,
                ),
            forall|m: int|
                0 <= m < i && is_latest(runs@, runs@[m].repo@, runs@[m].branch@, m)
                    ==> r@.contains(m as usize),
            forall|k: int, l: int| 0 <= k < l < r@.len() ==> r@[k] < r@[l],
        decreases runs@.len() - i,
    {
        let ghost old_r = r@;
        let found = latest_run_for(runs, runs[i].repo.as_str(), runs[i].branch.as_str());
        if found == Some(i) {
            r.push(i);
        }
        proof {
            let key_repo = runs@[i as int].repo@;
            let key_branch = runs@[i as int].branch@;
            if is_latest(runs@, key_repo, key_branch, i as int) {
                assert(has_key(runs@[i as int], key_repo, key_branch));
                let f = found->0;
                lemma_one_latest_run_per_key(runs@, key_repo, key_branch, i as int, f as int);
                assert(r@[r@.len() - 1] == i);
            }
            assert forall|m: int|
                0 <= m < i + 1 && is_latest(runs@, runs@[m].repo@, runs@[m].branch@, m) implies r@.contains(m as usize) by {
                if m < i {
                    assert(old_r.contains(m as usize));
                    let w = choose|w: int| 0 <= w < old_r.len() && old_r[w] == m as usize;
                    assert(r@[w] == m as usize);
                }
            }
        }
        i = i + 1;
    }
    r
}

/// The keys of the open pull requests.
pub fn open_pr_keys(prs: &Vec<PullRequest>) -> (keys: Vec<(String, String)>)
    ensures
        keys@.len() == prs@.len(),
        forall|i: int|
            0 <= i < prs@.len() ==> (#[trigger] keys@[i]).0@ == prs@[i].repo@ && keys@[i].1@
                == prs@[i].head_ref_name@,
{
    let mut keys: Vec<(String, String)> = Vec::new();
    let mut i: usize = 0;
    while i < prs.len()
        invariant
            i <= prs@.len(),
            keys@.len() == i,
            forall|k: int|
                0 <= k < i ==> (#[trigger] keys@[k]).0@ == prs@[k].repo@ && keys@[k].1@
                    == prs@[k].head_ref_name@,
        decreases prs@.len() - i,
    {
        keys.push(run_key(prs[i].repo.as_str(), prs[i].head_ref_name.as_str()));
        i = i + 1;
    }
    keys
}

/// Whether `repo`/`branch` is among the keys.
pub open spec fn key_listed(keys: Seq<(String, String)>, repo: Seq<char>, branch: Seq<char>) -> bool {
    exists|i: int| 0 <= i < keys.len() && (#[trigger] keys[i]).0@ == repo && keys[i].1@ == branch
}

fn contains_key(keys: &Vec<(String, String)>, repo: &str, branch: &str) -> (r: bool)
    ensures
        r == key_listed(keys@, repo@, branch@),
{
    let mut i: usize = 0;
    while i < keys.len()
        invariant
            i <= keys@.len(),
            forall|k: int| 0 <= k < i ==> !((#[trigger] keys@[k]).0@ == repo@ && keys@[k].1@ == branch@),
        decreases keys@.len() - i,
    {
        if same_text(keys[i].0.as_str(), repo) && same_text(keys[i].1.as_str(), branch) {
            return true;
        }
        i = i + 1;
    }
    false
}

fn contains_id(ids: &Vec<i64>, id: i64) -> (r: bool)
    ensures
        r == ids@.contains(id),
{
    let mut i: usize = 0;
    while i < ids.len()
        invariant
            i <= ids@.len(),
            forall|k: int| 0 <= k < i ==> ids@[k] != id,
        decreases ids@.len() - i,
    {
        if ids[i] == id {
            assert(ids@[i as int] == id);
            return true;
        }
        i = i + 1;
    }
    false
}

/// What a cycle does on finding an open pull request: the run it is matched to, if any.
pub struct PullRequestPlan {
    pub matched: Option<usize>,
    pub effects: Vec<Effect>,
}

/// For a pull request matched to run `matched`, the run's stale-cycle count is forgotten; an
/// unmatched pull request is logged as an orphan.
pub open spec fn spec_pull_request_effects(
    runs: Seq<DrydockRun>,
    pr: PullRequest,
    matched: Option<usize>,
) -> Seq<EffectView> {
    match matched {
        Some(i) => seq![EffectView::ClearStaleCycle { run_id: runs[i as int].id }],
        None => seq![
            log_view(
                LogLevel::Info,
                None,
                Some(pr.repo@),
                Some(pr.number),
                "skip"@,
                "orphan PR detected; no matching Drydock run"@,
            ),
        ],
    }
}

/// Matches an open pull request to the latest running run of its branch.
pub fn plan_pull_request(runs: &Vec<DrydockRun>, pr: &PullRequest) -> (p: PullRequestPlan)
    ensures
        p.matched is None <==> !has_run_on(runs@, pr.repo@, pr.head_ref_name@),
        p.matched matches Some(i) ==> is_latest(runs@, pr.repo@, pr.head_ref_name@, i as int),
        p.matched matches Some(i) ==> runs@[i as int].repo@ == pr.repo@ && runs@[i as int].branch@
            == pr.head_ref_name@,
        views(p.effects@) == spec_pull_request_effects(runs@, *pr, p.matched),
        writes_nothing(views(p.effects@)),
{
    let matched = latest_run_for(runs, pr.repo.as_str(), pr.head_ref_name.as_str());
    let mut effects: Vec<Effect> = Vec::new();
    match matched {
        Some(i) => {
            emit(&mut effects, Effect::ClearStaleCycle { run_id: runs[i].id });
        },
        None => {
            emit(
                &mut effects,
                log_effect(
                    LogLevel::Info,
                    None,
                    Some(pr.repo.as_str()),
                    Some(pr.number),
                    "skip",
                    "orphan PR detected; no matching Drydock run",
                ),
            );
        },
    }
    assert(views(effects@) =~= spec_pull_request_effects(runs@, *pr, matched));
    assert(is_read_only(views(effects@)[0]));
    PullRequestPlan { matched, effects }
}

// ---------------------------------------------------------------------------------------
// Ordering the matched pull requests
// ---------------------------------------------------------------------------------------

/// The key by which a matched pull request is ordered.
pub open spec fn entry_key(now: LocalDateTime, entry: MatchedRun) -> (int, int, int) {
    candidate_key(now, entry.run, entry.pr)
}

/// Whether no matched pull request comes before an earlier-listed one.
pub open spec fn sorted_by_key(now: LocalDateTime, s: Seq<MatchedRun>) -> bool {
    forall|i: int, j: int| 0 <= i < j < s.len() ==> !key_less(entry_key(now, s[j]), entry_key(now, s[i]))
}

/// The key of an entry, with the start time as itself rather than negated.
fn entry_sort_key(now: LocalDateTime, entry: &MatchedRun) -> (k: (u8, u8, i64))
    ensures
        k.0 as int == entry_key(now, *entry).0,
        k.1 as int == entry_key(now, *entry).1,
        -(k.2 as int) == entry_key(now, *entry).2,
{
    (
        crate::decision::org_priority(now, &entry.pr),
        entry.run.item_priority.rank(),
        crate::decision::run_start_secs(&entry.run),
    )
}

fn sort_key_less(a: (u8, u8, i64), b: (u8, u8, i64)) -> (r: bool)
    ensures
        r == key_less((a.0 as int, a.1 as int, -(a.2 as int)), (b.0 as int, b.1 as int, -(b.2 as int))),
{
    a.0 < b.0 || (a.0 == b.0 && (a.1 < b.1 || (a.1 == b.1 && a.2 > b.2)))
}

/// Whether `s` is ordered by key, entries with equal keys in the order of their positions
/// `origin` in the input.
pub open spec fn stably_ordered(now: LocalDateTime, s: Seq<MatchedRun>, origin: Seq<int>) -> bool {
    forall|i: int, j: int|
        0 <= i < j < s.len() ==> key_less(entry_key(now, #[trigger] s[i]), entry_key(now, #[trigger] s[j]))
            || (entry_key(now, s[i]) == entry_key(now, s[j]) && origin[i] < origin[j])
}

/// Whether `s` is `input` stably sorted by key: entry `k` of `s` is entry `origin[k]` of
/// `input`, every input entry is used once, and equal keys keep their input order.
pub open spec fn is_stable_sort_of(
    now: LocalDateTime,
    input: Seq<MatchedRun>,
    s: Seq<MatchedRun>,
    origin: Seq<int>,
) -> bool {
    &&& s.len() == input.len()
    &&& origin.len() == s.len()
    &&& forall|k: int| 0 <= k < s.len() ==> 0 <= #[trigger] origin[k] < input.len() && s[k] == input[origin[k]]
    &&& forall|k: int, l: int| 0 <= k < l < s.len() ==> #[trigger] origin[k] != #[trigger] origin[l]
    &&& stably_ordered(now, s, origin)
}

/// Orders the matched pull requests for handling, as a stable sort by `sort_candidates`
/// does: the result holds the same entries, none placed after one that it comes before,
/// and entries that compare equal keep their order.
pub fn sort_matched(now: LocalDateTime, entries: Vec<MatchedRun>) -> (r: Vec<MatchedRun>)
    ensures
        r@.to_multiset() == entries@.to_multiset(),
        sorted_by_key(now, r@),
        exists|origin: Seq<int>| is_stable_sort_of(now, entries@, r@, origin),
{
    broadcast use vstd::seq_lib::group_to_multiset_ensures;
    broadcast use vstd::multiset::group_multiset_axioms;

    let ghost input = entries@;
    let ghost mut origin: Seq<int> = Seq::empty();
    let mut rest = entries;
    let mut result: Vec<MatchedRun> = Vec::new();
    let mut keys: Vec<(u8, u8, i64)> = Vec::new();
    while rest.len() > 0
        invariant
            result@.to_multiset().add(rest@.to_multiset()) == input.to_multiset(),
            keys@.len() == result@.len(),
            forall|q: int|
                0 <= q < keys@.len() ==> (#[trigger] keys@[q]).0 as int == entry_key(now, result@[q]).0
                    && keys@[q].1 as int == entry_key(now, result@[q]).1 && -(keys@[q].2 as int)
                    == entry_key(now, result@[q]).2,
            result@.len() + rest@.len() == input.len(),
            rest@ == input.subrange(result@.len() as int, input.len() as int),
            origin.len() == result@.len(),
            forall|k: int|
                0 <= k < result@.len() ==> 0 <= #[trigger] origin[k] < result@.len() && result@[k]
                    == input[origin[k]],
            forall|k: int, l: int| 0 <= k < l < result@.len() ==> #[trigger] origin[k] != #[trigger] origin[l],
            stably_ordered(now, result@, origin),
        decreases rest@.len(),
    {
        let ghost old_result = result@;
        let ghost old_rest = rest@;
        let ghost old_origin = origin;
        let ghost m = result@.len() as int;
        let x = rest.remove(0);
        let kx = entry_sort_key(now, &x);
        let mut p = result.len();
        while p > 0 && sort_key_less(kx, keys[p - 1])
            invariant
                p <= result@.len(),
                keys@.len() == result@.len(),
                result@ == old_result,
                kx.0 as int == entry_key(now, x).0,
                kx.1 as int == entry_key(now, x).1,
                -(kx.2 as int) == entry_key(now, x).2,
                forall|q: int|
                    0 <= q < keys@.len() ==> (#[trigger] keys@[q]).0 as int == entry_key(now, result@[q]).0
                        && keys@[q].1 as int == entry_key(now, result@[q]).1 && -(keys@[q].2 as int)
                        == entry_key(now, result@[q]).2,
                forall|q: int| p <= q < result@.len() ==> key_less(entry_key(now, x), #[trigger] entry_key(now, result@[q])),
            decreases p,
        {
            proof {
                assert(key_less(entry_key(now, x), entry_key(now, result@[p - 1])));
            }
            p = p - 1;
        }
        proof {
            if p > 0 {
                assert(!key_less(entry_key(now, x), entry_key(now, result@[p - 1])));
            }
        }
        result.insert(p, x);
        keys.insert(p, kx);
        proof {
            origin = old_origin.insert(p as int, m);
            vstd::seq_lib::to_multiset_remove(old_rest, 0);
            vstd::seq_lib::to_multiset_insert(old_result, p as int, x);
            assert(rest@ == old_rest.remove(0));
            assert(result@ == old_result.insert(p as int, x));
            assert(old_rest[0] == x);
            assert(x == input[m]);
            assert(old_rest.contains(x));
            vstd::seq_lib::to_multiset_contains(old_rest, x);
            assert(old_rest.to_multiset().contains(x));
            assert(result@.to_multiset().add(rest@.to_multiset()) =~= input.to_multiset());
            assert(rest@ =~= input.subrange(result@.len() as int, input.len() as int));
            assert forall|k: int| 0 <= k < result@.len() implies 0 <= #[trigger] origin[k] < result@.len()
                && result@[k] == input[origin[k]] by {
                if k < p {
                    assert(origin[k] == old_origin[k]);
                } else if k > p {
                    assert(origin[k] == old_origin[k - 1]);
                }
            }
            assert forall|k: int, l: int| 0 <= k < l < result@.len() implies #[trigger] origin[k] != #[trigger] origin[l] by {
                if k < p && l < p {
                } else if k < p && l == p {
                    assert(old_origin[k] < m);
                } else if k < p {
                    assert(origin[l] == old_origin[l - 1]);
                } else if k == p {
                    assert(origin[l] == old_origin[l - 1]);
                    assert(old_origin[l - 1] < m);
                } else {
                    assert(origin[k] == old_origin[k - 1]);
                    assert(origin[l] == old_origin[l - 1]);
                }
            }
            assert forall|i: int, j: int| 0 <= i < j < result@.len() implies key_less(
                entry_key(now, #[trigger] result@[i]),
                entry_key(now, #[trigger] result@[j]),
            ) || (entry_key(now, result@[i]) == entry_key(now, result@[j]) && origin[i] < origin[j]) by {
                if j < p {
                    assert(result@[i] == old_result[i]);
                    assert(result@[j] == old_result[j]);
                    assert(origin[i] == old_origin[i]);
                    assert(origin[j] == old_origin[j]);
                } else if j == p {
                    assert(result@[i] == old_result[i]);
                    assert(origin[i] == old_origin[i]);
                    assert(old_origin[i] < m);
                    assert(!key_less(entry_key(now, x), entry_key(now, old_result[p - 1])));
                    if i < p - 1 {
                        assert(key_less(entry_key(now, old_result[i]), entry_key(now, old_result[p - 1]))
                            || entry_key(now, old_result[i]) == entry_key(now, old_result[p - 1]));
                    }
                } else if i < p {
                    assert(result@[i] == old_result[i]);
                    assert(result@[j] == old_result[j - 1]);
                    assert(origin[i] == old_origin[i]);
                    assert(origin[j] == old_origin[j - 1]);
                } else if i == p {
                    assert(result@[j] == old_result[j - 1]);
                } else {
                    assert(result@[i] == old_result[i - 1]);
                    assert(result@[j] == old_result[j - 1]);
                    assert(origin[i] == old_origin[i - 1]);
                    assert(origin[j] == old_origin[j - 1]);
                }
            }
        }
    }
    assert(rest@.to_multiset() =~= vstd::multiset::Multiset::empty());
    assert(result@.to_multiset() =~= result@.to_multiset().add(rest@.to_multiset()));
    assert(is_stable_sort_of(now, input, result@, origin));
    result
}

// ---------------------------------------------------------------------------------------
// Handling a matched pull request
// ---------------------------------------------------------------------------------------

/// The update that records a matched pull request's CI state, review state and URL.
pub open spec fn sync_update_view(entry: MatchedRun) -> RunUpdateView {
    RunUpdateView {
        ci_status: Some(entry.ci_status.name()),
        review_status: Some(entry.review_status.name()),
        retry_count: None,
        pr_url: Some(entry.pr.url@),
        notes: None,
        status: None,
    }
}

/// The metadata update, with the run moved to `evaluating`.
pub open spec fn evaluating_update_view(entry: MatchedRun) -> RunUpdateView {
    RunUpdateView {
        ci_status: Some(entry.ci_status.name()),
        review_status: Some(entry.review_status.name()),
        retry_count: None,
        pr_url: Some(entry.pr.url@),
        notes: None,
        status: Some("evaluating"@),
    }
}

/// An update of the notes alone.
pub open spec fn notes_update_view(notes: Seq<char>) -> RunUpdateView {
    RunUpdateView {
        ci_status: None,
        review_status: None,
        retry_count: None,
        pr_url: None,
        notes: Some(notes),
        status: None,
    }
}

/// An update that marks a run failed, with its notes.
pub open spec fn failed_update_view(notes: Seq<char>) -> RunUpdateView {
    RunUpdateView {
        ci_status: None,
        review_status: None,
        retry_count: None,
        pr_url: None,
        notes: Some(notes),
        status: Some("failed"@),
    }
}

/// An update that counts one more nudge, with its notes.
pub open spec fn retry_update_view(retry_count: u32, notes: Seq<char>) -> RunUpdateView {
    RunUpdateView {
        ci_status: None,
        review_status: None,
        retry_count: Some(retry_count),
        pr_url: None,
        notes: Some(notes),
        status: None,
    }
}

/// A log row about a matched pull request.
pub open spec fn pr_log(entry: MatchedRun, level: LogLevel, action: Seq<char>, message: Seq<char>) -> EffectView {
    log_view(level, Some(entry.run.id), Some(entry.pr.repo@), Some(entry.pr.number), action, message)
}

/// The decision for a matched pull request.
pub open spec fn entry_decision(entry: MatchedRun) -> DecisionView {
    spec_decide(entry.pr.number, entry.ci_status, entry.review_status)
}

/// Marking a run failed because its agent session cannot be reached: the failure goes into
/// the notes, the run is marked failed, and the session-unavailable notification goes out.
pub open spec fn spec_session_failure_effects(
    pr: PullRequest,
    run: DrydockRun,
    detail: Seq<char>,
    policy: CyclePolicy,
    notifier: Notifier,
) -> Seq<EffectView> {
    let notes = appended_note(option_view(run.notes), "Unable to nudge agent: "@ + detail + "."@);
    spec_run_update_effects(
        policy.dry_run,
        run,
        failed_update_view(notes),
        "escalate"@,
        "marked run failed because the agent session is unavailable"@,
    ) + spec_notice_effects(
        notifier.spec_send(session_unavailable_message(pr), policy.dry_run),
        LogLevel::Error,
        Some(run.id),
        Some(pr.repo@),
        Some(pr.number),
        "escalate"@,
    )
}

/// Notifying that a pull request is ready for review, then moving its item and run to
/// evaluating.
pub open spec fn spec_ready_effects(entry: MatchedRun, policy: CyclePolicy, notifier: Notifier) -> Seq<EffectView> {
    let d = entry_decision(entry);
    match notifier.spec_send(ready_for_review_message(entry.pr), policy.dry_run) {
        Err(e) => seq![EffectView::Abort { error: e }],
        Ok(n) => seq![
            EffectView::Notify { notification: n },
            pr_log(entry, LogLevel::Info, "notify"@, n.message),
        ] + (if d.update_item_to_evaluating {
            match entry.run.item_id {
                Some(id) => spec_item_status_effects(policy.dry_run, id, "evaluating"@),
                None => seq![
                    pr_log(
                        entry,
                        LogLevel::Warn,
                        "notify"@,
                        "run has no item_id; cannot move item to evaluating"@,
                    ),
                ],
            }
        } else {
            Seq::empty()
        }) + (if d.update_run_to_evaluating {
            spec_run_update_effects(
                policy.dry_run,
                entry.run,
                evaluating_update_view(entry),
                "notify"@,
                "marked run evaluating"@,
            )
        } else {
            Seq::empty()
        }),
    }
}

/// The note left when a run has used up its nudges.
pub open spec fn retry_limit_note(retry_count: u32, summary: Seq<char>) -> Seq<char> {
    "Retry limit reached after "@ + decimal(retry_count as nat) + " attempts ("@ + summary + ")."@
}

/// The first part of handling a failure: a run that has used up its nudges is escalated; a
/// run without a session is marked failed; otherwise its session is inspected next.
pub open spec fn spec_nudge_start_effects(entry: MatchedRun, policy: CyclePolicy, notifier: Notifier) -> Seq<EffectView> {
    let d = entry_decision(entry);
    let run = entry.run;
    if run.retry_count >= policy.max_retries {
        spec_run_update_effects(
            policy.dry_run,
            run,
            notes_update_view(appended_note(option_view(run.notes), retry_limit_note(run.retry_count, d.summary))),
            "escalate"@,
            "retry limit reached"@,
        ) + spec_notice_effects(
            notifier.spec_send(
                retry_limit_message(entry.pr, run.retry_count, d.failure_kind->0),
                policy.dry_run,
            ),
            LogLevel::Warn,
            Some(run.id),
            Some(entry.pr.repo@),
            Some(entry.pr.number),
            "escalate"@,
        )
    } else {
        match run.session_id {
            None => spec_session_failure_effects(entry.pr, run, "run is missing session_id"@, policy, notifier),
            Some(_) => Seq::empty(),
        }
    }
}

/// What a cycle does about a matched pull request before any session is inspected: the run's
/// metadata is synchronised, then the decision is carried out.
pub open spec fn spec_matched_effects(entry: MatchedRun, policy: CyclePolicy, notifier: Notifier) -> Seq<EffectView> {
    let d = entry_decision(entry);
    let sync = spec_run_update_effects(
        policy.dry_run,
        entry.run,
        sync_update_view(entry),
        "check"@,
        "synchronized run metadata"@,
    );
    if d.action == ActionKind::Skip {
        sync.push(pr_log(entry, LogLevel::Info, "skip"@, d.summary))
    } else if d.action == ActionKind::Notify {
        sync + spec_ready_effects(entry, policy, notifier)
    } else {
        sync + spec_nudge_start_effects(entry, policy, notifier)
    }
}

/// The session to inspect next: that of a run to be nudged that has nudges left.
pub open spec fn spec_matched_probe(entry: MatchedRun, policy: CyclePolicy) -> Option<Seq<char>> {
    if entry_decision(entry).action == ActionKind::Nudge && entry.run.retry_count < policy.max_retries {
        option_view(entry.run.session_id)
    } else {
        None
    }
}

/// What a cycle does about a matched pull request, up to the inspection of its agent
/// session, if one is needed.
pub struct MatchedPlan {
    pub effects: Vec<Effect>,
    /// The session to inspect before the nudge is planned.
    pub probe_session: Option<String>,
}

fn push_session_failure(
    effects: &mut Vec<Effect>,
    pr: &PullRequest,
    run: &DrydockRun,
    detail: &str,
    policy: CyclePolicy,
    notifier: &Notifier,
)
    ensures
        views(final(effects)@) == views(old(effects)@) + spec_session_failure_effects(
            *pr,
            *run,
            detail@,
            policy,
            *notifier,
        ),
{
    let mut addition = "Unable to nudge agent: ".to_owned();
    addition.append(detail);
    addition.append(".");
    let notes = append_note(note_of(run), addition.as_str());
    let update = RunUpdate {
        ci_status: None,
        review_status: None,
        retry_count: None,
        pr_url: None,
        notes: Some(notes),
        status: Some("failed".to_owned()),
    };
    push_run_update(
        effects,
        policy.dry_run,
        run,
        update,
        "escalate",
        "marked run failed because the agent session is unavailable",
    );
    let outcome = notifier.session_unavailable(pr, policy.dry_run);
    push_notice(
        effects,
        outcome,
        LogLevel::Error,
        Some(run.id),
        Some(pr.repo.as_str()),
        Some(pr.number),
        "escalate",
    );
    proof {
        let expected = spec_session_failure_effects(*pr, *run, detail@, policy, *notifier);
        assert(views(effects@) =~= views(old(effects)@) + expected);
    }
}

fn sync_update(entry: &MatchedRun) -> (u: RunUpdate)
    ensures
        u@ == sync_update_view(*entry),
{
    RunUpdate {
        ci_status: Some(entry.ci_status.as_str().to_owned()),
        review_status: Some(entry.review_status.as_str().to_owned()),
        retry_count: None,
        pr_url: Some(entry.pr.url.clone()),
        notes: None,
        status: None,
    }
}

fn push_ready(effects: &mut Vec<Effect>, entry: &MatchedRun, decision_item: bool, decision_run: bool, policy: CyclePolicy, notifier: &Notifier)
    requires
        decision_item == entry_decision(*entry).update_item_to_evaluating,
        decision_run == entry_decision(*entry).update_run_to_evaluating,
    ensures
        views(final(effects)@) == views(old(effects)@) + spec_ready_effects(*entry, policy, *notifier),
{
    let outcome = notifier.ready_for_review(&entry.pr, policy.dry_run);
    let ok = push_notice(
        effects,
        outcome,
        LogLevel::Info,
        Some(entry.run.id),
        Some(entry.pr.repo.as_str()),
        Some(entry.pr.number),
        "notify",
    );
    if !ok {
        return;
    }
    if decision_item {
        match entry.run.item_id {
            Some(item_id) => push_item_status(effects, policy.dry_run, item_id, "evaluating"),
            None => emit(
                effects,
                log_effect(
                    LogLevel::Warn,
                    Some(entry.run.id),
                    Some(entry.pr.repo.as_str()),
                    Some(entry.pr.number),
                    "notify",
                    "run has no item_id; cannot move item to evaluating",
                ),
            ),
        }
    }
    if decision_run {
        let mut update = sync_update(entry);
        update.status = Some("evaluating".to_owned());
        push_run_update(effects, policy.dry_run, &entry.run, update, "notify", "marked run evaluating");
    }
    proof {
        let expected = spec_ready_effects(*entry, policy, *notifier);
        assert(views(effects@) =~= views(old(effects)@) + expected);
    }
}

fn push_nudge_start(effects: &mut Vec<Effect>, entry: &MatchedRun, summary: &str, failure: FailureKind, policy: CyclePolicy, notifier: &Notifier)
    requires
        entry_decision(*entry).action == ActionKind::Nudge,
        summary@ == entry_decision(*entry).summary,
        Some(failure) == entry_decision(*entry).failure_kind,
    ensures
        views(final(effects)@) == views(old(effects)@) + spec_nudge_start_effects(*entry, policy, *notifier),
{
    let run = &entry.run;
    if run.retry_count >= policy.max_retries {
        let mut addition = "Retry limit reached after ".to_owned();
        push_decimal(&mut addition, run.retry_count as u64);
        addition.append(" attempts (");
        addition.append(summary);
        addition.append(").");
        let notes = append_note(note_of(run), addition.as_str());
        let update = RunUpdate {
            ci_status: None,
            review_status: None,
            retry_count: None,
            pr_url: None,
            notes: Some(notes),
            status: None,
        };
        push_run_update(effects, policy.dry_run, run, update, "escalate", "retry limit reached");
        let outcome = notifier.retry_limit_reached(&entry.pr, run.retry_count, failure, policy.dry_run);
        push_notice(
            effects,
            outcome,
            LogLevel::Warn,
            Some(run.id),
            Some(entry.pr.repo.as_str()),
            Some(entry.pr.number),
            "escalate",
        );
        proof {
            let expected = spec_nudge_start_effects(*entry, policy, *notifier);
            assert(views(effects@) =~= views(old(effects)@) + expected);
        }
    } else {
        match &run.session_id {
            None => {
                push_session_failure(effects, &entry.pr, run, "run is missing session_id", policy, notifier);
            },
            Some(_) => {
                assert(views(effects@) =~= views(old(effects)@) + Seq::empty());
            },
        }
    }
}

/// Plans what a cycle does about a matched pull request: the run's CI state, review state
/// and URL are written back, then the decision is carried out, up to the inspection of the
/// agent session of a run that is to be nudged.
pub fn plan_matched(entry: &MatchedRun, policy: CyclePolicy, notifier: &Notifier) -> (p: MatchedPlan)
    ensures
        views(p.effects@) == spec_matched_effects(*entry, policy, *notifier),
        option_view(p.probe_session) == spec_matched_probe(*entry, policy),
        policy.dry_run ==> writes_nothing(views(p.effects@)),
{
    let decision = decide(&entry.pr, entry.ci_status, entry.review_status);
    let mut effects: Vec<Effect> = Vec::new();
    push_run_update(
        &mut effects,
        policy.dry_run,
        &entry.run,
        sync_update(entry),
        "check",
        "synchronized run metadata",
    );
    let mut probe_session: Option<String> = None;
    match decision.action {
        ActionKind::Skip => {
            emit(
                &mut effects,
                log_effect(
                    LogLevel::Info,
                    Some(entry.run.id),
                    Some(entry.pr.repo.as_str()),
                    Some(entry.pr.number),
                    "skip",
                    decision.summary,
                ),
            );
        },
        ActionKind::Notify => {
            push_ready(
                &mut effects,
                entry,
                decision.update_item_to_evaluating,
                decision.update_run_to_evaluating,
                policy,
                notifier,
            );
        },
        ActionKind::Nudge => {
            let failure = match decision.failure_kind {
                Some(f) => f,
                None => FailureKind::Ci,
            };
            push_nudge_start(&mut effects, entry, decision.summary, failure, policy, notifier);
            if entry.run.retry_count < policy.max_retries {
                match &entry.run.session_id {
                    Some(s) => {
                        probe_session = Some(s.clone());
                    },
                    None => {},
                }
            }
        },
    }
    proof {
        let expected = spec_matched_effects(*entry, policy, *notifier);
        assert(views(effects@) =~= expected);
        if policy.dry_run {
            lemma_dry_run_matched_writes_nothing(*entry, Err(Seq::empty()), policy, *notifier);
        }
    }
    MatchedPlan { effects, probe_session }
}

// ---------------------------------------------------------------------------------------
// Nudging after the session is inspected
// ---------------------------------------------------------------------------------------

/// The mathematical value of what inspecting a session gave: its state, or why it could not
/// be read.
pub open spec fn probe_view(probe: Result<SessionState, String>) -> Result<SessionStateView, Seq<char>> {
    match probe {
        Ok(state) => Ok(state@),
        Err(reason) => Err(reason@),
    }
}

/// The note left when a nudge is sent.
pub open spec fn nudge_note(attempt: nat, summary: Seq<char>) -> Seq<char> {
    "Sent nudge #"@ + decimal(attempt) + " for "@ + summary + "."@
}

/// What a cycle does once the session of a run to be nudged is inspected: a live session is
/// prompted, the run's retry count goes up by one and the nudge goes into its notes; a
/// closed or unreadable session marks the run failed.
pub open spec fn spec_nudge_effects(
    entry: MatchedRun,
    probe: Result<SessionStateView, Seq<char>>,
    policy: CyclePolicy,
    notifier: Notifier,
) -> Seq<EffectView> {
    let d = entry_decision(entry);
    let run = entry.run;
    match probe {
        Ok(SessionStateView::Alive { session_name }) => {
            let next = run.retry_count + 1;
            let notes = appended_note(option_view(run.notes), nudge_note(next as nat, d.summary));
            (if policy.dry_run {
                Seq::empty()
            } else {
                seq![EffectView::SendNudge { session_name, message: d.nudge_message->0 }]
            }) + spec_run_update_effects(
                policy.dry_run,
                run,
                retry_update_view(next as u32, notes),
                "nudge"@,
                "nudged coding agent"@,
            ) + seq![pr_log(entry, LogLevel::Info, "nudge"@, d.summary)]
        },
        Ok(SessionStateView::Closed) => spec_session_failure_effects(
            entry.pr,
            run,
            "agent session is closed"@,
            policy,
            notifier,
        ),
        Err(reason) => spec_session_failure_effects(
            entry.pr,
            run,
            "failed to inspect session: "@ + reason,
            policy,
            notifier,
        ),
    }
}

/// Whether a matched pull request is one whose session is inspected before a nudge: its
/// decision is a nudge and its run has nudges left.
pub fn nudge_allowed(entry: &MatchedRun, policy: CyclePolicy) -> (r: bool)
    ensures
        r == (entry_decision(*entry).action == ActionKind::Nudge && entry.run.retry_count
            < policy.max_retries),
{
    let decision = decide(&entry.pr, entry.ci_status, entry.review_status);
    decision.action == ActionKind::Nudge && entry.run.retry_count < policy.max_retries
}

/// Plans the nudge of a run whose agent session was inspected.
pub fn plan_nudge(
    entry: &MatchedRun,
    probe: &Result<SessionState, String>,
    policy: CyclePolicy,
    notifier: &Notifier,
) -> (effects: Vec<Effect>)
    requires
        entry_decision(*entry).action == ActionKind::Nudge,
        entry.run.retry_count < policy.max_retries,
    ensures
        views(effects@) == spec_nudge_effects(*entry, probe_view(*probe), policy, *notifier),
        policy.dry_run ==> writes_nothing(views(effects@)),
{
    let decision = decide(&entry.pr, entry.ci_status, entry.review_status);
    let mut effects: Vec<Effect> = Vec::new();
    let run = &entry.run;
    match probe {
        Ok(SessionState::Alive { session_name }) => {
            let message = match &decision.nudge_message {
                Some(m) => m.clone(),
                None => String::new(),
            };
            if !policy.dry_run {
                emit(&mut effects, Effect::SendNudge { session_name: session_name.clone(), message });
            }
            let next = run.retry_count + 1;
            let mut addition = "Sent nudge #".to_owned();
            push_decimal(&mut addition, next as u64);
            addition.append(" for ");
            addition.append(decision.summary);
            addition.append(".");
            let notes = append_note(note_of(run), addition.as_str());
            let update = RunUpdate {
                ci_status: None,
                review_status: None,
                retry_count: Some(next),
                pr_url: None,
                notes: Some(notes),
                status: None,
            };
            push_run_update(&mut effects, policy.dry_run, run, update, "nudge", "nudged coding agent");
            emit(
                &mut effects,
                log_effect(
                    LogLevel::Info,
                    Some(run.id),
                    Some(entry.pr.repo.as_str()),
                    Some(entry.pr.number),
                    "nudge",
                    decision.summary,
                ),
            );
        },
        Ok(SessionState::Closed) => {
            push_session_failure(&mut effects, &entry.pr, run, "agent session is closed", policy, notifier);
        },
        Err(reason) => {
            let mut detail = "failed to inspect session: ".to_owned();
            detail.append(reason.as_str());
            push_session_failure(&mut effects, &entry.pr, run, detail.as_str(), policy, notifier);
        },
    }
    proof {
        let expected = spec_nudge_effects(*entry, probe_view(*probe), policy, *notifier);
        assert(views(effects@) =~= expected);
        if policy.dry_run {
            lemma_dry_run_matched_writes_nothing(*entry, probe_view(*probe), policy, *notifier);
        }
    }
    effects
}

// ---------------------------------------------------------------------------------------
// Running runs without an open pull request
// ---------------------------------------------------------------------------------------

/// A log row about a run without an open pull request.
pub open spec fn run_log(run: DrydockRun, level: LogLevel, action: Seq<char>, message: Seq<char>) -> EffectView {
    log_view(level, Some(run.id), Some(run.repo@), None, action, message)
}

/// Whether a running run has an open pull request: it was matched to one, or its branch has
/// one.
pub open spec fn has_open_pr(run: DrydockRun, open_keys: Seq<(String, String)>, matched_ids: Seq<i64>) -> bool {
    matched_ids.contains(run.id) || key_listed(open_keys, run.repo@, run.branch@)
}

/// What a cycle does first about a running run: one with an open pull request has its
/// stale-cycle count forgotten; one without a session is logged; for the others the session
/// is inspected next.
pub open spec fn spec_stale_effects(run: DrydockRun, open_keys: Seq<(String, String)>, matched_ids: Seq<i64>) -> Seq<EffectView> {
    if has_open_pr(run, open_keys, matched_ids) {
        seq![EffectView::ClearStaleCycle { run_id: run.id }]
    } else if run.session_id is None {
        seq![
            run_log(
                run,
                LogLevel::Warn,
                "check"@,
                "running run has no session_id; cannot determine staleness"@,
            ),
        ]
    } else {
        Seq::empty()
    }
}

/// The session to inspect for a running run without an open pull request.
pub open spec fn spec_stale_probe(run: DrydockRun, open_keys: Seq<(String, String)>, matched_ids: Seq<i64>) -> Option<Seq<char>> {
    if has_open_pr(run, open_keys, matched_ids) {
        None
    } else {
        option_view(run.session_id)
    }
}

/// What a cycle does first about a running run, up to the inspection of its session.
pub struct StalePlan {
    pub effects: Vec<Effect>,
    pub probe_session: Option<String>,
}

/// Plans what a cycle does about a running run, given the keys of the open pull requests
/// and the ids of the runs matched to them.
pub fn plan_stale_run(run: &DrydockRun, open_keys: &Vec<(String, String)>, matched_ids: &Vec<i64>) -> (p: StalePlan)
    ensures
        views(p.effects@) == spec_stale_effects(*run, open_keys@, matched_ids@),
        option_view(p.probe_session) == spec_stale_probe(*run, open_keys@, matched_ids@),
        writes_nothing(views(p.effects@)),
{
    let mut effects: Vec<Effect> = Vec::new();
    let mut probe_session: Option<String> = None;
    if contains_id(matched_ids, run.id) || contains_key(open_keys, run.repo.as_str(), run.branch.as_str()) {
        emit(&mut effects, Effect::ClearStaleCycle { run_id: run.id });
    } else {
        match &run.session_id {
            None => {
                emit(
                    &mut effects,
                    log_effect(
                        LogLevel::Warn,
                        Some(run.id),
                        Some(run.repo.as_str()),
                        None,
                        "check",
                        "running run has no session_id; cannot determine staleness",
                    ),
                );
            },
            Some(s) => {
                probe_session = Some(s.clone());
            },
        }
    }
    proof {
        assert(views(effects@) =~= spec_stale_effects(*run, open_keys@, matched_ids@));
        if views(effects@).len() > 0 {
            assert(is_read_only(views(effects@)[0]));
        }
    }
    StalePlan { effects, probe_session }
}

/// What a cycle does once the session of a run without an open pull request is inspected:
/// a closed session marks the run failed and reports it stale; an unreadable session is
/// logged; a live one is counted (see `spec_stale_tracker_effects`).
pub open spec fn spec_stale_probe_effects(
    run: DrydockRun,
    session_id: Seq<char>,
    probe: Result<SessionStateView, Seq<char>>,
    policy: CyclePolicy,
    notifier: Notifier,
) -> Seq<EffectView> {
    match probe {
        Ok(SessionStateView::Closed) => {
            let notes = appended_note(option_view(run.notes), "Session closed and no open PR found."@);
            let head = spec_run_update_effects(
                policy.dry_run,
                run,
                failed_update_view(notes),
                "escalate"@,
                "marked stale run failed"@,
            );
            match notifier.spec_send(stale_run_message(run), policy.dry_run) {
                Err(e) => head.push(EffectView::Abort { error: e }),
                Ok(n) => head + seq![
                    EffectView::Notify { notification: n },
                    run_log(run, LogLevel::Warn, "escalate"@, n.message),
                    EffectView::ClearStaleCycle { run_id: run.id },
                ],
            }
        },
        Ok(SessionStateView::Alive { .. }) => Seq::empty(),
        Err(reason) => seq![
            run_log(
                run,
                LogLevel::Warn,
                "check"@,
                "failed to inspect session "@ + session_id + ": "@ + reason,
            ),
        ],
    }
}

/// What a cycle does about a stale run once its session is inspected; `bump_stale_cycle`
/// says that the session is alive and one more stale cycle is to be counted.
pub struct StaleProbePlan {
    pub effects: Vec<Effect>,
    pub bump_stale_cycle: bool,
}

/// Plans what a cycle does about a run without an open pull request once session
/// `session_id` is inspected.
pub fn plan_stale_probe(
    run: &DrydockRun,
    session_id: &str,
    probe: &Result<SessionState, String>,
    policy: CyclePolicy,
    notifier: &Notifier,
) -> (p: StaleProbePlan)
    ensures
        views(p.effects@) == spec_stale_probe_effects(*run, session_id@, probe_view(*probe), policy, *notifier),
        p.bump_stale_cycle == (probe_view(*probe) matches Ok(SessionStateView::Alive { .. })),
        policy.dry_run ==> writes_nothing(views(p.effects@)),
        !policy.dry_run && probe_view(*probe) == Ok::<SessionStateView, Seq<char>>(SessionStateView::Closed)
            ==> p.effects@.len() > 0 && (p.effects@[0] matches Effect::UpdateRun { run_id, update }
            && run_id == run.id && option_view(update.status) == Some("failed"@)),
{
    let mut effects: Vec<Effect> = Vec::new();
    let mut bump = false;
    match probe {
        Ok(SessionState::Closed) => {
            let notes = append_note(note_of(run), "Session closed and no open PR found.");
            let update = RunUpdate {
                ci_status: None,
                review_status: None,
                retry_count: None,
                pr_url: None,
                notes: Some(notes),
                status: Some("failed".to_owned()),
            };
            push_run_update(&mut effects, policy.dry_run, run, update, "escalate", "marked stale run failed");
            let outcome = notifier.stale_run(run, policy.dry_run);
            let ok = push_notice(&mut effects, outcome, LogLevel::Warn, Some(run.id), Some(run.repo.as_str()), None, "escalate");
            if ok {
                emit(&mut effects, Effect::ClearStaleCycle { run_id: run.id });
            }
        },
        Ok(SessionState::Alive { .. }) => {
            bump = true;
        },
        Err(reason) => {
            let mut message = "failed to inspect session ".to_owned();
            message.append(session_id);
            message.append(": ");
            message.append(reason.as_str());
            emit(&mut effects, log_effect(LogLevel::Warn, Some(run.id), Some(run.repo.as_str()), None, "check", message.as_str()));
        },
    }
    proof {
        assert(views(effects@) =~= spec_stale_probe_effects(*run, session_id@, probe_view(*probe), policy, *notifier));
        if !policy.dry_run && probe_view(*probe) == Ok::<SessionStateView, Seq<char>>(SessionStateView::Closed) {
            lemma_closed_session_marks_stale_run_failed(*run, session_id@, policy, *notifier);
            assert(views(effects@)[0] == effects@[0]@);
        }
        if policy.dry_run {
            lemma_dry_run_stale_writes_nothing(
                *run,
                Seq::empty(),
                Seq::empty(),
                session_id@,
                probe_view(*probe),
                StaleTracker { cycles: 0, notified: false },
                policy,
                *notifier,
            );
        }
    }
    StaleProbePlan { effects, bump_stale_cycle: bump }
}

/// A run without an open pull request whose session has closed is marked failed: outside a
/// dry run the first thing done is an update of that run that sets its status to "failed"
/// and adds the closing note to its notes, changing nothing else of it; then it is logged.
pub proof fn lemma_closed_session_marks_stale_run_failed(
    run: DrydockRun,
    session_id: Seq<char>,
    policy: CyclePolicy,
    notifier: Notifier,
)
    requires
        !policy.dry_run,
    ensures
        ({
            let e = spec_stale_probe_effects(run, session_id, Ok(SessionStateView::Closed), policy, notifier);
            &&& e.len() >= 2
            &&& e[0] matches EffectView::UpdateRun { run_id, update } && run_id == run.id
                && update.status == Some("failed"@)
                && update.notes == Some(appended_note(option_view(run.notes), "Session closed and no open PR found."@))
                && update.ci_status is None && update.review_status is None
                && update.retry_count is None && update.pr_url is None
            &&& e[1] == log_view(LogLevel::Info, Some(run.id), Some(run.repo@), None, "escalate"@, "marked stale run failed"@)
            &&& notifier.spec_send(stale_run_message(run), false) is Ok ==> e.len() == 5
                && e[2] == EffectView::Notify { notification: notifier.spec_send(stale_run_message(run), false)->Ok_0 }
                && e[4] == EffectView::ClearStaleCycle { run_id: run.id }
            &&& notifier.spec_send(stale_run_message(run), false) is Err ==> e.len() == 3 && e[2] is Abort
        }),
{
}

/// Whether a live run without a pull request is due for the long-running notification: it
/// has been seen for enough cycles and was not reported before.
pub open spec fn long_running_due(tracker: StaleTracker, policy: CyclePolicy) -> bool {
    tracker.cycles >= policy.stale_cycles && !tracker.notified
}

/// What a cycle does about a live run without a pull request, once its stale cycle is
/// counted: it is logged, and reported long-running once it is due.
pub open spec fn spec_stale_tracker_effects(
    run: DrydockRun,
    tracker: StaleTracker,
    policy: CyclePolicy,
    notifier: Notifier,
) -> Seq<EffectView> {
    let head = seq![
        run_log(
            run,
            LogLevel::Warn,
            "check"@,
            "running run has no open PR but session is still active"@,
        ),
    ];
    if long_running_due(tracker, policy) {
        match notifier.spec_send(long_running_message(run), policy.dry_run) {
            Err(e) => head.push(EffectView::Abort { error: e }),
            Ok(n) => head + seq![
                EffectView::Notify { notification: n },
                run_log(run, LogLevel::Info, "notify"@, n.message),
                EffectView::MarkLongRunningNotified { run_id: run.id },
            ],
        }
    } else {
        head
    }
}

/// Plans what a cycle does about a live run without a pull request, given its counted
/// stale cycles.
pub fn plan_stale_tracker(run: &DrydockRun, tracker: StaleTracker, policy: CyclePolicy, notifier: &Notifier) -> (effects: Vec<Effect>)
    ensures
        views(effects@) == spec_stale_tracker_effects(*run, tracker, policy, *notifier),
        policy.dry_run ==> writes_nothing(views(effects@)),
{
    let mut effects: Vec<Effect> = Vec::new();
    emit(
        &mut effects,
        log_effect(
            LogLevel::Warn,
            Some(run.id),
            Some(run.repo.as_str()),
            None,
            "check",
            "running run has no open PR but session is still active",
        ),
    );
    if tracker.cycles >= policy.stale_cycles && !tracker.notified {
        let outcome = notifier.long_running(run, policy.dry_run);
        let ok = push_notice(&mut effects, outcome, LogLevel::Info, Some(run.id), Some(run.repo.as_str()), None, "notify");
        if ok {
            emit(&mut effects, Effect::MarkLongRunningNotified { run_id: run.id });
        }
    }
    proof {
        assert(views(effects@) =~= spec_stale_tracker_effects(*run, tracker, policy, *notifier));
        if policy.dry_run {
            lemma_dry_run_stale_writes_nothing(
                *run,
                Seq::empty(),
                Seq::empty(),
                Seq::empty(),
                Err(Seq::empty()),
                tracker,
                policy,
                *notifier,
            );
        }
    }
    effects
}

// ---------------------------------------------------------------------------------------
// Pausing
// ---------------------------------------------------------------------------------------

/// Why a cycle is skipped: the local pause file takes precedence over Drydock's pause flag.
pub open spec fn spec_pause_gate(local_paused: bool, drydock_paused: bool) -> Option<EffectView> {
    if local_paused {
        Some(log_view(LogLevel::Info, None, None, None, "check"@, "local pause is enabled; skipping cycle"@))
    } else if drydock_paused {
        Some(
            log_view(
                LogLevel::Info,
                None,
                None,
                None,
                "check"@,
                "Drydock pause flag is enabled; skipping cycle"@,
            ),
        )
    } else {
        None
    }
}

/// The log row of a skipped cycle, or none when the cycle runs. Drydock's flag is only read
/// when there is no local pause, so `drydock_paused` counts only then.
pub fn pause_gate(local_paused: bool, drydock_paused: bool) -> (r: Option<Effect>)
    ensures
        match r {
            Some(e) => spec_pause_gate(local_paused, drydock_paused) == Some(e@),
            None => spec_pause_gate(local_paused, drydock_paused) is None,
        },
{
    if local_paused {
        Some(log_effect(LogLevel::Info, None, None, None, "check", "local pause is enabled; skipping cycle"))
    } else if drydock_paused {
        Some(log_effect(LogLevel::Info, None, None, None, "check", "Drydock pause flag is enabled; skipping cycle"))
    } else {
        None
    }
}

/// What `pause` and `unpause` do: set Drydock's global pause flag (in a dry run, only say
/// that it would be set), then log it.
pub open spec fn spec_set_pause_effects(paused: bool, dry_run: bool) -> Seq<EffectView> {
    let flag = if paused { "true"@ } else { "false"@ };
    let log = log_view(
        LogLevel::Info,
        None,
        None,
        None,
        "check"@,
        if paused { "local pause enabled"@ } else { "local pause disabled"@ },
    );
    if dry_run {
        seq![EffectView::Print { line: "dry-run: would set the Drydock pause flag to "@ + flag }, log]
    } else {
        seq![EffectView::SetDrydockPause { paused }, log]
    }
}

/// Plans `pause` (`paused` true) or `unpause` (`paused` false).
pub fn plan_set_pause(paused: bool, dry_run: bool) -> (effects: Vec<Effect>)
    ensures
        views(effects@) == spec_set_pause_effects(paused, dry_run),
        dry_run ==> writes_nothing(views(effects@)),
{
    let mut effects: Vec<Effect> = Vec::new();
    if dry_run {
        let mut line = "dry-run: would set the Drydock pause flag to ".to_owned();
        line.append(if paused { "true" } else { "false" });
        emit(&mut effects, Effect::Print { line });
    } else {
        emit(&mut effects, Effect::SetDrydockPause { paused });
    }
    let message = if paused { "local pause enabled" } else { "local pause disabled" };
    emit(&mut effects, log_effect(LogLevel::Info, None, None, None, "check", message));
    proof {
        assert(views(effects@) =~= spec_set_pause_effects(paused, dry_run));
        assert(is_read_only(views(effects@)[1]));
        if dry_run {
            assert(is_read_only(views(effects@)[0]));
        }
    }
    effects
}

// ---------------------------------------------------------------------------------------
// Laws
// ---------------------------------------------------------------------------------------

proof fn lemma_writes_nothing_concat(a: Seq<EffectView>, b: Seq<EffectView>)
    requires
        writes_nothing(a),
        writes_nothing(b),
    ensures
        writes_nothing(a + b),
{
    assert forall|i: int| 0 <= i < (a + b).len() implies is_read_only(#[trigger] (a + b)[i]) by {
        if i < a.len() {
            assert((a + b)[i] == a[i]);
        } else {
            assert((a + b)[i] == b[i - a.len()]);
        }
    }
}

proof fn lemma_dry_notice_writes_nothing(
    notifier: Notifier,
    message: Seq<char>,
    level: LogLevel,
    run_id: Option<i64>,
    repo: Option<Seq<char>>,
    pr_number: Option<u64>,
    action: Seq<char>,
)
    ensures
        writes_nothing(
            spec_notice_effects(notifier.spec_send(message, true), level, run_id, repo, pr_number, action),
        ),
{
    let s = spec_notice_effects(notifier.spec_send(message, true), level, run_id, repo, pr_number, action);
    assert(is_read_only(s[0]));
    assert(is_read_only(s[1]));
}

proof fn lemma_dry_session_failure_writes_nothing(
    pr: PullRequest,
    run: DrydockRun,
    detail: Seq<char>,
    policy: CyclePolicy,
    notifier: Notifier,
)
    requires
        policy.dry_run,
    ensures
        writes_nothing(spec_session_failure_effects(pr, run, detail, policy, notifier)),
{
    let notes = appended_note(option_view(run.notes), "Unable to nudge agent: "@ + detail + "."@);
    let a = spec_run_update_effects(
        policy.dry_run,
        run,
        failed_update_view(notes),
        "escalate"@,
        "marked run failed because the agent session is unavailable"@,
    );
    assert(is_read_only(a[0]));
    lemma_dry_notice_writes_nothing(
        notifier,
        session_unavailable_message(pr),
        LogLevel::Error,
        Some(run.id),
        Some(pr.repo@),
        Some(pr.number),
        "escalate"@,
    );
    lemma_writes_nothing_concat(
        a,
        spec_notice_effects(
            notifier.spec_send(session_unavailable_message(pr), policy.dry_run),
            LogLevel::Error,
            Some(run.id),
            Some(pr.repo@),
            Some(pr.number),
            "escalate"@,
        ),
    );
}

/// A dry run changes nothing outside while it handles a matched pull request: it writes
/// nothing to Drydock, delivers no notification and prompts no agent.
pub proof fn lemma_dry_run_matched_writes_nothing(
    entry: MatchedRun,
    probe: Result<SessionStateView, Seq<char>>,
    policy: CyclePolicy,
    notifier: Notifier,
)
    requires
        policy.dry_run,
    ensures
        writes_nothing(spec_matched_effects(entry, policy, notifier)),
        writes_nothing(spec_nudge_effects(entry, probe, policy, notifier)),
{
    let d = entry_decision(entry);
    let run = entry.run;
    let sync = spec_run_update_effects(
        policy.dry_run,
        run,
        sync_update_view(entry),
        "check"@,
        "synchronized run metadata"@,
    );
    assert(is_read_only(sync[0]));
    if d.action == ActionKind::Skip {
        let all = sync.push(pr_log(entry, LogLevel::Info, "skip"@, d.summary));
        assert(is_read_only(all[0]));
        assert(is_read_only(all[1]));
    } else if d.action == ActionKind::Notify {
        let ready = spec_ready_effects(entry, policy, notifier);
        let n = NotificationView { message: ready_for_review_message(entry.pr), deliver_to: None };
        let head = seq![
            EffectView::Notify { notification: n },
            pr_log(entry, LogLevel::Info, "notify"@, n.message),
        ];
        assert(is_read_only(head[0]));
        assert(is_read_only(head[1]));
        let item = if d.update_item_to_evaluating {
            match run.item_id {
                Some(id) => spec_item_status_effects(policy.dry_run, id, "evaluating"@),
                None => seq![
                    pr_log(
                        entry,
                        LogLevel::Warn,
                        "notify"@,
                        "run has no item_id; cannot move item to evaluating"@,
                    ),
                ],
            }
        } else {
            Seq::empty()
        };
        assert(writes_nothing(item)) by {
            if item.len() > 0 {
                assert(is_read_only(item[0]));
            }
        }
        let tail = if d.update_run_to_evaluating {
            spec_run_update_effects(
                policy.dry_run,
                run,
                evaluating_update_view(entry),
                "notify"@,
                "marked run evaluating"@,
            )
        } else {
            Seq::empty()
        };
        assert(writes_nothing(tail)) by {
            if tail.len() > 0 {
                assert(is_read_only(tail[0]));
            }
        }
        lemma_writes_nothing_concat(head, item);
        lemma_writes_nothing_concat(head + item, tail);
        assert(ready == head + item + tail);
        lemma_writes_nothing_concat(sync, ready);
    } else {
        let start = spec_nudge_start_effects(entry, policy, notifier);
        if run.retry_count >= policy.max_retries {
            let a = spec_run_update_effects(
                policy.dry_run,
                run,
                notes_update_view(appended_note(option_view(run.notes), retry_limit_note(run.retry_count, d.summary))),
                "escalate"@,
                "retry limit reached"@,
            );
            assert(is_read_only(a[0]));
            lemma_dry_notice_writes_nothing(
                notifier,
                retry_limit_message(entry.pr, run.retry_count, d.failure_kind->0),
                LogLevel::Warn,
                Some(run.id),
                Some(entry.pr.repo@),
                Some(entry.pr.number),
                "escalate"@,
            );
            lemma_writes_nothing_concat(
                a,
                spec_notice_effects(
                    notifier.spec_send(
                        retry_limit_message(entry.pr, run.retry_count, d.failure_kind->0),
                        policy.dry_run,
                    ),
                    LogLevel::Warn,
                    Some(run.id),
                    Some(entry.pr.repo@),
                    Some(entry.pr.number),
                    "escalate"@,
                ),
            );
        } else if run.session_id is None {
            lemma_dry_session_failure_writes_nothing(entry.pr, run, "run is missing session_id"@, policy, notifier);
        }
        lemma_writes_nothing_concat(sync, start);
    }
    match probe {
        Ok(SessionStateView::Alive { session_name }) => {
            let next = run.retry_count + 1;
            let notes = appended_note(option_view(run.notes), nudge_note(next as nat, d.summary));
            let u = spec_run_update_effects(
                policy.dry_run,
                run,
                retry_update_view(next as u32, notes),
                "nudge"@,
                "nudged coding agent"@,
            );
            let last = seq![pr_log(entry, LogLevel::Info, "nudge"@, d.summary)];
            assert(is_read_only(u[0]));
            assert(is_read_only(last[0]));
            lemma_writes_nothing_concat(Seq::empty(), u);
            lemma_writes_nothing_concat(Seq::<EffectView>::empty() + u, last);
            assert(spec_nudge_effects(entry, probe, policy, notifier) == Seq::<EffectView>::empty() + u + last);
        },
        Ok(SessionStateView::Closed) => {
            lemma_dry_session_failure_writes_nothing(entry.pr, run, "agent session is closed"@, policy, notifier);
        },
        Err(reason) => {
            lemma_dry_session_failure_writes_nothing(
                entry.pr,
                run,
                "failed to inspect session: "@ + reason,
                policy,
                notifier,
            );
        },
    }
}

/// A dry run changes nothing outside while it handles a running run without an open pull
/// request.
pub proof fn lemma_dry_run_stale_writes_nothing(
    run: DrydockRun,
    open_keys: Seq<(String, String)>,
    matched_ids: Seq<i64>,
    session_id: Seq<char>,
    probe: Result<SessionStateView, Seq<char>>,
    tracker: StaleTracker,
    policy: CyclePolicy,
    notifier: Notifier,
)
    requires
        policy.dry_run,
    ensures
        writes_nothing(spec_stale_effects(run, open_keys, matched_ids)),
        writes_nothing(spec_stale_probe_effects(run, session_id, probe, policy, notifier)),
        writes_nothing(spec_stale_tracker_effects(run, tracker, policy, notifier)),
{
    let a = spec_stale_effects(run, open_keys, matched_ids);
    if a.len() > 0 {
        assert(is_read_only(a[0]));
    }
    let b = spec_stale_probe_effects(run, session_id, probe, policy, notifier);
    if b.len() > 0 {
        assert(is_read_only(b[0]));
    }
    if b.len() > 1 {
        assert(is_read_only(b[1]));
        assert(is_read_only(b[2]));
        assert(is_read_only(b[3]));
    }
    let c = spec_stale_tracker_effects(run, tracker, policy, notifier);
    assert(is_read_only(c[0]));
    if c.len() > 1 {
        assert(is_read_only(c[1]));
        assert(is_read_only(c[2]));
        assert(is_read_only(c[3]));
    }
}

/// No run is nudged once it has used up its nudges: its session is not inspected and the
/// plan prompts no agent; it is escalated instead.
pub proof fn lemma_no_nudge_past_retry_limit(entry: MatchedRun, policy: CyclePolicy, notifier: Notifier)
    requires
        entry_decision(entry).action == ActionKind::Nudge,
        entry.run.retry_count >= policy.max_retries,
    ensures
        spec_matched_probe(entry, policy) is None,
        !sends_nudge(spec_matched_effects(entry, policy, notifier)),
{
    let e = spec_matched_effects(entry, policy, notifier);
    assert forall|i: int| 0 <= i < e.len() implies !(#[trigger] e[i] is SendNudge) by {
        let d = entry_decision(entry);
        let run = entry.run;
        let sync = spec_run_update_effects(
            policy.dry_run,
            run,
            sync_update_view(entry),
            "check"@,
            "synchronized run metadata"@,
        );
        let a = spec_run_update_effects(
            policy.dry_run,
            run,
            notes_update_view(appended_note(option_view(run.notes), retry_limit_note(run.retry_count, d.summary))),
            "escalate"@,
            "retry limit reached"@,
        );
        let b = spec_notice_effects(
            notifier.spec_send(
                retry_limit_message(entry.pr, run.retry_count, d.failure_kind->0),
                policy.dry_run,
            ),
            LogLevel::Warn,
            Some(run.id),
            Some(entry.pr.repo@),
            Some(entry.pr.number),
            "escalate"@,
        );
        assert(e == sync + (a + b));
        if i < sync.len() {
        } else if i < sync.len() + a.len() {
            assert(e[i] == a[i - sync.len()]);
        } else {
            assert(e[i] == b[i - sync.len() - a.len()]);
        }
    }
}

/// A nudge to a live session prompts it with the decision's message and counts exactly one
/// more retry.
pub proof fn lemma_nudge_counts_one_retry(
    entry: MatchedRun,
    session_name: Seq<char>,
    policy: CyclePolicy,
    notifier: Notifier,
)
    requires
        entry_decision(entry).action == ActionKind::Nudge,
        entry.run.retry_count < policy.max_retries,
        !policy.dry_run,
    ensures
        ({
            let e = spec_nudge_effects(
                entry,
                Ok(SessionStateView::Alive { session_name }),
                policy,
                notifier,
            );
            &&& e[0] == EffectView::SendNudge {
                session_name,
                message: entry_decision(entry).nudge_message->0,
            }
            &&& e[1] matches EffectView::UpdateRun { run_id, update } && run_id == entry.run.id
                && update.retry_count == Some((entry.run.retry_count + 1) as u32)
        }),
{
}

/// A running run with an open pull request is never treated as stale: only its stale-cycle
/// count is forgotten, and its session is not inspected.
pub proof fn lemma_run_with_open_pr_is_not_stale(
    run: DrydockRun,
    open_keys: Seq<(String, String)>,
    matched_ids: Seq<i64>,
)
    requires
        has_open_pr(run, open_keys, matched_ids),
    ensures
        spec_stale_effects(run, open_keys, matched_ids) == seq![
            EffectView::ClearStaleCycle { run_id: run.id },
        ],
        spec_stale_probe(run, open_keys, matched_ids) is None,
{
}

/// The long-running notification of a run goes out at most once, and only after the run has
/// been seen without a pull request for the configured number of cycles.
pub proof fn lemma_long_running_reported_once(
    run: DrydockRun,
    tracker: StaleTracker,
    policy: CyclePolicy,
    notifier: Notifier,
)
    requires
        tracker.notified || tracker.cycles < policy.stale_cycles,
    ensures
        !notifies(spec_stale_tracker_effects(run, tracker, policy, notifier)),
{
    let e = spec_stale_tracker_effects(run, tracker, policy, notifier);
    assert(e.len() == 1);
    assert(!(e[0] is Notify));
}

/// Whether a plan records that the long-running notification went out.
pub open spec fn marks_notified(effects: Seq<EffectView>) -> bool {
    exists|i: int| 0 <= i < effects.len() && #[trigger] effects[i] is MarkLongRunningNotified
}

/// Whether a plan writes a run update.
pub open spec fn updates_run(effects: Seq<EffectView>) -> bool {
    exists|i: int| 0 <= i < effects.len() && #[trigger] effects[i] is UpdateRun
}

/// The tracker of a live run without a pull request in its `j`-th stale cycle (counting
/// from 1) since its count was last forgotten, when every cycle's plan is carried out: the
/// first cycle starts at one (`StaleTracker::after_bump(None)`), and each later one counts
/// one more and remembers whether the previous cycle's plan marked the notification sent
/// (`StaleTracker::after_bump` of the stored row).
pub open spec fn tracker_in_cycle(run: DrydockRun, j: nat, policy: CyclePolicy, notifier: Notifier) -> StaleTracker
    decreases j,
{
    if j <= 1 {
        StaleTracker { cycles: 1, notified: false }
    } else {
        let prev = tracker_in_cycle(run, (j - 1) as nat, policy, notifier);
        StaleTracker {
            cycles: (prev.cycles + 1) as u32,
            notified: prev.notified || marks_notified(spec_stale_tracker_effects(run, prev, policy, notifier)),
        }
    }
}

/// The cycle in which the long-running notification of a run goes out: the configured
/// number of stale cycles, and at least the first.
pub open spec fn long_running_cycle(policy: CyclePolicy) -> nat {
    if policy.stale_cycles < 1 {
        1
    } else {
        policy.stale_cycles as nat
    }
}

proof fn lemma_stale_tracker_effects_shape(
    run: DrydockRun,
    tracker: StaleTracker,
    policy: CyclePolicy,
    notifier: Notifier,
)
    requires
        notifier.spec_send(long_running_message(run), policy.dry_run) is Ok,
    ensures
        notifies(spec_stale_tracker_effects(run, tracker, policy, notifier)) <==> long_running_due(tracker, policy),
        marks_notified(spec_stale_tracker_effects(run, tracker, policy, notifier)) <==> long_running_due(tracker, policy),
        !updates_run(spec_stale_tracker_effects(run, tracker, policy, notifier)),
{
    let e = spec_stale_tracker_effects(run, tracker, policy, notifier);
    if long_running_due(tracker, policy) {
        assert(e.len() == 4);
        assert(e[1] is Notify);
        assert(e[3] is MarkLongRunningNotified);
        assert forall|i: int| 0 <= i < e.len() implies !(#[trigger] e[i] is UpdateRun) by {
            assert(i == 0 || i == 1 || i == 2 || i == 3);
        }
    } else {
        assert(e.len() == 1);
        assert(!(e[0] is Notify));
        assert(!(e[0] is MarkLongRunningNotified));
        assert(!(e[0] is UpdateRun));
    }
}

/// Over successive cycles in which a run stays live without a pull request, its stale count
/// in cycle `j` is `j`; the long-running notification goes out exactly once, in cycle
/// `long_running_cycle`, and is remembered from then on; and no cycle writes to the run.
/// (This assumes the notification can be handed out: a dry run, or a configured target.)
pub proof fn lemma_long_running_series(run: DrydockRun, j: nat, policy: CyclePolicy, notifier: Notifier)
    requires
        1 <= j <= u32::MAX,
        notifier.spec_send(long_running_message(run), policy.dry_run) is Ok,
    ensures
        tracker_in_cycle(run, j, policy, notifier).cycles == j,
        tracker_in_cycle(run, j, policy, notifier).notified <==> j > long_running_cycle(policy),
        notifies(spec_stale_tracker_effects(run, tracker_in_cycle(run, j, policy, notifier), policy, notifier))
            <==> j == long_running_cycle(policy),
        !updates_run(spec_stale_tracker_effects(run, tracker_in_cycle(run, j, policy, notifier), policy, notifier)),
    decreases j,
{
    let t = tracker_in_cycle(run, j, policy, notifier);
    if j > 1 {
        lemma_long_running_series(run, (j - 1) as nat, policy, notifier);
        let prev = tracker_in_cycle(run, (j - 1) as nat, policy, notifier);
        lemma_stale_tracker_effects_shape(run, prev, policy, notifier);
    }
    lemma_stale_tracker_effects_shape(run, t, policy, notifier);
}

// ---------------------------------------------------------------------------------------
// Retries over successive cycles
// ---------------------------------------------------------------------------------------

/// Whether an effect writes a run's retry count.
pub open spec fn writes_retry(effect: EffectView) -> bool {
    match effect {
        EffectView::UpdateRun { update, .. } => update.retry_count is Some,
        _ => false,
    }
}

/// The retry count an effect writes (meaningful where it writes one).
pub open spec fn retry_written_by(effect: EffectView) -> u32 {
    match effect {
        EffectView::UpdateRun { update, .. } => update.retry_count->0,
        _ => 0,
    }
}

/// The retry count that Drydock holds after the effects are carried out, starting from
/// `before`: the last retry count written, or `before` when none is.
pub open spec fn written_retry(effects: Seq<EffectView>, before: u32) -> u32
    decreases effects.len(),
{
    if effects.len() == 0 {
        before
    } else {
        let earlier = written_retry(effects.drop_last(), before);
        if writes_retry(effects.last()) {
            retry_written_by(effects.last())
        } else {
            earlier
        }
    }
}

/// Whether effects neither prompt an agent nor write a retry count.
pub open spec fn quiet(effects: Seq<EffectView>) -> bool {
    forall|i: int|
        0 <= i < effects.len() ==> !(#[trigger] effects[i] is SendNudge) && !writes_retry(effects[i])
}

/// Everything a cycle does about a matched pull request: its plan and, where the plan
/// inspects the session, the nudge plan for what the inspection gave.
pub open spec fn matched_cycle_effects(
    entry: MatchedRun,
    probe: Result<SessionStateView, Seq<char>>,
    policy: CyclePolicy,
    notifier: Notifier,
) -> Seq<EffectView> {
    spec_matched_effects(entry, policy, notifier) + if spec_matched_probe(entry, policy) is Some {
        spec_nudge_effects(entry, probe, policy, notifier)
    } else {
        Seq::empty()
    }
}

proof fn lemma_written_retry_concat(a: Seq<EffectView>, b: Seq<EffectView>, before: u32)
    ensures
        written_retry(a + b, before) == written_retry(b, written_retry(a, before)),
    decreases b.len(),
{
    if b.len() == 0 {
        assert(a + b =~= a);
    } else {
        lemma_written_retry_concat(a, b.drop_last(), before);
        assert((a + b).drop_last() =~= a + b.drop_last());
        assert((a + b).last() == b.last());
    }
}

proof fn lemma_written_retry_quiet(s: Seq<EffectView>, before: u32)
    requires
        quiet(s),
    ensures
        written_retry(s, before) == before,
    decreases s.len(),
{
    if s.len() > 0 {
        assert(!writes_retry(s[s.len() - 1]));
        assert(quiet(s.drop_last())) by {
            assert forall|i: int| 0 <= i < s.drop_last().len() implies !(#[trigger] s.drop_last()[i] is SendNudge)
                && !writes_retry(s.drop_last()[i]) by {
                assert(s.drop_last()[i] == s[i]);
            }
        }
        lemma_written_retry_quiet(s.drop_last(), before);
    }
}

proof fn lemma_quiet_concat(a: Seq<EffectView>, b: Seq<EffectView>)
    requires
        quiet(a),
        quiet(b),
    ensures
        quiet(a + b),
{
    assert forall|i: int| 0 <= i < (a + b).len() implies !(#[trigger] (a + b)[i] is SendNudge) && !writes_retry(
        (a + b)[i],
    ) by {
        if i < a.len() {
            assert((a + b)[i] == a[i]);
        } else {
            assert((a + b)[i] == b[i - a.len()]);
        }
    }
}

proof fn lemma_quiet_small(s: Seq<EffectView>)
    requires
        s.len() <= 4,
        s.len() > 0 ==> !(s[0] is SendNudge) && !writes_retry(s[0]),
        s.len() > 1 ==> !(s[1] is SendNudge) && !writes_retry(s[1]),
        s.len() > 2 ==> !(s[2] is SendNudge) && !writes_retry(s[2]),
        s.len() > 3 ==> !(s[3] is SendNudge) && !writes_retry(s[3]),
    ensures
        quiet(s),
{
    assert forall|i: int| 0 <= i < s.len() implies !(#[trigger] s[i] is SendNudge) && !writes_retry(s[i]) by {
        assert(i == 0 || i == 1 || i == 2 || i == 3);
    }
}

proof fn lemma_quiet_run_update(dry_run: bool, run: DrydockRun, update: RunUpdateView, action: Seq<char>, message: Seq<char>)
    requires
        update.retry_count is None,
    ensures
        quiet(spec_run_update_effects(dry_run, run, update, action, message)),
{
    lemma_quiet_small(spec_run_update_effects(dry_run, run, update, action, message));
}

proof fn lemma_quiet_notice(
    outcome: Result<NotificationView, NotifyError>,
    level: LogLevel,
    run_id: Option<i64>,
    repo: Option<Seq<char>>,
    pr_number: Option<u64>,
    action: Seq<char>,
)
    ensures
        quiet(spec_notice_effects(outcome, level, run_id, repo, pr_number, action)),
{
    lemma_quiet_small(spec_notice_effects(outcome, level, run_id, repo, pr_number, action));
}

proof fn lemma_quiet_session_failure(pr: PullRequest, run: DrydockRun, detail: Seq<char>, policy: CyclePolicy, notifier: Notifier)
    ensures
        quiet(spec_session_failure_effects(pr, run, detail, policy, notifier)),
{
    let notes = appended_note(option_view(run.notes), "Unable to nudge agent: "@ + detail + "."@);
    lemma_quiet_run_update(
        policy.dry_run,
        run,
        failed_update_view(notes),
        "escalate"@,
        "marked run failed because the agent session is unavailable"@,
    );
    lemma_quiet_notice(
        notifier.spec_send(session_unavailable_message(pr), policy.dry_run),
        LogLevel::Error,
        Some(run.id),
        Some(pr.repo@),
        Some(pr.number),
        "escalate"@,
    );
    lemma_quiet_concat(
        spec_run_update_effects(
            policy.dry_run,
            run,
            failed_update_view(notes),
            "escalate"@,
            "marked run failed because the agent session is unavailable"@,
        ),
        spec_notice_effects(
            notifier.spec_send(session_unavailable_message(pr), policy.dry_run),
            LogLevel::Error,
            Some(run.id),
            Some(pr.repo@),
            Some(pr.number),
            "escalate"@,
        ),
    );
}

proof fn lemma_quiet_matched(entry: MatchedRun, policy: CyclePolicy, notifier: Notifier)
    ensures
        quiet(spec_matched_effects(entry, policy, notifier)),
{
    let d = entry_decision(entry);
    let run = entry.run;
    let sync = spec_run_update_effects(policy.dry_run, run, sync_update_view(entry), "check"@, "synchronized run metadata"@);
    lemma_quiet_run_update(policy.dry_run, run, sync_update_view(entry), "check"@, "synchronized run metadata"@);
    if d.action == ActionKind::Skip {
        let last = seq![pr_log(entry, LogLevel::Info, "skip"@, d.summary)];
        lemma_quiet_small(last);
        lemma_quiet_concat(sync, last);
        assert(sync.push(pr_log(entry, LogLevel::Info, "skip"@, d.summary)) == sync + last);
    } else if d.action == ActionKind::Notify {
        let ready = spec_ready_effects(entry, policy, notifier);
        match notifier.spec_send(ready_for_review_message(entry.pr), policy.dry_run) {
            Err(e) => {
                lemma_quiet_small(ready);
            },
            Ok(n) => {
                let head = seq![
                    EffectView::Notify { notification: n },
                    pr_log(entry, LogLevel::Info, "notify"@, n.message),
                ];
                lemma_quiet_small(head);
                let item = if d.update_item_to_evaluating {
                    match run.item_id {
                        Some(id) => spec_item_status_effects(policy.dry_run, id, "evaluating"@),
                        None => seq![
                            pr_log(
                                entry,
                                LogLevel::Warn,
                                "notify"@,
                                "run has no item_id; cannot move item to evaluating"@,
                            ),
                        ],
                    }
                } else {
                    Seq::empty()
                };
                lemma_quiet_small(item);
                let tail = if d.update_run_to_evaluating {
                    spec_run_update_effects(
                        policy.dry_run,
                        run,
                        evaluating_update_view(entry),
                        "notify"@,
                        "marked run evaluating"@,
                    )
                } else {
                    Seq::empty()
                };
                lemma_quiet_small(tail);
                lemma_quiet_concat(head, item);
                lemma_quiet_concat(head + item, tail);
                assert(ready == head + item + tail);
            },
        }
        lemma_quiet_concat(sync, ready);
    } else {
        let start = spec_nudge_start_effects(entry, policy, notifier);
        if run.retry_count >= policy.max_retries {
            let a = spec_run_update_effects(
                policy.dry_run,
                run,
                notes_update_view(appended_note(option_view(run.notes), retry_limit_note(run.retry_count, d.summary))),
                "escalate"@,
                "retry limit reached"@,
            );
            lemma_quiet_small(a);
            let b = spec_notice_effects(
                notifier.spec_send(
                    retry_limit_message(entry.pr, run.retry_count, d.failure_kind->0),
                    policy.dry_run,
                ),
                LogLevel::Warn,
                Some(run.id),
                Some(entry.pr.repo@),
                Some(entry.pr.number),
                "escalate"@,
            );
            lemma_quiet_small(b);
            lemma_quiet_concat(a, b);
        } else if run.session_id is None {
            lemma_quiet_session_failure(entry.pr, run, "run is missing session_id"@, policy, notifier);
        } else {
            lemma_quiet_small(start);
        }
        lemma_quiet_concat(sync, start);
    }
}

/// In one cycle a matched pull request's run is nudged at most once, and only while it has
/// nudges left; the retry count that Drydock holds afterwards is one more when it was
/// nudged and unchanged otherwise.
pub proof fn lemma_cycle_retry_step(
    entry: MatchedRun,
    probe: Result<SessionStateView, Seq<char>>,
    policy: CyclePolicy,
    notifier: Notifier,
)
    ensures
        sends_nudge(matched_cycle_effects(entry, probe, policy, notifier)) ==> entry.run.retry_count
            < policy.max_retries,
        written_retry(matched_cycle_effects(entry, probe, policy, notifier), entry.run.retry_count)
            == if sends_nudge(matched_cycle_effects(entry, probe, policy, notifier)) {
            (entry.run.retry_count + 1) as u32
        } else {
            entry.run.retry_count
        },
{
    let m = spec_matched_effects(entry, policy, notifier);
    let c = matched_cycle_effects(entry, probe, policy, notifier);
    let r = entry.run.retry_count;
    lemma_quiet_matched(entry, policy, notifier);
    lemma_written_retry_quiet(m, r);
    if spec_matched_probe(entry, policy) is None {
        assert(c =~= m);
        return;
    }
    let n = spec_nudge_effects(entry, probe, policy, notifier);
    assert(c == m + n);
    lemma_written_retry_concat(m, n, r);
    let d = entry_decision(entry);
    let run = entry.run;
    match probe {
        Ok(SessionStateView::Alive { session_name }) => {
            let next = run.retry_count + 1;
            let notes = appended_note(option_view(run.notes), nudge_note(next as nat, d.summary));
            let u = spec_run_update_effects(
                policy.dry_run,
                run,
                retry_update_view(next as u32, notes),
                "nudge"@,
                "nudged coding agent"@,
            );
            let last = seq![pr_log(entry, LogLevel::Info, "nudge"@, d.summary)];
            lemma_quiet_small(last);
            if policy.dry_run {
                lemma_quiet_small(u);
                lemma_quiet_concat(u, last);
                assert(n =~= u + last);
                lemma_quiet_concat(m, n);
                lemma_written_retry_quiet(n, r);
            } else {
                let first = seq![EffectView::SendNudge { session_name, message: d.nudge_message->0 }];
                assert(n =~= first + u + last);
                assert(c[m.len() as int] == n[0]);
                assert(sends_nudge(c));
                lemma_written_retry_concat(first + u, last, r);
                lemma_written_retry_quiet(last, written_retry(first + u, r));
                lemma_written_retry_concat(first, u, r);
                reveal_with_fuel(written_retry, 3);
                assert(u.drop_last() =~= seq![u[0]]);
                assert(seq![u[0]].drop_last() =~= Seq::<EffectView>::empty());
                assert(written_retry(u, written_retry(first, r)) == next as u32);
            }
        },
        Ok(SessionStateView::Closed) => {
            lemma_quiet_session_failure(entry.pr, run, "agent session is closed"@, policy, notifier);
            lemma_quiet_concat(m, n);
            lemma_written_retry_quiet(n, r);
        },
        Err(reason) => {
            lemma_quiet_session_failure(entry.pr, run, "failed to inspect session: "@ + reason, policy, notifier);
            lemma_quiet_concat(m, n);
            lemma_written_retry_quiet(n, r);
        },
    }
}

/// Whether successive cycles of one run chain: each starts from the retry count that the
/// previous one left in Drydock. `entries[i]` is the run's pull request as cycle `i` finds
/// it, and `probes[i]` what inspecting its session gave.
pub open spec fn retries_chain(
    entries: Seq<MatchedRun>,
    probes: Seq<Result<SessionStateView, Seq<char>>>,
    policy: CyclePolicy,
    notifier: Notifier,
) -> bool {
    &&& entries.len() == probes.len()
    &&& forall|i: int|
        1 <= i < entries.len() ==> (#[trigger] entries[i]).run.retry_count == written_retry(
            matched_cycle_effects(entries[i - 1], probes[i - 1], policy, notifier),
            entries[i - 1].run.retry_count,
        )
}

/// The number of the first `k` cycles in which the run is nudged.
pub open spec fn nudges_in(
    entries: Seq<MatchedRun>,
    probes: Seq<Result<SessionStateView, Seq<char>>>,
    policy: CyclePolicy,
    notifier: Notifier,
    k: nat,
) -> nat
    decreases k,
{
    if k == 0 {
        0
    } else {
        nudges_in(entries, probes, policy, notifier, (k - 1) as nat) + if sends_nudge(
            matched_cycle_effects(entries[k - 1], probes[k - 1], policy, notifier),
        ) {
            1nat
        } else {
            0nat
        }
    }
}

proof fn lemma_retries_track_nudges(
    entries: Seq<MatchedRun>,
    probes: Seq<Result<SessionStateView, Seq<char>>>,
    policy: CyclePolicy,
    notifier: Notifier,
    k: nat,
)
    requires
        retries_chain(entries, probes, policy, notifier),
        k < entries.len(),
    ensures
        entries[k as int].run.retry_count == entries[0].run.retry_count + nudges_in(entries, probes, policy, notifier, k),
        nudges_in(entries, probes, policy, notifier, k) == 0 || entries[0].run.retry_count + nudges_in(
            entries,
            probes,
            policy,
            notifier,
            k,
        ) <= policy.max_retries,
    decreases k,
{
    if k > 0 {
        let j = (k - 1) as nat;
        lemma_retries_track_nudges(entries, probes, policy, notifier, j);
        lemma_cycle_retry_step(entries[j as int], probes[j as int], policy, notifier);
        assert(entries[k as int].run.retry_count == written_retry(
            matched_cycle_effects(entries[j as int], probes[j as int], policy, notifier),
            entries[j as int].run.retry_count,
        ));
    }
}

/// Over successive cycles of one run, each nudge raises the retry count that Drydock holds
/// by exactly one and no nudge goes out once the count reaches the limit: a run whose count
/// starts at `r0` is nudged at most `max_retries - r0` times (never when `r0` is at the
/// limit already), and each cycle starts from `r0` plus the nudges before it.
pub proof fn lemma_nudges_bounded_by_retry_limit(
    entries: Seq<MatchedRun>,
    probes: Seq<Result<SessionStateView, Seq<char>>>,
    policy: CyclePolicy,
    notifier: Notifier,
)
    requires
        retries_chain(entries, probes, policy, notifier),
    ensures
        forall|k: int|
            0 <= k < entries.len() ==> (#[trigger] entries[k]).run.retry_count == entries[0].run.retry_count
                + nudges_in(entries, probes, policy, notifier, k as nat),
        nudges_in(entries, probes, policy, notifier, entries.len()) == 0 || entries[0].run.retry_count
            + nudges_in(entries, probes, policy, notifier, entries.len()) <= policy.max_retries,
{
    assert forall|k: int| 0 <= k < entries.len() implies (#[trigger] entries[k]).run.retry_count
        == entries[0].run.retry_count + nudges_in(entries, probes, policy, notifier, k as nat) by {
        lemma_retries_track_nudges(entries, probes, policy, notifier, k as nat);
    }
    if entries.len() > 0 {
        let last = (entries.len() - 1) as nat;
        lemma_retries_track_nudges(entries, probes, policy, notifier, last);
        lemma_cycle_retry_step(entries[last as int], probes[last as int], policy, notifier);
    }
}

} // verus!
