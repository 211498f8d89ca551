use vstd::prelude::*;

use crate::agent::SessionState;
use crate::clock::LocalDateTime;
use crate::cycle::{
    CyclePolicy, Effect, EffectView, MatchedRun, entry_decision, has_run_on,
    is_latest, is_stable_sort_of, open_pr_keys, pause_gate, plan_matched, plan_nudge,
    plan_pull_request, plan_stale_probe, plan_stale_run, plan_stale_tracker, probe_view,
    sort_matched, spec_matched_effects, spec_matched_probe, spec_nudge_effects, spec_pause_gate,
    spec_pull_request_effects, spec_stale_effects, spec_stale_probe, spec_stale_probe_effects,
    spec_stale_tracker_effects, views, writes_nothing,
};
use crate::decision::ActionKind;
use crate::github::PullRequest;
use crate::logging::StaleTracker;
use crate::models::{CiStatus, DrydockRun, ReviewStatus};
use crate::notifications::Notifier;
use crate::text::option_view;

verus! {

/// Where a check cycle stands.
#[derive(Debug, Clone, Copy, PartialEq, Eq, Structural)]
pub enum Stage {
    Start,
    AwaitLocalPause,
    AwaitDrydockPause,
    AwaitRuns,
    AwaitPullRequests,
    /// Matching open pull request `next` to a run.
    MatchPullRequest { next: usize },
    /// Waiting for the CI and review states of pull request `pr`, matched to run `run`.
    AwaitStatuses { pr: usize, run: usize },
    AwaitLocalTime,
    /// Handling matched pull request `next`, in handling order.
    HandleMatched { next: usize },
    /// Waiting for the session of matched pull request `entry`.
    AwaitNudgeSession { entry: usize },
    /// Checking whether running run `next` is stale.
    CheckStaleRun { next: usize },
    /// Waiting for the session of running run `run`.
    AwaitStaleSession { run: usize },
    /// Waiting for the counted stale cycles of running run `run`.
    AwaitStaleTracker { run: usize },
    Finished,
}

/// The part of a cycle a stage belongs to; a cycle only moves forward through them.
pub open spec fn phase(stage: Stage) -> int {
    match stage {
        Stage::Start => 0,
        Stage::AwaitLocalPause => 1,
        Stage::AwaitDrydockPause => 2,
        Stage::AwaitRuns => 3,
        Stage::AwaitPullRequests => 4,
        Stage::MatchPullRequest { .. } => 5,
        Stage::AwaitStatuses { .. } => 5,
        Stage::AwaitLocalTime => 6,
        Stage::HandleMatched { .. } => 7,
        Stage::AwaitNudgeSession { .. } => 7,
        Stage::CheckStaleRun { .. } => 8,
        Stage::AwaitStaleSession { .. } => 8,
        Stage::AwaitStaleTracker { .. } => 8,
        Stage::Finished => 9,
    }
}

/// What a cycle learnt from the outside work it asked for.
#[derive(Debug)]
pub enum CycleEvent {
    /// Nothing: the cycle asked to go on.
    Continue,
    LocalPause { paused: bool },
    DrydockPause { paused: bool },
    RunningRuns { runs: Vec<DrydockRun> },
    OpenPullRequests { prs: Vec<PullRequest> },
    PullRequestStatuses { ci_status: CiStatus, review_status: ReviewStatus },
    LocalTime { now: LocalDateTime },
    Session { probe: Result<SessionState, String> },
    StaleTracker { tracker: StaleTracker },
}

/// The outside work a cycle asks for next, after the effects of the step are carried out.
#[derive(Debug, Clone)]
pub enum CycleRequest {
    /// Whether the local pause file exists.
    LocalPause,
    /// Drydock's pause flag.
    DrydockPause,
    /// The running runs.
    RunningRuns,
    /// The open pull requests.
    OpenPullRequests,
    /// The CI and review states of pull request `pr`.
    PullRequestStatuses { pr: usize },
    /// The local time.
    LocalTime,
    /// The state of the agent session.
    Session { session_id: String },
    /// Count one more stale cycle of the run.
    BumpStaleCycle { run_id: i64 },
    /// Nothing: step again with `CycleEvent::Continue`.
    Continue,
    /// The cycle is over.
    Finished,
}

/// Whether a request asks for session `id`.
pub open spec fn asks_session(request: CycleRequest, id: Option<Seq<char>>) -> bool {
    request matches CycleRequest::Session { session_id } && id == Some(session_id@)
}

/// One check cycle, driven step by step: each step takes what the previous request
/// brought, gives the effects to carry out, and says what outside work comes next.
#[derive(Debug)]
pub struct CheckCycle {
    stage: Stage,
    policy: CyclePolicy,
    notifier: Notifier,
    runs: Vec<DrydockRun>,
    prs: Vec<PullRequest>,
    open_keys: Vec<(String, String)>,
    matched: Vec<MatchedRun>,
    matched_ids: Vec<i64>,
}

impl CheckCycle {
    #[verifier::type_invariant]
    spec fn well_formed(self) -> bool {
        self.stage_fits(self.stage)
    }

    /// Whether the cycle's data fits `stage`: the indices it names are in range, and a
    /// session is awaited only for a run that has one (and, before a nudge, nudges left).
    spec fn stage_fits(self, stage: Stage) -> bool {
        match stage {
            Stage::MatchPullRequest { next } => next <= self.prs@.len(),
            Stage::AwaitStatuses { pr, run } => pr < self.prs@.len() && run < self.runs@.len(),
            Stage::HandleMatched { next } => next <= self.matched@.len(),
            Stage::AwaitNudgeSession { entry } => {
                &&& entry < self.matched@.len()
                &&& entry_decision(self.matched@[entry as int]).action == ActionKind::Nudge
                &&& self.matched@[entry as int].run.retry_count < self.policy.max_retries
                &&& self.matched@[entry as int].run.session_id is Some
            },
            Stage::CheckStaleRun { next } => next <= self.runs@.len(),
            Stage::AwaitStaleSession { run } => run < self.runs@.len()
                && self.runs@[run as int].session_id is Some,
            Stage::AwaitStaleTracker { run } => run < self.runs@.len(),
            _ => true,
        }
    }

    pub closed spec fn stage(self) -> Stage {
        self.stage
    }

    pub closed spec fn policy(self) -> CyclePolicy {
        self.policy
    }

    pub closed spec fn notifier(self) -> Notifier {
        self.notifier
    }

    /// The running runs.
    pub closed spec fn runs(self) -> Seq<DrydockRun> {
        self.runs@
    }

    /// The open pull requests.
    pub closed spec fn prs(self) -> Seq<PullRequest> {
        self.prs@
    }

    /// The keys of the open pull requests.
    pub closed spec fn open_keys(self) -> Seq<(String, String)> {
        self.open_keys@
    }

    /// The matched pull requests: in the order found, then in handling order.
    pub closed spec fn matched(self) -> Seq<MatchedRun> {
        self.matched@
    }

    /// The ids of the runs matched to open pull requests.
    pub closed spec fn matched_ids(self) -> Seq<i64> {
        self.matched_ids@
    }

    /// A cycle that has not started, under the given limits and notifier.
    pub fn new(policy: CyclePolicy, notifier: Notifier) -> (c: CheckCycle)
        ensures
            c.stage() == Stage::Start,
            c.policy() == policy,
            c.notifier() == notifier,
            c.runs().len() == 0,
            c.prs().len() == 0,
            c.open_keys().len() == 0,
            c.matched().len() == 0,
            c.matched_ids().len() == 0,
    {
        CheckCycle {
            stage: Stage::Start,
            policy,
            notifier,
            runs: Vec::new(),
            prs: Vec::new(),
            open_keys: Vec::new(),
            matched: Vec::new(),
            matched_ids: Vec::new(),
        }
    }

    /// Whether everything but the stage is the same in two cycles.
    pub open spec fn same_data(self, other: CheckCycle) -> bool {
        &&& self.policy() == other.policy()
        &&& self.notifier() == other.notifier()
        &&& self.runs() == other.runs()
        &&& self.prs() == other.prs()
        &&& self.open_keys() == other.open_keys()
        &&& self.matched() == other.matched()
        &&& self.matched_ids() == other.matched_ids()
    }

    /// The request that a stage waits on.
    pub open spec fn awaits(self, request: CycleRequest) -> bool {
        match self.stage() {
            Stage::AwaitLocalPause => request is LocalPause,
            Stage::AwaitDrydockPause => request is DrydockPause,
            Stage::AwaitRuns => request is RunningRuns,
            Stage::AwaitPullRequests => request is OpenPullRequests,
            Stage::AwaitStatuses { pr, .. } => request == CycleRequest::PullRequestStatuses { pr },
            Stage::AwaitLocalTime => request is LocalTime,
            Stage::AwaitNudgeSession { entry } => asks_session(
                request,
                option_view(self.matched()[entry as int].run.session_id),
            ),
            Stage::AwaitStaleSession { run } => asks_session(
                request,
                option_view(self.runs()[run as int].session_id),
            ),
            Stage::AwaitStaleTracker { run } => request == CycleRequest::BumpStaleCycle {
                run_id: self.runs()[run as int].id,
            },
            Stage::Finished => request is Finished,
            _ => request is Continue,
        }
    }

    fn awaited_request(&self) -> (r: CycleRequest)
        ensures
            self.awaits(r),
    {
        proof {
            use_type_invariant(self);
        }
        match self.stage {
            Stage::AwaitLocalPause => CycleRequest::LocalPause,
            Stage::AwaitDrydockPause => CycleRequest::DrydockPause,
            Stage::AwaitRuns => CycleRequest::RunningRuns,
            Stage::AwaitPullRequests => CycleRequest::OpenPullRequests,
            Stage::AwaitStatuses { pr, .. } => CycleRequest::PullRequestStatuses { pr },
            Stage::AwaitLocalTime => CycleRequest::LocalTime,
            Stage::AwaitNudgeSession { entry } => {
                let id = match &self.matched[entry].run.session_id {
                    Some(s) => s.clone(),
                    None => String::new(),
                };
                CycleRequest::Session { session_id: id }
            },
            Stage::AwaitStaleSession { run } => {
                let id = match &self.runs[run].session_id {
                    Some(s) => s.clone(),
                    None => String::new(),
                };
                CycleRequest::Session { session_id: id }
            },
            Stage::AwaitStaleTracker { run } => CycleRequest::BumpStaleCycle { run_id: self.runs[run].id },
            Stage::Finished => CycleRequest::Finished,
            _ => CycleRequest::Continue,
        }
    }

    fn with_stage(self, stage: Stage) -> (c: CheckCycle)
        requires
            self.stage_fits(stage),
        ensures
            c.stage() == stage,
            c.same_data(self),
    {
        let CheckCycle { stage: _, policy, notifier, runs, prs, open_keys, matched, matched_ids } = self;
        CheckCycle { stage, policy, notifier, runs, prs, open_keys, matched, matched_ids }
    }

    /// One step of the cycle: given what the last request brought, the new state, the
    /// effects to carry out (in order, before the next request), and the next request. An
    /// event that the stage does not wait for changes nothing and repeats the request.
    pub fn step(self, event: CycleEvent) -> (r: (CheckCycle, Vec<Effect>, CycleRequest))
        ensures
            spec_step(self, event, r.0, views(r.1@), r.2),
            phase(r.0.stage()) >= phase(self.stage()),
    {
        proof {
            use_type_invariant(&self);
        }
        let stage = self.stage;
        match (stage, event) {
            (Stage::Start, CycleEvent::Continue) => {
                let c = self.with_stage(Stage::AwaitLocalPause);
                (c, Vec::new(), CycleRequest::LocalPause)
            },
            (Stage::AwaitLocalPause, CycleEvent::LocalPause { paused }) => {
                if paused {
                    let mut effects: Vec<Effect> = Vec::new();
                    match pause_gate(true, false) {
                        Some(e) => effects.push(e),
                        None => {},
                    }
                    assert(views(effects@) =~= seq![spec_pause_gate(true, false)->0]);
                    (self.with_stage(Stage::Finished), effects, CycleRequest::Finished)
                } else {
                    (self.with_stage(Stage::AwaitDrydockPause), Vec::new(), CycleRequest::DrydockPause)
                }
            },
            (Stage::AwaitDrydockPause, CycleEvent::DrydockPause { paused }) => {
                if paused {
                    let mut effects: Vec<Effect> = Vec::new();
                    match pause_gate(false, true) {
                        Some(e) => effects.push(e),
                        None => {},
                    }
                    assert(views(effects@) =~= seq![spec_pause_gate(false, true)->0]);
                    (self.with_stage(Stage::Finished), effects, CycleRequest::Finished)
                } else {
                    (self.with_stage(Stage::AwaitRuns), Vec::new(), CycleRequest::RunningRuns)
                }
            },
            (Stage::AwaitRuns, CycleEvent::RunningRuns { runs }) => {
                let CheckCycle { stage: _, policy, notifier, runs: _, prs, open_keys, matched, matched_ids } = self;
                let c = CheckCycle {
                    stage: Stage::AwaitPullRequests,
                    policy,
                    notifier,
                    runs,
                    prs,
                    open_keys,
                    matched,
                    matched_ids,
                };
                (c, Vec::new(), CycleRequest::OpenPullRequests)
            },
            (Stage::AwaitPullRequests, CycleEvent::OpenPullRequests { prs }) => {
                let keys = open_pr_keys(&prs);
                let CheckCycle { stage: _, policy, notifier, runs, prs: _, open_keys: _, matched, matched_ids } = self;
                let c = CheckCycle {
                    stage: Stage::MatchPullRequest { next: 0 },
                    policy,
                    notifier,
                    runs,
                    prs,
                    open_keys: keys,
                    matched,
                    matched_ids,
                };
                (c, Vec::new(), CycleRequest::Continue)
            },
            (Stage::MatchPullRequest { next }, CycleEvent::Continue) => {
                if next >= self.prs.len() {
                    return (self.with_stage(Stage::AwaitLocalTime), Vec::new(), CycleRequest::LocalTime);
                }
                let plan = plan_pull_request(&self.runs, &self.prs[next]);
                match plan.matched {
                    Some(run) => {
                        let id = self.runs[run].id;
                        let CheckCycle { stage: _, policy, notifier, runs, prs, open_keys, matched, mut matched_ids } = self;
                        matched_ids.push(id);
                        let c = CheckCycle {
                            stage: Stage::AwaitStatuses { pr: next, run },
                            policy,
                            notifier,
                            runs,
                            prs,
                            open_keys,
                            matched,
                            matched_ids,
                        };
                        (c, plan.effects, CycleRequest::PullRequestStatuses { pr: next })
                    },
                    None => {
                        (self.with_stage(Stage::MatchPullRequest { next: next + 1 }), plan.effects, CycleRequest::Continue)
                    },
                }
            },
            (Stage::AwaitStatuses { pr, run }, CycleEvent::PullRequestStatuses { ci_status, review_status }) => {
                let _len = self.prs.len();  // a length fits in usize, so the index after this one does too
                let entry = MatchedRun {
                    pr: self.prs[pr].duplicate(),
                    run: self.runs[run].duplicate(),
                    ci_status,
                    review_status,
                };
                let CheckCycle { stage: _, policy, notifier, runs, prs, open_keys, mut matched, matched_ids } = self;
                matched.push(entry);
                let c = CheckCycle {
                    stage: Stage::MatchPullRequest { next: pr + 1 },
                    policy,
                    notifier,
                    runs,
                    prs,
                    open_keys,
                    matched,
                    matched_ids,
                };
                (c, Vec::new(), CycleRequest::Continue)
            },
            (Stage::AwaitLocalTime, CycleEvent::LocalTime { now }) => {
                let CheckCycle { stage: _, policy, notifier, runs, prs, open_keys, matched, matched_ids } = self;
                let sorted = sort_matched(now, matched);
                let c = CheckCycle {
                    stage: Stage::HandleMatched { next: 0 },
                    policy,
                    notifier,
                    runs,
                    prs,
                    open_keys,
                    matched: sorted,
                    matched_ids,
                };
                (c, Vec::new(), CycleRequest::Continue)
            },
            (Stage::HandleMatched { next }, CycleEvent::Continue) => {
                if next >= self.matched.len() {
                    return (self.with_stage(Stage::CheckStaleRun { next: 0 }), Vec::new(), CycleRequest::Continue);
                }
                let plan = plan_matched(&self.matched[next], self.policy, &self.notifier);
                match plan.probe_session {
                    Some(session_id) => {
                        (
                            self.with_stage(Stage::AwaitNudgeSession { entry: next }),
                            plan.effects,
                            CycleRequest::Session { session_id },
                        )
                    },
                    None => {
                        (self.with_stage(Stage::HandleMatched { next: next + 1 }), plan.effects, CycleRequest::Continue)
                    },
                }
            },
            (Stage::AwaitNudgeSession { entry }, CycleEvent::Session { probe }) => {
                let _len = self.matched.len();  // a length fits in usize, so the index after this one does too
                let effects = plan_nudge(&self.matched[entry], &probe, self.policy, &self.notifier);
                (self.with_stage(Stage::HandleMatched { next: entry + 1 }), effects, CycleRequest::Continue)
            },
            (Stage::CheckStaleRun { next }, CycleEvent::Continue) => {
                if next >= self.runs.len() {
                    return (self.with_stage(Stage::Finished), Vec::new(), CycleRequest::Finished);
                }
                let plan = plan_stale_run(&self.runs[next], &self.open_keys, &self.matched_ids);
                match plan.probe_session {
                    Some(session_id) => {
                        (
                            self.with_stage(Stage::AwaitStaleSession { run: next }),
                            plan.effects,
                            CycleRequest::Session { session_id },
                        )
                    },
                    None => {
                        (self.with_stage(Stage::CheckStaleRun { next: next + 1 }), plan.effects, CycleRequest::Continue)
                    },
                }
            },
            (Stage::AwaitStaleSession { run }, CycleEvent::Session { probe }) => {
                let _len = self.runs.len();  // a length fits in usize, so the index after this one does too
                let session_id = match &self.runs[run].session_id {
                    Some(s) => s.clone(),
                    None => String::new(),
                };
                let plan = plan_stale_probe(&self.runs[run], session_id.as_str(), &probe, self.policy, &self.notifier);
                if plan.bump_stale_cycle {
                    let run_id = self.runs[run].id;
                    (self.with_stage(Stage::AwaitStaleTracker { run }), plan.effects, CycleRequest::BumpStaleCycle { run_id })
                } else {
                    (self.with_stage(Stage::CheckStaleRun { next: run + 1 }), plan.effects, CycleRequest::Continue)
                }
            },
            (Stage::AwaitStaleTracker { run }, CycleEvent::StaleTracker { tracker }) => {
                let _len = self.runs.len();  // a length fits in usize, so the index after this one does too
                let effects = plan_stale_tracker(&self.runs[run], tracker, self.policy, &self.notifier);
                (self.with_stage(Stage::CheckStaleRun { next: run + 1 }), effects, CycleRequest::Continue)
            },
            _ => {
                let request = self.awaited_request();
                (self, Vec::new(), request)
            },
        }
    }
}

/// What one step of a check cycle does, by the stage it is in and the event it is given.
pub open spec fn spec_step(
    before: CheckCycle,
    event: CycleEvent,
    after: CheckCycle,
    effects: Seq<EffectView>,
    request: CycleRequest,
) -> bool {
    let policy = before.policy();
    let notifier = before.notifier();
    let runs = before.runs();
    match (before.stage(), event) {
        (Stage::Start, CycleEvent::Continue) => after.same_data(before) && after.stage()
            == Stage::AwaitLocalPause && effects.len() == 0 && request is LocalPause,
        (Stage::AwaitLocalPause, CycleEvent::LocalPause { paused }) => after.same_data(before) && if paused {
            after.stage() == Stage::Finished && effects == seq![spec_pause_gate(true, false)->0]
                && request is Finished
        } else {
            after.stage() == Stage::AwaitDrydockPause && effects.len() == 0 && request is DrydockPause
        },
        (Stage::AwaitDrydockPause, CycleEvent::DrydockPause { paused }) => after.same_data(before) && if paused {
            after.stage() == Stage::Finished && effects == seq![spec_pause_gate(false, true)->0]
                && request is Finished
        } else {
            after.stage() == Stage::AwaitRuns && effects.len() == 0 && request is RunningRuns
        },
        (Stage::AwaitRuns, CycleEvent::RunningRuns { runs: found }) => {
            &&& after.stage() == Stage::AwaitPullRequests
            &&& after.runs() == found@
            &&& after.policy() == policy && after.notifier() == notifier
            &&& after.prs() == before.prs() && after.open_keys() == before.open_keys()
            &&& after.matched() == before.matched() && after.matched_ids() == before.matched_ids()
            &&& effects.len() == 0
            &&& request is OpenPullRequests
        },
        (Stage::AwaitPullRequests, CycleEvent::OpenPullRequests { prs }) => {
            &&& after.stage() == Stage::MatchPullRequest { next: 0 }
            &&& after.prs() == prs@
            &&& after.open_keys().len() == prs@.len()
            &&& forall|i: int|
                0 <= i < prs@.len() ==> (#[trigger] after.open_keys()[i]).0@ == prs@[i].repo@
                    && after.open_keys()[i].1@ == prs@[i].head_ref_name@
            &&& after.policy() == policy && after.notifier() == notifier && after.runs() == runs
            &&& after.matched() == before.matched() && after.matched_ids() == before.matched_ids()
            &&& effects.len() == 0
            &&& request is Continue
        },
        (Stage::MatchPullRequest { next }, CycleEvent::Continue) => if next >= before.prs().len() {
            after.same_data(before) && after.stage() == Stage::AwaitLocalTime && effects.len() == 0
                && request is LocalTime
        } else {
            let pr = before.prs()[next as int];
            if has_run_on(runs, pr.repo@, pr.head_ref_name@) {
                &&& after.stage() matches Stage::AwaitStatuses { pr: p, run } && p == next && is_latest(
                    runs,
                    pr.repo@,
                    pr.head_ref_name@,
                    run as int,
                ) && effects == spec_pull_request_effects(runs, pr, Some(run)) && after.matched_ids()
                    == before.matched_ids().push(runs[run as int].id)
                &&& after.policy() == policy && after.notifier() == notifier && after.runs() == runs
                &&& after.prs() == before.prs() && after.open_keys() == before.open_keys()
                &&& after.matched() == before.matched()
                &&& request == CycleRequest::PullRequestStatuses { pr: next }
            } else {
                after.same_data(before) && after.stage() == Stage::MatchPullRequest { next: (next + 1) as usize }
                    && effects == spec_pull_request_effects(runs, pr, None) && request is Continue
            }
        },
        (
            Stage::AwaitStatuses { pr, run },
            CycleEvent::PullRequestStatuses { ci_status, review_status },
        ) => {
            &&& after.stage() == Stage::MatchPullRequest { next: (pr + 1) as usize }
            &&& after.matched() == before.matched().push(
                MatchedRun { pr: before.prs()[pr as int], run: runs[run as int], ci_status, review_status },
            )
            &&& after.policy() == policy && after.notifier() == notifier && after.runs() == runs
            &&& after.prs() == before.prs() && after.open_keys() == before.open_keys()
            &&& after.matched_ids() == before.matched_ids()
            &&& effects.len() == 0
            &&& request is Continue
        },
        (Stage::AwaitLocalTime, CycleEvent::LocalTime { now }) => {
            &&& after.stage() == Stage::HandleMatched { next: 0 }
            &&& after.matched().to_multiset() == before.matched().to_multiset()
            &&& exists|origin: Seq<int>| is_stable_sort_of(now, before.matched(), after.matched(), origin)
            &&& after.policy() == policy && after.notifier() == notifier && after.runs() == runs
            &&& after.prs() == before.prs() && after.open_keys() == before.open_keys()
            &&& after.matched_ids() == before.matched_ids()
            &&& effects.len() == 0
            &&& request is Continue
        },
        (Stage::HandleMatched { next }, CycleEvent::Continue) => after.same_data(before) && if next
            >= before.matched().len() {
            after.stage() == Stage::CheckStaleRun { next: 0 } && effects.len() == 0 && request is Continue
        } else {
            let entry = before.matched()[next as int];
            &&& effects == spec_matched_effects(entry, policy, notifier)
            &&& match spec_matched_probe(entry, policy) {
                Some(id) => after.stage() == Stage::AwaitNudgeSession { entry: next } && asks_session(
                    request,
                    Some(id),
                ),
                None => after.stage() == Stage::HandleMatched { next: (next + 1) as usize }
                    && request is Continue,
            }
        },
        (Stage::AwaitNudgeSession { entry }, CycleEvent::Session { probe }) => {
            &&& after.same_data(before)
            &&& after.stage() == Stage::HandleMatched { next: (entry + 1) as usize }
            &&& effects == spec_nudge_effects(before.matched()[entry as int], probe_view(probe), policy, notifier)
            &&& request is Continue
        },
        (Stage::CheckStaleRun { next }, CycleEvent::Continue) => after.same_data(before) && if next
            >= runs.len() {
            after.stage() == Stage::Finished && effects.len() == 0 && request is Finished
        } else {
            let run = runs[next as int];
            &&& effects == spec_stale_effects(run, before.open_keys(), before.matched_ids())
            &&& match spec_stale_probe(run, before.open_keys(), before.matched_ids()) {
                Some(id) => after.stage() == Stage::AwaitStaleSession { run: next } && asks_session(
                    request,
                    Some(id),
                ),
                None => after.stage() == Stage::CheckStaleRun { next: (next + 1) as usize }
                    && request is Continue,
            }
        },
        (Stage::AwaitStaleSession { run }, CycleEvent::Session { probe }) => {
            &&& after.same_data(before)
            &&& effects == spec_stale_probe_effects(
                runs[run as int],
                option_view(runs[run as int].session_id)->0,
                probe_view(probe),
                policy,
                notifier,
            )
            &&& if probe_view(probe) matches Ok(crate::agent::SessionStateView::Alive { .. }) {
                after.stage() == Stage::AwaitStaleTracker { run } && request
                    == CycleRequest::BumpStaleCycle { run_id: runs[run as int].id }
            } else {
                after.stage() == Stage::CheckStaleRun { next: (run + 1) as usize } && request is Continue
            }
        },
        (Stage::AwaitStaleTracker { run }, CycleEvent::StaleTracker { tracker }) => {
            &&& after.same_data(before)
            &&& after.stage() == Stage::CheckStaleRun { next: (run + 1) as usize }
            &&& effects == spec_stale_tracker_effects(runs[run as int], tracker, policy, notifier)
            &&& request is Continue
        },
        _ => after == before && effects.len() == 0 && before.awaits(request),
    }
}


/// Until every open pull request has been matched and its statuses fetched (and the local
/// time read), a step of a cycle changes nothing outside: no Drydock write, no delivered
/// notification and no prompt to an agent.
pub proof fn lemma_nothing_written_while_gathering(
    before: CheckCycle,
    event: CycleEvent,
    after: CheckCycle,
    effects: Seq<EffectView>,
    request: CycleRequest,
)
    requires
        spec_step(before, event, after, effects, request),
        phase(before.stage()) < 7,
    ensures
        writes_nothing(effects),
{
}

/// A finished cycle stays finished: stepping it again changes nothing, carries out nothing
/// and asks for nothing.
pub proof fn lemma_finished_cycle_stays_finished(
    before: CheckCycle,
    event: CycleEvent,
    after: CheckCycle,
    effects: Seq<EffectView>,
    request: CycleRequest,
)
    requires
        spec_step(before, event, after, effects, request),
        before.stage() == Stage::Finished,
    ensures
        after == before,
        effects.len() == 0,
        request is Finished,
{
}

} // verus!
