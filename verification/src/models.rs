use vstd::prelude::*;

use crate::text::{copy_option, option_view};

verus! {

/// Priority of the Drydock work item that a run belongs to.
#[derive(Debug, Clone, Copy, PartialEq, Eq, Structural, PartialOrd, Ord)]
pub enum ItemPriority {
    Critical,
    High,
    Medium,
    Low,
    NoPriority,
}

impl ItemPriority {
    /// The rank of a priority: smaller ranks are handled first.
    pub open spec fn spec_rank(self) -> u8 {
        match self {
            ItemPriority::Critical => 0,
            ItemPriority::High => 1,
            ItemPriority::Medium => 2,
            ItemPriority::Low => 3,
            ItemPriority::NoPriority => 4,
        }
    }

    pub fn rank(self) -> (r: u8)
        ensures
            r == self.spec_rank(),
    {
        match self {
            ItemPriority::Critical => 0,
            ItemPriority::High => 1,
            ItemPriority::Medium => 2,
            ItemPriority::Low => 3,
            ItemPriority::NoPriority => 4,
        }
    }
}

impl Default for ItemPriority {
    fn default() -> (p: Self)
        ensures
            p == ItemPriority::NoPriority,
    {
        ItemPriority::NoPriority
    }
}

/// A point in time as Drydock reports it: whole seconds since the Unix epoch, and the
/// nanoseconds past that second.
#[derive(Debug, Clone, Copy, PartialEq, Eq, Structural)]
pub struct UtcTime {
    pub secs: i64,
    pub nanos: u32,
}

/// Whether `a` comes no later than `b`; a missing time comes before every present one.
pub open spec fn started_no_later(a: Option<UtcTime>, b: Option<UtcTime>) -> bool {
    match (a, b) {
        (None, _) => true,
        (Some(_), None) => false,
        (Some(x), Some(y)) => x.secs < y.secs || (x.secs == y.secs && x.nanos <= y.nanos),
    }
}

/// Compares two optional start times as `Option<DateTime<Utc>>` orders them.
pub fn started_at_no_later(a: Option<UtcTime>, b: Option<UtcTime>) -> (r: bool)
    ensures
        r == started_no_later(a, b),
{
    match (a, b) {
        (None, _) => true,
        (Some(_), None) => false,
        (Some(x), Some(y)) => x.secs < y.secs || (x.secs == y.secs && x.nanos <= y.nanos),
    }
}

/// A Drydock run, as `GET /runs` lists it.
#[derive(Debug, Clone)]
pub struct DrydockRun {
    pub id: i64,
    pub item_id: Option<i64>,
    pub item_title: Option<String>,
    pub repo: String,
    pub branch: String,
    pub status: String,
    pub ci_status: Option<String>,
    pub review_status: Option<String>,
    pub retry_count: u32,
    pub pr_url: Option<String>,
    pub notes: Option<String>,
    pub session_id: Option<String>,
    pub started_at: Option<UtcTime>,
    pub item_priority: ItemPriority,
}

impl DrydockRun {
    /// A field-by-field copy.
    pub fn duplicate(&self) -> (r: DrydockRun)
        ensures
            r == *self,
    {
        DrydockRun {
            id: self.id,
            item_id: self.item_id,
            item_title: copy_option(&self.item_title),
            repo: self.repo.clone(),
            branch: self.branch.clone(),
            status: self.status.clone(),
            ci_status: copy_option(&self.ci_status),
            review_status: copy_option(&self.review_status),
            retry_count: self.retry_count,
            pr_url: copy_option(&self.pr_url),
            notes: copy_option(&self.notes),
            session_id: copy_option(&self.session_id),
            started_at: self.started_at,
            item_priority: self.item_priority,
        }
    }
}

/// The fields of a run that a `PATCH /runs/:id` changes; a missing field is left as it is.
#[derive(Debug, Clone)]
pub struct RunUpdate {
    pub ci_status: Option<String>,
    pub review_status: Option<String>,
    pub retry_count: Option<u32>,
    pub pr_url: Option<String>,
    pub notes: Option<String>,
    pub status: Option<String>,
}

/// The mathematical value of a `RunUpdate`.
pub struct RunUpdateView {
    pub ci_status: Option<Seq<char>>,
    pub review_status: Option<Seq<char>>,
    pub retry_count: Option<u32>,
    pub pr_url: Option<Seq<char>>,
    pub notes: Option<Seq<char>>,
    pub status: Option<Seq<char>>,
}

impl RunUpdateView {
    /// An update that changes nothing.
    pub open spec fn empty() -> RunUpdateView {
        RunUpdateView {
            ci_status: None,
            review_status: None,
            retry_count: None,
            pr_url: None,
            notes: None,
            status: None,
        }
    }
}

impl View for RunUpdate {
    type V = RunUpdateView;

    open spec fn view(&self) -> RunUpdateView {
        RunUpdateView {
            ci_status: option_view(self.ci_status),
            review_status: option_view(self.review_status),
            retry_count: self.retry_count,
            pr_url: option_view(self.pr_url),
            notes: option_view(self.notes),
            status: option_view(self.status),
        }
    }
}

impl RunUpdate {
    /// An update that changes nothing.
    pub fn empty() -> (u: RunUpdate)
        ensures
            u@ == RunUpdateView::empty(),
    {
        RunUpdate {
            ci_status: None,
            review_status: None,
            retry_count: None,
            pr_url: None,
            notes: None,
            status: None,
        }
    }

    /// A field-by-field copy.
    pub fn copy(&self) -> (u: RunUpdate)
        ensures
            u@ == self@,
    {
        RunUpdate {
            ci_status: copy_option(&self.ci_status),
            review_status: copy_option(&self.review_status),
            retry_count: self.retry_count,
            pr_url: copy_option(&self.pr_url),
            notes: copy_option(&self.notes),
            status: copy_option(&self.status),
        }
    }
}

/// The body of a `PATCH /items/:id`.
#[derive(Debug, Clone)]
pub struct ItemUpdate {
    pub status: String,
}

/// The body of `GET /meta/paused`.
#[derive(Debug, Clone, Copy, PartialEq, Eq, Structural)]
pub struct PauseFlagResponse {
    pub paused: bool,
}

/// The combined state of a pull request's CI checks.
#[derive(Debug, Clone, Copy, PartialEq, Eq, Structural)]
pub enum CiStatus {
    Passed,
    Failed,
    Pending,
    NoChecks,
}

impl CiStatus {
    /// The name under which Drydock stores this status.
    pub open spec fn name(self) -> Seq<char> {
        match self {
            CiStatus::Passed => "passed"@,
            CiStatus::Failed => "failed"@,
            CiStatus::Pending => "pending"@,
            CiStatus::NoChecks => "no-checks"@,
        }
    }

    pub fn as_str(self) -> (s: &'static str)
        ensures
            s@ == self.name(),
    {
        match self {
            CiStatus::Passed => "passed",
            CiStatus::Failed => "failed",
            CiStatus::Pending => "pending",
            CiStatus::NoChecks => "no-checks",
        }
    }
}

/// The combined state of a pull request's reviews.
#[derive(Debug, Clone, Copy, PartialEq, Eq, Structural)]
pub enum ReviewStatus {
    Approved,
    ChangesRequested,
    Pending,
    NoReviews,
}

impl ReviewStatus {
    /// The name under which Drydock stores this status.
    pub open spec fn name(self) -> Seq<char> {
        match self {
            ReviewStatus::Approved => "approved"@,
            ReviewStatus::ChangesRequested => "changes_requested"@,
            ReviewStatus::Pending => "pending"@,
            ReviewStatus::NoReviews => "no_reviews"@,
        }
    }

    pub fn as_str(self) -> (s: &'static str)
        ensures
            s@ == self.name(),
    {
        match self {
            ReviewStatus::Approved => "approved",
            ReviewStatus::ChangesRequested => "changes_requested",
            ReviewStatus::Pending => "pending",
            ReviewStatus::NoReviews => "no_reviews",
        }
    }
}

/// Two different CI states are stored under two different names.
pub proof fn lemma_ci_status_names_distinct(a: CiStatus, b: CiStatus)
    requires
        a != b,
    ensures
        a.name() != b.name(),
{
    reveal_strlit("passed");
    reveal_strlit("failed");
    reveal_strlit("pending");
    reveal_strlit("no-checks");
    assert(a.name()[0] != b.name()[0] || a.name().len() != b.name().len() || a.name()[1] != b.name()[1]);
}

/// Two different review states are stored under two different names.
pub proof fn lemma_review_status_names_distinct(a: ReviewStatus, b: ReviewStatus)
    requires
        a != b,
    ensures
        a.name() != b.name(),
{
    reveal_strlit("approved");
    reveal_strlit("changes_requested");
    reveal_strlit("pending");
    reveal_strlit("no_reviews");
    assert(a.name()[0] != b.name()[0] || a.name().len() != b.name().len());
}

/// Ranks follow the order in which the priorities are declared, most urgent first.
pub proof fn lemma_rank_follows_declaration_order()
    ensures
        ItemPriority::Critical.spec_rank() < ItemPriority::High.spec_rank(),
        ItemPriority::High.spec_rank() < ItemPriority::Medium.spec_rank(),
        ItemPriority::Medium.spec_rank() < ItemPriority::Low.spec_rank(),
        ItemPriority::Low.spec_rank() < ItemPriority::NoPriority.spec_rank(),
{
}

} // verus!
