use vstd::prelude::*;

use crate::models::{CiStatus, ReviewStatus};
use crate::text::{decimal, option_is, option_view, push_decimal, same_text};

verus! {

/// An open pull request of the authenticated user.
#[derive(Debug, Clone)]
pub struct PullRequest {
    pub repo: String,
    pub number: u64,
    pub title: String,
    pub head_ref_name: String,
    pub url: String,
}

impl PullRequest {
    /// A field-by-field copy.
    pub fn duplicate(&self) -> (p: PullRequest)
        ensures
            p == *self,
    {
        PullRequest {
            repo: self.repo.clone(),
            number: self.number,
            title: self.title.clone(),
            head_ref_name: self.head_ref_name.clone(),
            url: self.url.clone(),
        }
    }
}

/// One CI check of a pull request, as `gh pr checks --json bucket,state` lists it.
#[derive(Debug, Clone)]
pub struct PullRequestCheck {
    pub bucket: Option<String>,
    pub state: Option<String>,
}

/// The author of a review.
#[derive(Debug, Clone)]
pub struct ReviewUser {
    pub login: Option<String>,
}

/// One review of a pull request, as the GitHub API lists it, oldest first.
#[derive(Debug, Clone)]
pub struct PullRequestReview {
    pub state: Option<String>,
    pub user: Option<ReviewUser>,
}

/// A `gh` invocation: the program, its arguments, and the exit codes after which its
/// standard output is read as JSON.
#[derive(Debug, Clone)]
pub struct GhCommand {
    pub program: String,
    pub args: Vec<String>,
    pub allowed_exit_codes: Vec<i32>,
}

/// The exit code that a command is judged by: 0 when it has none.
pub open spec fn effective_exit_code(exit_code: Option<i32>) -> i32 {
    match exit_code {
        Some(c) => c,
        None => 0i32,
    }
}

impl GhCommand {
    /// Whether the command succeeded: its exit code (0 when it has none, as when it was
    /// killed by a signal) is an allowed one.
    pub fn accepts(&self, exit_code: Option<i32>) -> (r: bool)
        ensures
            r == self.allowed_exit_codes@.contains(effective_exit_code(exit_code)),
    {
        let code = match exit_code {
            Some(c) => c,
            None => 0,
        };
        assert(code == effective_exit_code(exit_code));
        let mut i: usize = 0;
        while i < self.allowed_exit_codes.len()
            invariant
                i <= self.allowed_exit_codes@.len(),
                code == effective_exit_code(exit_code),
                forall|k: int| 0 <= k < i ==> self.allowed_exit_codes@[k] != code,
            decreases self.allowed_exit_codes@.len() - i,
        {
            if self.allowed_exit_codes[i] == code {
                assert(self.allowed_exit_codes@[i as int] == code);
                assert(self.allowed_exit_codes@.contains(code));
                return true;
            }
            i = i + 1;
        }
        false
    }
}

/// Whether a check's bucket is `name`.
pub open spec fn bucket_is(check: PullRequestCheck, name: Seq<char>) -> bool {
    option_view(check.bucket) == Some(name)
}

/// Whether a check's state is `name`.
pub open spec fn check_state_is(check: PullRequestCheck, name: Seq<char>) -> bool {
    option_view(check.state) == Some(name)
}

/// Whether some check failed or was cancelled.
pub open spec fn some_check_failed(checks: Seq<PullRequestCheck>) -> bool {
    exists|i: int|
        0 <= i < checks.len() && (bucket_is(#[trigger] checks[i], "fail"@) || bucket_is(
            checks[i],
            "cancel"@,
        ))
}

/// Whether some check is pending.
pub open spec fn some_check_pending(checks: Seq<PullRequestCheck>) -> bool {
    exists|i: int| 0 <= i < checks.len() && bucket_is(#[trigger] checks[i], "pending"@)
}

/// Whether every check passed or was skipped.
pub open spec fn all_checks_passed(checks: Seq<PullRequestCheck>) -> bool {
    forall|i: int|
        0 <= i < checks.len() ==> bucket_is(#[trigger] checks[i], "pass"@) || bucket_is(
            checks[i],
            "skipping"@,
        )
}

/// Whether some check is still queued or running by its state.
pub open spec fn some_check_running(checks: Seq<PullRequestCheck>) -> bool {
    exists|i: int|
        0 <= i < checks.len() && (check_state_is(#[trigger] checks[i], "PENDING"@) || check_state_is(
            checks[i],
            "IN_PROGRESS"@,
        ) || check_state_is(checks[i], "QUEUED"@))
}

/// The CI state of a pull request from its checks: none means no checks; a failed or
/// cancelled check means failure; then a pending one means pending; all passed or skipped
/// means passed; otherwise a queued or running state means pending, and anything else fails.
pub open spec fn spec_ci_status(checks: Seq<PullRequestCheck>) -> CiStatus {
    if checks.len() == 0 {
        CiStatus::NoChecks
    } else if some_check_failed(checks) {
        CiStatus::Failed
    } else if some_check_pending(checks) {
        CiStatus::Pending
    } else if all_checks_passed(checks) {
        CiStatus::Passed
    } else if some_check_running(checks) {
        CiStatus::Pending
    } else {
        CiStatus::Failed
    }
}

/// The login of a review's author, if it has one.
pub open spec fn login_of(review: PullRequestReview) -> Option<Seq<char>> {
    match review.user {
        Some(u) => option_view(u.login),
        None => None,
    }
}

/// Whether review `i` is the latest review of its author: it has an author, and no later
/// review has the same one.
pub open spec fn is_latest_review(reviews: Seq<PullRequestReview>, i: int) -> bool {
    &&& 0 <= i < reviews.len()
    &&& login_of(reviews[i]) is Some
    &&& forall|j: int| i < j < reviews.len() ==> login_of(#[trigger] reviews[j]) != login_of(reviews[i])
}

/// Whether some author's latest review has state `state`.
pub open spec fn some_latest_review_is(reviews: Seq<PullRequestReview>, state: Seq<char>) -> bool {
    exists|i: int| #[trigger] is_latest_review(reviews, i) && option_view(reviews[i].state) == Some(state)
}

/// Whether some review has an author.
pub open spec fn some_review_has_author(reviews: Seq<PullRequestReview>) -> bool {
    exists|i: int| 0 <= i < reviews.len() && login_of(#[trigger] reviews[i]) is Some
}

/// The review state of a pull request, by the latest review of each author: no reviews at
/// all; pending when no review has an author; changes requested when some author's latest
/// review requests them; then approved when some author's latest review approves; otherwise
/// pending.
pub open spec fn spec_review_status(reviews: Seq<PullRequestReview>) -> ReviewStatus {
    if reviews.len() == 0 {
        ReviewStatus::NoReviews
    } else if !some_review_has_author(reviews) {
        ReviewStatus::Pending
    } else if some_latest_review_is(reviews, "CHANGES_REQUESTED"@) {
        ReviewStatus::ChangesRequested
    } else if some_latest_review_is(reviews, "APPROVED"@) {
        ReviewStatus::Approved
    } else {
        ReviewStatus::Pending
    }
}

/// Drives the `gh` CLI.
#[derive(Debug, Clone, Copy, PartialEq, Eq, Structural)]
pub struct GitHubClient {
    verbose: bool,
}

fn some_bucket_in(checks: &Vec<PullRequestCheck>, a: &str, b: &str) -> (r: bool)
    ensures
        r == exists|i: int|
            0 <= i < checks@.len() && (bucket_is(#[trigger] checks@[i], a@) || bucket_is(checks@[i], b@)),
{
    let mut i: usize = 0;
    while i < checks.len()
        invariant
            i <= checks@.len(),
            forall|k: int| 0 <= k < i ==> !(bucket_is(#[trigger] checks@[k], a@) || bucket_is(checks@[k], b@)),
        decreases checks@.len() - i,
    {
        if option_is(&checks[i].bucket, a) || option_is(&checks[i].bucket, b) {
            assert(bucket_is(checks@[i as int], a@) || bucket_is(checks@[i as int], b@));
            return true;
        }
        i = i + 1;
    }
    false
}

fn some_state_running(checks: &Vec<PullRequestCheck>) -> (r: bool)
    ensures
        r == some_check_running(checks@),
{
    let mut i: usize = 0;
    while i < checks.len()
        invariant
            i <= checks@.len(),
            forall|k: int|
                0 <= k < i ==> !(check_state_is(#[trigger] checks@[k], "PENDING"@) || check_state_is(
                    checks@[k],
                    "IN_PROGRESS"@,
                ) || check_state_is(checks@[k], "QUEUED"@)),
        decreases checks@.len() - i,
    {
        let c = &checks[i];
        if option_is(&c.state, "PENDING") || option_is(&c.state, "IN_PROGRESS") || option_is(
            &c.state,
            "QUEUED",
        ) {
            assert(check_state_is(checks@[i as int], "PENDING"@) || check_state_is(
                checks@[i as int],
                "IN_PROGRESS"@,
            ) || check_state_is(checks@[i as int], "QUEUED"@));
            return true;
        }
        i = i + 1;
    }
    false
}

fn every_bucket_passed(checks: &Vec<PullRequestCheck>) -> (r: bool)
    ensures
        r == all_checks_passed(checks@),
{
    let mut i: usize = 0;
    while i < checks.len()
        invariant
            i <= checks@.len(),
            forall|k: int|
                0 <= k < i ==> bucket_is(#[trigger] checks@[k], "pass"@) || bucket_is(
                    checks@[k],
                    "skipping"@,
                ),
        decreases checks@.len() - i,
    {
        if !(option_is(&checks[i].bucket, "pass") || option_is(&checks[i].bucket, "skipping")) {
            assert(!(bucket_is(checks@[i as int], "pass"@) || bucket_is(checks@[i as int], "skipping"@)));
            return false;
        }
        i = i + 1;
    }
    true
}

fn review_login(review: &PullRequestReview) -> (r: Option<&str>)
    ensures
        match r {
            Some(l) => login_of(*review) == Some(l@),
            None => login_of(*review) is None,
        },
{
    match &review.user {
        Some(u) => match &u.login {
            Some(l) => Some(l.as_str()),
            None => None,
        },
        None => None,
    }
}

fn review_is_latest(reviews: &Vec<PullRequestReview>, i: usize) -> (r: bool)
    requires
        i < reviews@.len(),
    ensures
        r == is_latest_review(reviews@, i as int),
{
    let login = match review_login(&reviews[i]) {
        Some(l) => l,
        None => return false,
    };
    let n = reviews.len();
    let mut j: usize = i + 1;
    while j < reviews.len()
        invariant
            i < j <= reviews@.len(),
            login_of(reviews@[i as int]) == Some(login@),
            forall|k: int| i < k < j ==> login_of(#[trigger] reviews@[k]) != login_of(reviews@[i as int]),
        decreases reviews@.len() - j,
    {
        match review_login(&reviews[j]) {
            Some(other) => {
                if same_text(other, login) {
                    return false;
                }
            },
            None => {},
        }
        j = j + 1;
    }
    true
}

fn some_latest_state(reviews: &Vec<PullRequestReview>, state: &str) -> (r: bool)
    ensures
        r == some_latest_review_is(reviews@, state@),
{
    let mut i: usize = 0;
    while i < reviews.len()
        invariant
            i <= reviews@.len(),
            forall|k: int|
                0 <= k < i ==> !(#[trigger] is_latest_review(reviews@, k) && option_view(reviews@[k].state)
                    == Some(state@)),
        decreases reviews@.len() - i,
    {
        if review_is_latest(reviews, i) && option_is(&reviews[i].state, state) {
            assert(is_latest_review(reviews@, i as int) && option_view(reviews@[i as int].state) == Some(state@));
            return true;
        }
        i = i + 1;
    }
    proof {
        assert forall|k: int| #[trigger] is_latest_review(reviews@, k) implies option_view(reviews@[k].state) != Some(state@) by {
            assert(0 <= k < reviews@.len());
        }
    }
    false
}

fn some_author(reviews: &Vec<PullRequestReview>) -> (r: bool)
    ensures
        r == some_review_has_author(reviews@),
{
    let mut i: usize = 0;
    while i < reviews.len()
        invariant
            i <= reviews@.len(),
            forall|k: int| 0 <= k < i ==> login_of(#[trigger] reviews@[k]) is None,
        decreases reviews@.len() - i,
    {
        if review_login(&reviews[i]).is_some() {
            assert(login_of(reviews@[i as int]) is Some);
            return true;
        }
        i = i + 1;
    }
    false
}

fn gh_command(args: Vec<String>, allowed_exit_codes: Vec<i32>) -> (c: GhCommand)
    ensures
        c.program@ == "gh"@,
        c.args == args,
        c.allowed_exit_codes == allowed_exit_codes,
{
    GhCommand { program: "gh".to_owned(), args, allowed_exit_codes }
}

impl GitHubClient {
    pub fn new(verbose: bool) -> (c: GitHubClient)
        ensures
            c.spec_verbose() == verbose,
    {
        GitHubClient { verbose }
    }

    pub closed spec fn spec_verbose(&self) -> bool {
        self.verbose
    }

    /// Whether each command is echoed before it runs.
    pub fn verbose(&self) -> (v: bool)
        ensures
            v == self.spec_verbose(),
    {
        self.verbose
    }

    /// The command that lists the user's open pull requests.
    pub fn search_pull_requests_command(&self) -> (c: GhCommand)
        ensures
            c.program@ == "gh"@,
            c.args@.len() == 6,
            c.args@[0]@ == "search"@,
            c.args@[1]@ == "prs"@,
            c.args@[2]@ == "--author=@me"@,
            c.args@[3]@ == "--state=open"@,
            c.args@[4]@ == "--json"@,
            c.args@[5]@ == "number,title,url,repository"@,
            c.allowed_exit_codes@ == seq![0i32],
    {
        let mut args: Vec<String> = Vec::new();
        args.push("search".to_owned());
        args.push("prs".to_owned());
        args.push("--author=@me".to_owned());
        args.push("--state=open".to_owned());
        args.push("--json".to_owned());
        args.push("number,title,url,repository".to_owned());
        let mut codes: Vec<i32> = Vec::new();
        codes.push(0);
        assert(codes@ =~= seq![0i32]);
        gh_command(args, codes)
    }

    /// The command that reads the head branch of pull request `number` of `repo`.
    pub fn head_ref_command(&self, repo: &str, number: u64) -> (c: GhCommand)
        ensures
            c.program@ == "gh"@,
            c.args@.len() == 7,
            c.args@[0]@ == "pr"@,
            c.args@[1]@ == "view"@,
            c.args@[2]@ == decimal(number as nat),
            c.args@[3]@ == "-R"@,
            c.args@[4]@ == repo@,
            c.args@[5]@ == "--json"@,
            c.args@[6]@ == "headRefName"@,
            c.allowed_exit_codes@ == seq![0i32],
    {
        let mut args: Vec<String> = Vec::new();
        args.push("pr".to_owned());
        args.push("view".to_owned());
        let mut n = String::new();
        push_decimal(&mut n, number);
        args.push(n);
        args.push("-R".to_owned());
        args.push(repo.to_owned());
        args.push("--json".to_owned());
        args.push("headRefName".to_owned());
        let mut codes: Vec<i32> = Vec::new();
        codes.push(0);
        assert(codes@ =~= seq![0i32]);
        gh_command(args, codes)
    }

    /// The command that lists the CI checks of a pull request; exit code 8 (checks pending)
    /// counts as success.
    pub fn checks_command(&self, pr: &PullRequest) -> (c: GhCommand)
        ensures
            c.program@ == "gh"@,
            c.args@.len() == 7,
            c.args@[0]@ == "pr"@,
            c.args@[1]@ == "checks"@,
            c.args@[2]@ == decimal(pr.number as nat),
            c.args@[3]@ == "-R"@,
            c.args@[4]@ == pr.repo@,
            c.args@[5]@ == "--json"@,
            c.args@[6]@ == "bucket,state"@,
            c.allowed_exit_codes@ == seq![0i32, 8i32],
    {
        let mut args: Vec<String> = Vec::new();
        args.push("pr".to_owned());
        args.push("checks".to_owned());
        let mut n = String::new();
        push_decimal(&mut n, pr.number);
        args.push(n);
        args.push("-R".to_owned());
        args.push(pr.repo.clone());
        args.push("--json".to_owned());
        args.push("bucket,state".to_owned());
        let mut codes: Vec<i32> = Vec::new();
        codes.push(0);
        codes.push(8);
        assert(codes@ =~= seq![0i32, 8i32]);
        gh_command(args, codes)
    }

    /// The command that lists the reviews of a pull request.
    pub fn reviews_command(&self, pr: &PullRequest) -> (c: GhCommand)
        ensures
            c.program@ == "gh"@,
            c.args@.len() == 2,
            c.args@[0]@ == "api"@,
            c.args@[1]@ == "repos/"@ + pr.repo@ + "/pulls/"@ + decimal(pr.number as nat)
                + "/reviews"@,
            c.allowed_exit_codes@ == seq![0i32],
    {
        let mut args: Vec<String> = Vec::new();
        args.push("api".to_owned());
        let mut path = "repos/".to_owned();
        path.append(pr.repo.as_str());
        path.append("/pulls/");
        push_decimal(&mut path, pr.number);
        path.append("/reviews");
        args.push(path);
        let mut codes: Vec<i32> = Vec::new();
        codes.push(0);
        assert(codes@ =~= seq![0i32]);
        gh_command(args, codes)
    }

    /// The CI state of a pull request from the checks that `checks_command` lists.
    pub fn pull_request_checks(&self, checks: &Vec<PullRequestCheck>) -> (s: CiStatus)
        ensures
            s == spec_ci_status(checks@),
    {
        if checks.len() == 0 {
            return CiStatus::NoChecks;
        }
        if some_bucket_in(checks, "fail", "cancel") {
            return CiStatus::Failed;
        }
        if some_bucket_in(checks, "pending", "pending") {
            return CiStatus::Pending;
        }
        if every_bucket_passed(checks) {
            return CiStatus::Passed;
        }
        if some_state_running(checks) {
            return CiStatus::Pending;
        }
        CiStatus::Failed
    }

    /// The review state of a pull request from the reviews that `reviews_command` lists.
    pub fn pull_request_review_status(&self, reviews: &Vec<PullRequestReview>) -> (s: ReviewStatus)
        ensures
            s == spec_review_status(reviews@),
    {
        if reviews.len() == 0 {
            return ReviewStatus::NoReviews;
        }
        if !some_author(reviews) {
            return ReviewStatus::Pending;
        }
        if some_latest_state(reviews, "CHANGES_REQUESTED") {
            return ReviewStatus::ChangesRequested;
        }
        if some_latest_state(reviews, "APPROVED") {
            return ReviewStatus::Approved;
        }
        ReviewStatus::Pending
    }
}

/// A failed or cancelled check always fails CI, whatever the other checks say.
pub proof fn lemma_failed_check_fails_ci(checks: Seq<PullRequestCheck>, i: int)
    requires
        0 <= i < checks.len(),
        bucket_is(checks[i], "fail"@) || bucket_is(checks[i], "cancel"@),
    ensures
        spec_ci_status(checks) == CiStatus::Failed,
{
}

/// An author whose last review requests changes keeps the pull request at "changes
/// requested", whatever reviews other authors leave after it (approvals included), and
/// whatever came before it.
pub proof fn lemma_request_for_changes_stands_against_other_authors(
    before: Seq<PullRequestReview>,
    request: PullRequestReview,
    after: Seq<PullRequestReview>,
)
    requires
        login_of(request) is Some,
        option_view(request.state) == Some("CHANGES_REQUESTED"@),
        forall|k: int| 0 <= k < after.len() ==> login_of(#[trigger] after[k]) != login_of(request),
    ensures
        spec_review_status(before.push(request) + after) == ReviewStatus::ChangesRequested,
{
    let reviews = before.push(request) + after;
    let i = before.len() as int;
    assert(reviews[i] == request);
    assert forall|j: int| i < j < reviews.len() implies login_of(#[trigger] reviews[j]) != login_of(reviews[i]) by {
        assert(reviews[j] == after[j - i - 1]);
    }
    assert(is_latest_review(reviews, i));
    assert(some_review_has_author(reviews));
    assert(some_latest_review_is(reviews, "CHANGES_REQUESTED"@));
}

/// When every review with an author approves, the pull request is approved.
pub proof fn lemma_unanimous_approval_approves(reviews: Seq<PullRequestReview>)
    requires
        exists|k: int| 0 <= k < reviews.len() && login_of(#[trigger] reviews[k]) is Some,
        forall|k: int|
            0 <= k < reviews.len() && login_of(#[trigger] reviews[k]) is Some ==> option_view(
                reviews[k].state,
            ) == Some("APPROVED"@),
    ensures
        spec_review_status(reviews) == ReviewStatus::Approved,
{
    let i = lemma_some_review_is_latest(reviews);
    assert(some_review_has_author(reviews));
    assert(some_latest_review_is(reviews, "APPROVED"@));
    assert("APPROVED"@ != "CHANGES_REQUESTED"@) by {
        reveal_strlit("APPROVED");
        reveal_strlit("CHANGES_REQUESTED");
        assert("APPROVED"@.len() != "CHANGES_REQUESTED"@.len());
    }
    assert(!some_latest_review_is(reviews, "CHANGES_REQUESTED"@));
}

/// When some review has an author, the last such review is its author's latest.
proof fn lemma_some_review_is_latest(reviews: Seq<PullRequestReview>) -> (i: int)
    requires
        exists|k: int| 0 <= k < reviews.len() && login_of(#[trigger] reviews[k]) is Some,
    ensures
        is_latest_review(reviews, i),
    decreases reviews.len(),
{
    let last = reviews.len() - 1;
    if login_of(reviews[last]) is Some {
        last
    } else {
        let prefix = reviews.drop_last();
        let k = choose|k: int| 0 <= k < reviews.len() && login_of(#[trigger] reviews[k]) is Some;
        assert(prefix[k] == reviews[k]);
        let i = lemma_some_review_is_latest(prefix);
        assert forall|j: int| i < j < reviews.len() implies login_of(#[trigger] reviews[j]) != login_of(reviews[i]) by {
            if j < last {
                assert(prefix[j] == reviews[j]);
            }
        }
        i
    }
}

/// Only an author's latest review counts: a later review by the same author replaces an
/// earlier one that requested changes.
pub proof fn lemma_only_latest_review_counts(reviews: Seq<PullRequestReview>, i: int, j: int)
    requires
        0 <= i < j < reviews.len(),
        login_of(reviews[i]) is Some,
        login_of(reviews[i]) == login_of(reviews[j]),
    ensures
        !is_latest_review(reviews, i),
{
}

} // verus!
