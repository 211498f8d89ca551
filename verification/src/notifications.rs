use vstd::prelude::*;

use crate::decision::FailureKind;
use crate::github::PullRequest;
use crate::models::DrydockRun;
use crate::text::{decimal, push_decimal, push_signed_decimal, signed_decimal};

verus! {

/// Why a notification could not be handed out.
#[derive(Debug, Clone, Copy, PartialEq, Eq, Structural)]
pub enum NotifyError {
    /// Notifications are to be sent but no Telegram target is configured.
    MissingTarget,
}

impl NotifyError {
    pub fn message(self) -> (s: &'static str)
        ensures
            s@ == "notifications.telegram_target is not configured"@,
    {
        "notifications.telegram_target is not configured"
    }
}

/// A notification message, and the Telegram target to deliver it to; no target in a dry run,
/// where nothing is sent.
#[derive(Debug, Clone)]
pub struct Notification {
    pub message: String,
    pub deliver_to: Option<String>,
}

/// The mathematical value of a `Notification`.
pub struct NotificationView {
    pub message: Seq<char>,
    pub deliver_to: Option<Seq<char>>,
}

impl View for Notification {
    type V = NotificationView;

    open spec fn view(&self) -> NotificationView {
        NotificationView {
            message: self.message@,
            deliver_to: match self.deliver_to {
                Some(t) => Some(t@),
                None => None,
            },
        }
    }
}

/// The mathematical value of the outcome of a notification.
pub open spec fn notify_outcome_view(r: Result<Notification, NotifyError>) -> Result<
    NotificationView,
    NotifyError,
> {
    match r {
        Ok(n) => Ok(n@),
        Err(e) => Err(e),
    }
}

/// Builds the Telegram notifications of a check cycle.
#[derive(Debug, Clone)]
pub struct Notifier {
    target: Option<String>,
    verbose: bool,
}

/// The message that a pull request is ready for review.
pub open spec fn ready_for_review_message(pr: PullRequest) -> Seq<char> {
    "✅ PR ready for review: "@ + pr.repo@ + " #"@ + decimal(pr.number as nat) + " — "@
        + pr.title@ + "\n   "@ + pr.url@
}

/// The name of a failure kind in notifications.
pub open spec fn failure_name(failure: FailureKind) -> Seq<char> {
    match failure {
        FailureKind::Ci => "ci"@,
        FailureKind::Reviews => "reviews"@,
    }
}

/// The message that a run has used up its nudges.
pub open spec fn retry_limit_message(pr: PullRequest, attempts: u32, failure: FailureKind) -> Seq<
    char,
> {
    "🔴 Retry limit reached: "@ + pr.repo@ + " #"@ + decimal(pr.number as nat) + " — "@
        + pr.title@ + "\n   "@ + pr.url@ + " ("@ + decimal(attempts as nat)
        + " attempts, last failure: "@ + failure_name(failure) + ")"@
}

/// The title under which a run's item is named in notifications.
pub open spec fn item_title_view(run: DrydockRun) -> Seq<char> {
    match run.item_title {
        Some(t) => t@,
        None => "unknown item"@,
    }
}

/// The message that a run's session is gone and it has no pull request.
pub open spec fn stale_run_message(run: DrydockRun) -> Seq<char> {
    "⚠️ Stale run: \""@ + item_title_view(run) + "\" (run #"@ + signed_decimal(run.id as int)
        + ") — session dead, no PR found"@
}

/// The message that a run's session is alive but it has no pull request yet.
pub open spec fn long_running_message(run: DrydockRun) -> Seq<char> {
    "⏳ Long-running: \""@ + item_title_view(run) + "\" (run #"@ + signed_decimal(run.id as int)
        + ") — session active, no PR after 45min"@
}

/// The message that the agent session of a pull request's run cannot be reached.
pub open spec fn session_unavailable_message(pr: PullRequest) -> Seq<char> {
    "🔴 Agent session unavailable: "@ + pr.repo@ + " #"@ + decimal(pr.number as nat)
        + " — "@ + pr.title@ + "\n   "@ + pr.url@
}

fn item_title(run: &DrydockRun) -> (t: &str)
    ensures
        t@ == item_title_view(*run),
{
    match &run.item_title {
        Some(t) => t.as_str(),
        None => "unknown item",
    }
}

impl Notifier {
    pub fn new(target: Option<String>, verbose: bool) -> (n: Notifier)
        ensures
            n.target_view() == match target {
                Some(t) => Some(t@),
                None => None::<Seq<char>>,
            },
            n.spec_verbose() == verbose,
    {
        Notifier { target, verbose }
    }

    /// The configured Telegram target.
    pub closed spec fn target_view(&self) -> Option<Seq<char>> {
        match self.target {
            Some(t) => Some(t@),
            None => None,
        }
    }

    pub closed spec fn spec_verbose(&self) -> bool {
        self.verbose
    }

    pub fn verbose(&self) -> (v: bool)
        ensures
            v == self.spec_verbose(),
    {
        self.verbose
    }

    /// What sending `message` comes to: in a dry run nothing is delivered; otherwise the
    /// message goes to the configured target, and without one sending fails.
    pub open spec fn spec_send(&self, message: Seq<char>, dry_run: bool) -> Result<
        NotificationView,
        NotifyError,
    > {
        if dry_run {
            Ok(NotificationView { message, deliver_to: None })
        } else {
            match self.target_view() {
                Some(t) => Ok(NotificationView { message, deliver_to: Some(t) }),
                None => Err(NotifyError::MissingTarget),
            }
        }
    }

    fn send(&self, message: String, dry_run: bool) -> (r: Result<Notification, NotifyError>)
        ensures
            notify_outcome_view(r) == self.spec_send(message@, dry_run),
    {
        if dry_run {
            return Ok(Notification { message, deliver_to: None });
        }
        match &self.target {
            Some(t) => Ok(Notification { message, deliver_to: Some(t.clone()) }),
            None => Err(NotifyError::MissingTarget),
        }
    }

    pub fn ready_for_review(&self, pr: &PullRequest, dry_run: bool) -> (r: Result<
        Notification,
        NotifyError,
    >)
        ensures
            notify_outcome_view(r) == self.spec_send(ready_for_review_message(*pr), dry_run),
    {
        let mut message = String::new();
        message.append("✅ PR ready for review: ");
        message.append(pr.repo.as_str());
        message.append(" #");
        push_decimal(&mut message, pr.number);
        message.append(" — ");
        message.append(pr.title.as_str());
        message.append("\n   ");
        message.append(pr.url.as_str());
        self.send(message, dry_run)
    }

    pub fn retry_limit_reached(
        &self,
        pr: &PullRequest,
        attempts: u32,
        failure: FailureKind,
        dry_run: bool,
    ) -> (r: Result<Notification, NotifyError>)
        ensures
            notify_outcome_view(r) == self.spec_send(
                retry_limit_message(*pr, attempts, failure),
                dry_run,
            ),
    {
        let failure_text = match failure {
            FailureKind::Ci => "ci",
            FailureKind::Reviews => "reviews",
        };
        let mut message = String::new();
        message.append("🔴 Retry limit reached: ");
        message.append(pr.repo.as_str());
        message.append(" #");
        push_decimal(&mut message, pr.number);
        message.append(" — ");
        message.append(pr.title.as_str());
        message.append("\n   ");
        message.append(pr.url.as_str());
        message.append(" (");
        push_decimal(&mut message, attempts as u64);
        message.append(" attempts, last failure: ");
        message.append(failure_text);
        message.append(")");
        self.send(message, dry_run)
    }

    pub fn stale_run(&self, run: &DrydockRun, dry_run: bool) -> (r: Result<
        Notification,
        NotifyError,
    >)
        ensures
            notify_outcome_view(r) == self.spec_send(stale_run_message(*run), dry_run),
    {
        let mut message = String::new();
        message.append("⚠️ Stale run: \"");
        message.append(item_title(run));
        message.append("\" (run #");
        push_signed_decimal(&mut message, run.id);
        message.append(") — session dead, no PR found");
        self.send(message, dry_run)
    }

    pub fn long_running(&self, run: &DrydockRun, dry_run: bool) -> (r: Result<
        Notification,
        NotifyError,
    >)
        ensures
            notify_outcome_view(r) == self.spec_send(long_running_message(*run), dry_run),
    {
        let mut message = String::new();
        message.append("⏳ Long-running: \"");
        message.append(item_title(run));
        message.append("\" (run #");
        push_signed_decimal(&mut message, run.id);
        message.append(") — session active, no PR after 45min");
        self.send(message, dry_run)
    }

    pub fn session_unavailable(&self, pr: &PullRequest, dry_run: bool) -> (r: Result<
        Notification,
        NotifyError,
    >)
        ensures
            notify_outcome_view(r) == self.spec_send(session_unavailable_message(*pr), dry_run),
    {
        let mut message = String::new();
        message.append("🔴 Agent session unavailable: ");
        message.append(pr.repo.as_str());
        message.append(" #");
        push_decimal(&mut message, pr.number);
        message.append(" — ");
        message.append(pr.title.as_str());
        message.append("\n   ");
        message.append(pr.url.as_str());
        self.send(message, dry_run)
    }
}

/// In a dry run every notification is handed out and delivered to no one.
pub proof fn lemma_dry_run_delivers_nothing(notifier: Notifier, message: Seq<char>)
    ensures
        notifier.spec_send(message, true) == Ok::<NotificationView, NotifyError>(
            NotificationView { message, deliver_to: None },
        ),
{
}

/// The `openclaw` arguments that deliver `message` to Telegram target `target`.
pub open spec fn openclaw_command(target: Seq<char>, message: Seq<char>) -> Seq<Seq<char>> {
    seq!["message"@, "send"@, "--channel"@, "telegram"@, "--target"@, target, message]
}

/// The `openclaw` arguments that deliver a notification, or none when it goes to no one and
/// nothing is run.
pub open spec fn delivery_command(n: NotificationView) -> Option<Seq<Seq<char>>> {
    match n.deliver_to {
        Some(t) => Some(openclaw_command(t, n.message)),
        None => None,
    }
}

/// The mathematical value of a list of arguments, if there is one.
pub open spec fn args_view(args: Option<Vec<String>>) -> Option<Seq<Seq<char>>> {
    match args {
        Some(a) => Some(a@.map_values(|s: String| s@)),
        None => None,
    }
}

/// What sending comes to: a dry run hands the message out for no one, whatever the target,
/// so nothing is run; otherwise a missing target fails before anything is run, and with a
/// configured target `openclaw` is run once, with the target and the message.
pub proof fn lemma_send_outcomes(notifier: Notifier, message: Seq<char>, dry_run: bool)
    ensures
        dry_run ==> notifier.spec_send(message, dry_run) == Ok::<NotificationView, NotifyError>(
            NotificationView { message, deliver_to: None },
        ),
        dry_run ==> delivery_command(notifier.spec_send(message, dry_run)->Ok_0) is None,
        !dry_run && notifier.target_view() is None ==> notifier.spec_send(message, dry_run)
            == Err::<NotificationView, NotifyError>(NotifyError::MissingTarget),
        !dry_run && notifier.target_view() is Some ==> notifier.spec_send(message, dry_run)
            == Ok::<NotificationView, NotifyError>(
            NotificationView { message, deliver_to: notifier.target_view() },
        ),
        !dry_run && notifier.target_view() is Some ==> delivery_command(
            notifier.spec_send(message, dry_run)->Ok_0,
        ) == Some(openclaw_command(notifier.target_view()->0, message)),
{
}

/// The arguments of the `openclaw` command that delivers `message` to `target`.
pub fn openclaw_args(target: &str, message: &str) -> (args: Vec<String>)
    ensures
        args@.map_values(|s: String| s@) == openclaw_command(target@, message@),
{
    let mut args: Vec<String> = Vec::new();
    args.push("message".to_owned());
    args.push("send".to_owned());
    args.push("--channel".to_owned());
    args.push("telegram".to_owned());
    args.push("--target".to_owned());
    args.push(target.to_owned());
    args.push(message.to_owned());
    proof {
        assert(args@.map_values(|s: String| s@) =~= openclaw_command(target@, message@));
    }
    args
}

impl Notification {
    /// The `openclaw` arguments that deliver this notification, or none when it goes to no
    /// one (a dry run).
    pub fn delivery_args(&self) -> (r: Option<Vec<String>>)
        ensures
            args_view(r) == delivery_command(self@),
    {
        match &self.deliver_to {
            Some(target) => Some(openclaw_args(target.as_str(), self.message.as_str())),
            None => None,
        }
    }
}

} // verus!
