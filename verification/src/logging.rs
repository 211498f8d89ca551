use vstd::prelude::*;

use crate::cli::LogLevelArg;
use crate::text::same_text;

verus! {

/// The level of a log row.
#[derive(Debug, Clone, Copy, PartialEq, Eq, Structural)]
pub enum LogLevel {
    Info,
    Warn,
    Error,
}

impl LogLevel {
    /// The name under which a level is stored.
    pub open spec fn name(self) -> Seq<char> {
        match self {
            LogLevel::Info => "info"@,
            LogLevel::Warn => "warn"@,
            LogLevel::Error => "error"@,
        }
    }

    pub fn as_str(self) -> (s: &'static str)
        ensures
            s@ == self.name(),
    {
        match self {
            LogLevel::Info => "info",
            LogLevel::Warn => "warn",
            LogLevel::Error => "error",
        }
    }

    /// The level that a stored name reads back as: `info` and `warn` as themselves, any other
    /// name as an error.
    pub open spec fn spec_from_stored(stored: Seq<char>) -> LogLevel {
        if stored == "info"@ {
            LogLevel::Info
        } else if stored == "warn"@ {
            LogLevel::Warn
        } else {
            LogLevel::Error
        }
    }

    pub fn from_stored(stored: &str) -> (l: LogLevel)
        ensures
            l == LogLevel::spec_from_stored(stored@),
    {
        if same_text(stored, "info") {
            LogLevel::Info
        } else if same_text(stored, "warn") {
            LogLevel::Warn
        } else {
            LogLevel::Error
        }
    }
}

/// A level reads back as the level that was stored.
pub proof fn lemma_stored_level_reads_back(level: LogLevel)
    ensures
        LogLevel::spec_from_stored(level.name()) == level,
{
    reveal_strlit("info");
    reveal_strlit("warn");
    reveal_strlit("error");
    if level == LogLevel::Error {
        assert(level.name()[0] != "info"@[0]);
        assert(level.name()[0] != "warn"@[0]);
    }
    if level == LogLevel::Warn {
        assert(level.name()[0] != "info"@[0]);
    }
}

impl From<LogLevelArg> for LogLevel {
    fn from(value: LogLevelArg) -> (l: LogLevel) {
        match value {
            LogLevelArg::Info => LogLevel::Info,
            LogLevelArg::Warn => LogLevel::Warn,
            LogLevelArg::Error => LogLevel::Error,
        }
    }
}

impl vstd::std_specs::convert::FromSpecImpl<LogLevelArg> for LogLevel {
    open spec fn obeys_from_spec() -> bool {
        true
    }

    open spec fn from_spec(value: LogLevelArg) -> LogLevel {
        match value {
            LogLevelArg::Info => LogLevel::Info,
            LogLevelArg::Warn => LogLevel::Warn,
            LogLevelArg::Error => LogLevel::Error,
        }
    }
}

/// A log row to record, borrowing its text.
#[derive(Debug, Clone)]
pub struct NewLogEntry<'a> {
    pub level: LogLevel,
    pub run_id: Option<i64>,
    pub repo: Option<&'a str>,
    pub pr_number: Option<u64>,
    pub action: &'a str,
    pub message: &'a str,
}

/// A log row to record, owning its text.
#[derive(Debug, Clone)]
pub struct LogRecord {
    pub level: LogLevel,
    pub run_id: Option<i64>,
    pub repo: Option<String>,
    pub pr_number: Option<u64>,
    pub action: String,
    pub message: String,
}

/// The mathematical value of a log row.
pub struct LogRecordView {
    pub level: LogLevel,
    pub run_id: Option<i64>,
    pub repo: Option<Seq<char>>,
    pub pr_number: Option<u64>,
    pub action: Seq<char>,
    pub message: Seq<char>,
}

impl View for LogRecord {
    type V = LogRecordView;

    open spec fn view(&self) -> LogRecordView {
        LogRecordView {
            level: self.level,
            run_id: self.run_id,
            repo: match self.repo {
                Some(r) => Some(r@),
                None => None,
            },
            pr_number: self.pr_number,
            action: self.action@,
            message: self.message@,
        }
    }
}

impl LogRecord {
    /// The row as the logger records it.
    pub fn as_entry(&self) -> (e: NewLogEntry<'_>)
        ensures
            e.level == self.level,
            e.run_id == self.run_id,
            e.pr_number == self.pr_number,
            e.action@ == self.action@,
            e.message@ == self.message@,
            match (e.repo, self.repo) {
                (Some(a), Some(b)) => a@ == b@,
                (None, None) => true,
                _ => false,
            },
    {
        NewLogEntry {
            level: self.level,
            run_id: self.run_id,
            repo: match &self.repo {
                Some(r) => Some(r.as_str()),
                None => None,
            },
            pr_number: self.pr_number,
            action: self.action.as_str(),
            message: self.message.as_str(),
        }
    }
}

/// How long a running run has been seen without an open pull request.
#[derive(Debug, Clone, Copy, PartialEq, Eq, Structural)]
pub struct StaleTracker {
    pub cycles: u32,
    pub notified: bool,
}

impl StaleTracker {
    /// The tracker after one more stale cycle, given the stored cycle count and whether the
    /// long-running notification went out: a run seen for the first time starts at one cycle.
    pub fn after_bump(existing: Option<(u32, bool)>) -> (t: StaleTracker)
        requires
            existing matches Some((cycles, _)) ==> cycles < u32::MAX,
        ensures
            t == bumped(existing),
    {
        match existing {
            Some((cycles, notified)) => StaleTracker { cycles: cycles + 1, notified },
            None => StaleTracker { cycles: 1, notified: false },
        }
    }
}

/// Log rows read newest first, put oldest first.
pub fn oldest_first<T>(rows: Vec<T>) -> (r: Vec<T>)
    ensures
        r@ == rows@.reverse(),
{
    let mut rest = rows;
    let mut r: Vec<T> = Vec::new();
    while rest.len() > 0
        invariant
            r@ + rest@.reverse() == rows@.reverse(),
        decreases rest.len(),
    {
        let ghost before = rest@;
        let row = rest.pop().unwrap();
        proof {
            assert(before.reverse() =~= seq![row] + rest@.reverse());
            assert(r@.push(row) + rest@.reverse() =~= r@ + before.reverse());
        }
        r.push(row);
    }
    proof {
        assert(rest@.reverse() =~= Seq::<T>::empty());
        assert(r@ =~= r@ + rest@.reverse());
    }
    r
}

/// The tracker after one more stale cycle, from the stored cycle count and notice flag.
pub open spec fn bumped(existing: Option<(u32, bool)>) -> StaleTracker {
    match existing {
        Some((cycles, notified)) => StaleTracker { cycles: (cycles + 1) as u32, notified },
        None => StaleTracker { cycles: 1, notified: false },
    }
}

/// A change to the stored stale-cycle row of one run.
pub enum StaleRowChange {
    /// One more stale cycle is counted.
    Bump,
    /// The long-running notice is recorded as sent; without a row this changes nothing.
    MarkNotified,
}

/// The stored row (cycle count, notice sent) of a run after `changes`, starting from no row,
/// as after the row was cleared.
pub open spec fn stale_row_after(changes: Seq<StaleRowChange>) -> Option<(u32, bool)>
    decreases changes.len(),
{
    if changes.len() == 0 {
        None
    } else {
        let before = stale_row_after(changes.drop_last());
        match changes.last() {
            StaleRowChange::Bump => {
                let t = bumped(before);
                Some((t.cycles, t.notified))
            },
            StaleRowChange::MarkNotified => match before {
                Some((cycles, _)) => Some((cycles, true)),
                None => None,
            },
        }
    }
}

/// The number of bumps among `changes`.
pub open spec fn bump_count(changes: Seq<StaleRowChange>) -> nat
    decreases changes.len(),
{
    if changes.len() == 0 {
        0
    } else {
        bump_count(changes.drop_last()) + if changes.last() is Bump { 1nat } else { 0nat }
    }
}

/// Whether the notice was recorded after the first bump.
pub open spec fn marked_after_bump(changes: Seq<StaleRowChange>) -> bool {
    exists|i: int, j: int|
        0 <= i < j < changes.len() && #[trigger] changes[i] is Bump && #[trigger] changes[j] is MarkNotified
}

/// After a run's row is cleared, its bumps and notice marks build it up again: with `k` bumps
/// so far the row counts `k` cycles, and it records the notice exactly when a mark came after
/// the first bump; before any bump there is no row. So the `k`-th bump gives a tracker of `k`
/// cycles.
pub proof fn lemma_stale_row_series(changes: Seq<StaleRowChange>)
    requires
        bump_count(changes) <= u32::MAX,
    ensures
        bump_count(changes) == 0 ==> stale_row_after(changes) is None,
        bump_count(changes) > 0 ==> stale_row_after(changes) == Some(
            (bump_count(changes) as u32, marked_after_bump(changes)),
        ),
        changes.len() > 0 && changes.last() is Bump ==> bumped(stale_row_after(changes.drop_last()))
            == (StaleTracker { cycles: bump_count(changes) as u32, notified: marked_after_bump(changes) }),
    decreases changes.len(),
{
    if changes.len() > 0 {
        let prefix = changes.drop_last();
        lemma_stale_row_series(prefix);
        if bump_count(prefix) > 0 {
            assert(marked_after_bump(changes) == (marked_after_bump(prefix) || changes.last() is MarkNotified)) by {
                if marked_after_bump(prefix) {
                    let (i, j) = choose|i: int, j: int|
                        0 <= i < j < prefix.len() && #[trigger] prefix[i] is Bump && #[trigger] prefix[j] is MarkNotified;
                    assert(changes[i] is Bump && changes[j] is MarkNotified);
                }
                if changes.last() is MarkNotified {
                    lemma_first_bump(prefix);
                    let i = choose|i: int| 0 <= i < prefix.len() && #[trigger] prefix[i] is Bump;
                    assert(changes[i] is Bump && changes[changes.len() - 1] is MarkNotified);
                }
                if marked_after_bump(changes) {
                    let (i, j) = choose|i: int, j: int|
                        0 <= i < j < changes.len() && #[trigger] changes[i] is Bump && #[trigger] changes[j] is MarkNotified;
                    if j < changes.len() - 1 {
                        assert(prefix[i] is Bump && prefix[j] is MarkNotified);
                    }
                }
            }
        } else {
            assert(!marked_after_bump(changes)) by {
                lemma_no_bump(prefix);
                if marked_after_bump(changes) {
                    let (i, j) = choose|i: int, j: int|
                        0 <= i < j < changes.len() && #[trigger] changes[i] is Bump && #[trigger] changes[j] is MarkNotified;
                    assert(prefix[i] is Bump);
                }
            }
        }
    }
}

proof fn lemma_first_bump(changes: Seq<StaleRowChange>)
    requires
        bump_count(changes) > 0,
    ensures
        exists|i: int| 0 <= i < changes.len() && #[trigger] changes[i] is Bump,
    decreases changes.len(),
{
    let prefix = changes.drop_last();
    if changes.last() is Bump {
        assert(changes[changes.len() - 1] is Bump);
    } else {
        lemma_first_bump(prefix);
        let i = choose|i: int| 0 <= i < prefix.len() && #[trigger] prefix[i] is Bump;
        assert(changes[i] is Bump);
    }
}

proof fn lemma_no_bump(changes: Seq<StaleRowChange>)
    requires
        bump_count(changes) == 0,
    ensures
        forall|i: int| 0 <= i < changes.len() ==> !(#[trigger] changes[i] is Bump),
    decreases changes.len(),
{
    if changes.len() > 0 {
        let prefix = changes.drop_last();
        lemma_no_bump(prefix);
        assert forall|i: int| 0 <= i < changes.len() implies !(#[trigger] changes[i] is Bump) by {
            if i < prefix.len() {
                assert(changes[i] == prefix[i]);
            }
        }
    }
}

/// The number of log rows that a rotation keeps: the limit, but never more than 4000.
pub open spec fn rows_kept_after_rotation(max_rows: u32) -> int {
    if max_rows < 4000 {
        max_rows as int
    } else {
        4000
    }
}

/// How many of the oldest log rows to delete when the log holds `total_rows` rows and may
/// hold `max_rows`: none while it is within the limit; otherwise as many as leave the
/// limit, or 4000 rows when the limit is higher.
pub fn rows_to_rotate(total_rows: i64, max_rows: u32) -> (r: Option<i64>)
    ensures
        total_rows <= max_rows ==> r is None,
        total_rows > max_rows ==> r == Some((total_rows - rows_kept_after_rotation(max_rows)) as i64),
        r matches Some(n) ==> 0 < n <= total_rows && total_rows - n <= max_rows,
{
    if total_rows <= max_rows as i64 {
        None
    } else if max_rows < 4000 {
        Some(total_rows - max_rows as i64)
    } else {
        Some(total_rows - 4000)
    }
}

} // verus!
