use vstd::prelude::*;

verus! {

/// The command-line options of `dogwatch`.
#[derive(Debug, Clone)]
pub struct Cli {
    /// Preview write actions without executing them.
    pub dry_run: bool,
    /// Enable verbose command logging.
    pub verbose: bool,
    /// Run a single cycle and exit.
    pub once: bool,
    pub command: Option<Command>,
}

/// The subcommands of `dogwatch`.
#[derive(Debug, Clone)]
pub enum Command {
    Check,
    Status,
    Logs(LogsArgs),
    Pause,
    Unpause,
}

/// The options of `dogwatch logs`.
#[derive(Debug, Clone, Copy, PartialEq, Eq, Structural)]
pub struct LogsArgs {
    /// Show the last N log rows.
    pub last: usize,
    /// Filter by Drydock run id.
    pub run_id: Option<i64>,
    /// Filter by log level.
    pub level: Option<LogLevelArg>,
}

/// A log level as given on the command line.
#[derive(Debug, Clone, Copy, PartialEq, Eq, Structural)]
pub enum LogLevelArg {
    Info,
    Warn,
    Error,
}

impl LogsArgs {
    /// The options when none is given: the last 50 rows, of every run and level.
    pub fn default_args() -> (a: LogsArgs)
        ensures
            a.last == 50,
            a.run_id is None,
            a.level is None,
    {
        LogsArgs { last: 50, run_id: None, level: None }
    }
}

impl Cli {
    /// The subcommand to run: `check` when none is given.
    pub fn selected_command(&self) -> (c: Command)
        ensures
            match self.command {
                Some(Command::Check) => c is Check,
                Some(Command::Status) => c is Status,
                Some(Command::Logs(args)) => c == Command::Logs(args),
                Some(Command::Pause) => c is Pause,
                Some(Command::Unpause) => c is Unpause,
                None => c is Check,
            },
    {
        match &self.command {
            Some(Command::Check) => Command::Check,
            Some(Command::Status) => Command::Status,
            Some(Command::Logs(args)) => Command::Logs(*args),
            Some(Command::Pause) => Command::Pause,
            Some(Command::Unpause) => Command::Unpause,
            None => Command::Check,
        }
    }
}

} // verus!
