use vstd::prelude::*;

use crate::config::{join_path, joined_path};

verus! {

/// Whether a coding agent's session can still be prompted.
#[derive(Debug, Clone)]
pub enum SessionState {
    Alive { session_name: String },
    Closed,
}

/// The mathematical value of a session state.
pub enum SessionStateView {
    Alive { session_name: Seq<char> },
    Closed,
}

impl View for SessionState {
    type V = SessionStateView;

    open spec fn view(&self) -> SessionStateView {
        match self {
            SessionState::Alive { session_name } => SessionStateView::Alive {
                session_name: session_name@,
            },
            SessionState::Closed => SessionStateView::Closed,
        }
    }
}

/// The state of session `session_id` from its session file's `closed` and `name` entries: a
/// session marked closed is closed; any other is alive, under its name, or under its id when
/// it has no name.
pub fn session_state_from_file(closed: Option<bool>, name: Option<String>, session_id: &str) -> (s:
    SessionState)
    ensures
        s@ == (if closed == Some(true) {
            SessionStateView::Closed
        } else {
            SessionStateView::Alive {
                session_name: match name {
                    Some(n) => n@,
                    None => session_id@,
                },
            }
        }),
{
    if closed.unwrap_or(false) {
        SessionState::Closed
    } else {
        SessionState::Alive {
            session_name: match name {
                Some(n) => n,
                None => session_id.to_owned(),
            },
        }
    }
}

/// The name of the file, in the sessions directory, that describes session `session_id`.
pub fn session_file_name(session_id: &str) -> (f: String)
    ensures
        f@ == session_id@ + ".json"@,
{
    let mut f = session_id.to_owned();
    f.append(".json");
    f
}

/// The file, in the sessions directory, that describes session `session_id`.
pub fn session_file_path(sessions_dir: &str, session_id: &str) -> (p: String)
    ensures
        p@ == joined_path(sessions_dir@, session_id@ + ".json"@),
{
    let name = session_file_name(session_id);
    join_path(sessions_dir, name.as_str())
}

/// The arguments of the `acpx` command that sends `message` to session `session_name`.
pub fn nudge_args(session_name: &str, message: &str) -> (args: Vec<String>)
    ensures
        args@.len() == 5,
        args@[0]@ == "codex"@,
        args@[1]@ == "prompt"@,
        args@[2]@ == "--session"@,
        args@[3]@ == session_name@,
        args@[4]@ == message@,
{
    let mut args: Vec<String> = Vec::new();
    args.push("codex".to_owned());
    args.push("prompt".to_owned());
    args.push("--session".to_owned());
    args.push(session_name.to_owned());
    args.push(message.to_owned());
    args
}

} // verus!
