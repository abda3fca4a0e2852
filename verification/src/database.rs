//! Stored records that are not edited in the console: the reserved objects and
//! actions, the log of operations, and the recordings of sessions.
use vstd::prelude::*;
use crate::models::{new_id, now_millis};
use crate::roles::spec_parse_uuid;
use crate::text::{chars_to_string, push_all, str_chars, str_eq_chars};

verus! {

broadcast use vstd::string::group_string_axioms;

/// Names that begin with `__` are reserved for these objects and actions.
pub const OBJ_LOGIN: &'static str = "__internal_object_login";

pub const OBJ_ADMIN: &'static str = "__internal_object_admin";

pub const ACT_SHELL: &'static str = "__internal_action_shell";

pub const ACT_PTY: &'static str = "__internal_action_pty";

pub const ACT_EXEC: &'static str = "__internal_action_exec";

pub const ACT_LOGIN: &'static str = "__internal_action_login";

pub const ACT_DIRECT_TCPIP: &'static str = "__internal_action_open_direct_tcpip";

/// The kind under which the reserved objects are recorded.
pub const INTERNAL_OBJECT_TYPE: &'static str = "__internal_object_type";

/// The kind under which the reserved actions are recorded.
pub const INTERNAL_ACTION_TYPE: &'static str = "__internal_action_type";

/// The ids given to the reserved objects and actions when the service was set up.
#[derive(Debug)]
pub struct InternalUuids {
    pub obj_login: String,
    pub obj_admin: String,
    pub act_shell: String,
    pub act_pty: String,
    pub act_exec: String,
    pub act_login: String,
    pub act_direct_tcpip: String,
}

/// The id of the reserved action with that name, if it is one.
pub open spec fn action_id(ids: InternalUuids, name: Seq<char>) -> Option<String> {
    if name == "__internal_action_shell"@ {
        Some(ids.act_shell)
    } else if name == "__internal_action_pty"@ {
        Some(ids.act_pty)
    } else if name == "__internal_action_exec"@ {
        Some(ids.act_exec)
    } else if name == "__internal_action_login"@ {
        Some(ids.act_login)
    } else if name == "__internal_action_open_direct_tcpip"@ {
        Some(ids.act_direct_tcpip)
    } else {
        None
    }
}

impl InternalUuids {
    /// The id of the reserved action named `action_name`, or `None` for any other name.
    pub fn action_uuid(&self, action_name: &str) -> (r: Option<String>)
        ensures
            r == action_id(*self, action_name@),
    {
        proof {
            reveal_strlit("__internal_action_shell");
            reveal_strlit("__internal_action_pty");
            reveal_strlit("__internal_action_exec");
            reveal_strlit("__internal_action_login");
            reveal_strlit("__internal_action_open_direct_tcpip");
        }
        if str_eq_chars(action_name, &str_chars(ACT_SHELL)) {
            Some(self.act_shell.clone())
        } else if str_eq_chars(action_name, &str_chars(ACT_PTY)) {
            Some(self.act_pty.clone())
        } else if str_eq_chars(action_name, &str_chars(ACT_EXEC)) {
            Some(self.act_exec.clone())
        } else if str_eq_chars(action_name, &str_chars(ACT_LOGIN)) {
            Some(self.act_login.clone())
        } else if str_eq_chars(action_name, &str_chars(ACT_DIRECT_TCPIP)) {
            Some(self.act_direct_tcpip.clone())
        } else {
            None
        }
    }
}

/// A successful operation of a user, as logged.
#[derive(Debug)]
pub struct Log {
    pub connection_id: String,
    pub log_type: String,
    pub user_id: String,
    pub detail: String,
    pub created_at: i64,
}

/// The metadata of a recorded session.
#[derive(Debug)]
pub struct SessionRecording {
    pub id: String,
    pub user_id: String,
    pub target_id: String,
    pub secret_id: String,
    pub file_path: String,
    pub started_at: i64,
    pub ended_at: Option<i64>,
    pub connection_id: String,
    pub status: String,
}

/// A recording as listed to its user: who, through which target account, when, and
/// its status.
#[derive(Debug)]
pub struct RecordingView {
    pub id: String,
    pub user: String,
    pub target_secret: String,
    pub started_at: i64,
    pub ended_at: Option<i64>,
    pub status: String,
}

/// The file a recording is written to: its id with the `.cast` extension.
pub open spec fn recording_path(id: Seq<char>) -> Seq<char> {
    id + ".cast"@
}

/// The file name of the recording with that id.
pub fn generate_path(id: &str) -> (s: String)
    ensures
        s@ == recording_path(id@),
{
    let mut v = str_chars(id);
    push_all(&mut v, &str_chars(".cast"));
    chars_to_string(&v)
}

impl SessionRecording {
    /// An active recording with a fresh id, written to a file named after it, started
    /// now.
    pub fn new(user_id: String, target_id: String, secret_id: String, connection_id: String) -> (r:
        Self)
        ensures
            spec_parse_uuid(r.id@) is Some,
            r.user_id == user_id,
            r.target_id == target_id,
            r.secret_id == secret_id,
            r.connection_id == connection_id,
            r.file_path@ == recording_path(r.id@),
            r.ended_at is None,
            r.status@ == "active"@,
    {
        let id = new_id();
        let file_path = generate_path(id.as_str());
        SessionRecording {
            id,
            user_id,
            target_id,
            secret_id,
            file_path,
            started_at: now_millis(),
            ended_at: None,
            connection_id,
            status: "active".to_string(),
        }
    }
}

} // verus!
