//! Errors of the interactive applications, and the requests a client sends to a
//! target, with the texts shown for them.
use vstd::prelude::*;
use crate::text::{chars_to_string, decimal, decimal_of, push_all, str_chars};

verus! {

broadcast use vstd::string::group_string_axioms;

/// An error of the administration console.
pub enum AdminError {
    /// The target already has a secret bound for that account.
    DuplicateTargetUser { target: String, user: String },
}

/// An error of an interactive application.
pub enum AppError {
    NoTargetAvailable,
    ChannelRecordExists,
    ChannelNotifyExists,
    Admin(AdminError),
}

/// The text of an administration error.
pub open spec fn admin_error_text(e: AdminError) -> Seq<char> {
    match e {
        AdminError::DuplicateTargetUser { target, user } => "Target '"@ + target@
            + "' already has a bound secret with user '"@ + user@ + "'"@,
    }
}

/// The text of an application error; an administration error shows its own text.
pub open spec fn app_error_text(e: AppError) -> Seq<char> {
    match e {
        AppError::NoTargetAvailable => "No target available for connection"@,
        AppError::ChannelRecordExists => "Channel record already exists"@,
        AppError::ChannelNotifyExists => "Channel notify already exists"@,
        AppError::Admin(a) => admin_error_text(a),
    }
}

impl AdminError {
    /// The text shown for the error.
    pub fn message(&self) -> (s: String)
        ensures
            s@ == admin_error_text(*self),
    {
        match self {
            AdminError::DuplicateTargetUser { target, user } => {
                let mut v = str_chars("Target '");
                push_all(&mut v, &str_chars(target.as_str()));
                push_all(&mut v, &str_chars("' already has a bound secret with user '"));
                push_all(&mut v, &str_chars(user.as_str()));
                push_all(&mut v, &str_chars("'"));
                chars_to_string(&v)
            },
        }
    }
}

impl AppError {
    /// The text shown for the error.
    pub fn message(&self) -> (s: String)
        ensures
            s@ == app_error_text(*self),
    {
        match self {
            AppError::NoTargetAvailable => "No target available for connection".to_string(),
            AppError::ChannelRecordExists => "Channel record already exists".to_string(),
            AppError::ChannelNotifyExists => "Channel notify already exists".to_string(),
            AppError::Admin(a) => a.message(),
        }
    }
}

impl From<AdminError> for AppError {
    fn from(e: AdminError) -> (r: AppError) {
        AppError::Admin(e)
    }
}

impl vstd::std_specs::convert::FromSpecImpl<AdminError> for AppError {
    open spec fn obeys_from_spec() -> bool {
        true
    }

    open spec fn from_spec(e: AdminError) -> AppError {
        AppError::Admin(e)
    }
}

/// What a client asks of a target: a shell, a command, or a forwarded TCP connection
/// (host and port to reach, then the originator's host and port).
#[derive(Clone, Copy)]
pub enum Request<'a> {
    Shell,
    Exec(&'a [u8]),
    OpenDirectTcpip((&'a str, u32, &'a str, u32)),
}

/// The text of bytes read as UTF-8, with each invalid sequence replaced by U+FFFD
/// (`String::from_utf8_lossy`).
pub uninterp spec fn spec_utf8_lossy(b: Seq<u8>) -> Seq<char>;

/// `String::from_utf8_lossy`, made an owned text. Claimed: the named text.
#[verifier::external_body]
fn utf8_lossy(b: &[u8]) -> (s: String)
    ensures
        s@ == spec_utf8_lossy(b@),
{
    String::from_utf8_lossy(b).into_owned()
}

/// The text of a request, as written in the session log.
pub open spec fn request_text(r: Request) -> Seq<char> {
    match r {
        Request::Shell => "shell"@,
        Request::Exec(d) => "exec: "@ + spec_utf8_lossy(d@),
        Request::OpenDirectTcpip((h, p, oh, op)) => "open_direct_tcpip: to_connect: "@ + h@ + ":"@
            + decimal(p as nat) + " originator: "@ + oh@ + ":"@ + decimal(op as nat),
    }
}

impl<'a> Request<'a> {
    /// The text of the request.
    pub fn describe(&self) -> (s: String)
        ensures
            s@ == request_text(*self),
    {
        match self {
            Request::Shell => "shell".to_string(),
            Request::Exec(d) => {
                let mut v = str_chars("exec: ");
                let text = utf8_lossy(d);
                push_all(&mut v, &str_chars(text.as_str()));
                chars_to_string(&v)
            },
            Request::OpenDirectTcpip((h, p, oh, op)) => {
                let mut v = str_chars("open_direct_tcpip: to_connect: ");
                push_all(&mut v, &str_chars(h));
                push_all(&mut v, &str_chars(":"));
                push_all(&mut v, &decimal_of(*p as u64));
                push_all(&mut v, &str_chars(" originator: "));
                push_all(&mut v, &str_chars(oh));
                push_all(&mut v, &str_chars(":"));
                push_all(&mut v, &decimal_of(*op as u64));
                chars_to_string(&v)
            },
        }
    }
}

} // verus!
