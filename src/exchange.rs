//! The request/reply engine behind every Reaper workflow.
//!
//! A workflow is a fixed list of calls, each one HTTP GET. The engine never
//! performs I/O: given the replies received so far it says which URL to fetch
//! next, or how the workflow ended. The calls run in order, at most once each,
//! and the first failure ends the workflow.
use vstd::prelude::*;

use crate::protocol::command_url;
use crate::protocol::command_url_of;
use crate::protocol::ext_state_reply;
use crate::protocol::ext_state_value;
use crate::protocol::get_ext_state_text;
use crate::protocol::get_ext_state_url;
use crate::protocol::is_success;
use crate::protocol::parse_ext_state_reply;
use crate::protocol::set_ext_state_text;
use crate::protocol::set_ext_state_url;
use crate::protocol::success_status;
use crate::protocol::url_serialization;
use crate::protocol::ErrorView;
use crate::protocol::ReaperCommand;
use crate::protocol::ReaperError;
use crate::protocol::INVALID_URL;
use crate::text::decimal_text;
use crate::text::decimal_view;

verus! {

/// One GET against Reaper's control surface.
#[derive(Debug, Clone)]
pub enum Call {
    /// `{base}/_/{code}`; needs a 2xx status, and gives the body.
    Command(ReaperCommand),
    /// Writes (section, key) := value; needs a 2xx status.
    SetExtState(String, String, String),
    /// Reads (section, key); needs a 2xx status, and gives the value.
    GetExtState(String, String),
    /// `{base}/_/TRANSPORT`, giving the status code whatever it is.
    Probe,
}

pub enum CallView {
    Command(Seq<char>),
    SetExtState(Seq<char>, Seq<char>, Seq<char>),
    GetExtState(Seq<char>, Seq<char>),
    Probe,
}

impl View for Call {
    type V = CallView;

    open spec fn view(&self) -> CallView {
        match self {
            Call::Command(c) => CallView::Command(c.code()),
            Call::SetExtState(s, k, v) => CallView::SetExtState(s@, k@, v@),
            Call::GetExtState(s, k) => CallView::GetExtState(s@, k@),
            Call::Probe => CallView::Probe,
        }
    }
}

pub open spec fn calls_view(calls: Seq<Call>) -> Seq<CallView> {
    calls.map_values(|c: Call| c@)
}

/// How a GET went.
#[derive(Debug, Clone)]
pub enum Reply {
    /// Reaper answered with this status and body.
    Answered { status: u16, body: String },
    /// Reaper could not be reached, or the body could not be read.
    Unreachable(String),
}

/// What a successful call gives.
#[derive(Debug, Clone)]
pub enum CallValue {
    Unit,
    Text(String),
    Stored(Option<String>),
    Status(u16),
}

pub enum ValueView {
    Unit,
    Text(Seq<char>),
    Stored(Option<Seq<char>>),
    Status(u16),
}

pub open spec fn opt_view(o: Option<String>) -> Option<Seq<char>> {
    match o {
        Some(s) => Some(s@),
        None => None,
    }
}

impl View for CallValue {
    type V = ValueView;

    open spec fn view(&self) -> ValueView {
        match self {
            CallValue::Unit => ValueView::Unit,
            CallValue::Text(t) => ValueView::Text(t@),
            CallValue::Stored(o) => ValueView::Stored(opt_view(*o)),
            CallValue::Status(s) => ValueView::Status(*s),
        }
    }
}

/// The error for a request about `what` that Reaper answered with a non-2xx `status`.
pub open spec fn status_failure(what: Seq<char>, status: u16) -> ErrorView {
    ErrorView::Command(what + " failed with status: "@ + decimal_view(status as nat))
}

pub open spec fn command_what(code: Seq<char>) -> Seq<char> {
    "Command '"@ + code + "'"@
}

pub open spec fn ext_state_what(verb: Seq<char>, section: Seq<char>, key: Seq<char>) -> Seq<char> {
    verb + " ExtState "@ + section + "/"@ + key
}

/// The URL that `call` fetches, given the configured base URL.
pub open spec fn call_url(base: Seq<char>, call: CallView) -> Result<Seq<char>, ErrorView> {
    match call {
        CallView::Command(code) => Ok(command_url(base, code)),
        CallView::SetExtState(s, k, v) => match url_serialization(
            set_ext_state_text(base, s, k, v),
        ) {
            Some(u) => Ok(u),
            None => Err(ErrorView::Command(INVALID_URL@)),
        },
        CallView::GetExtState(s, k) => match url_serialization(get_ext_state_text(base, s, k)) {
            Some(u) => Ok(u),
            None => Err(ErrorView::Command(INVALID_URL@)),
        },
        CallView::Probe => Ok(command_url(base, "TRANSPORT"@)),
    }
}

/// What `call` gives when `reply` comes back for it.
pub open spec fn call_result(call: CallView, reply: Reply) -> Result<ValueView, ErrorView> {
    match reply {
        Reply::Unreachable(m) => Err(ErrorView::Http(m@)),
        Reply::Answered { status, body } => match call {
            CallView::Probe => Ok(ValueView::Status(status)),
            CallView::Command(code) => if success_status(status) {
                Ok(ValueView::Text(body@))
            } else {
                Err(status_failure(command_what(code), status))
            },
            CallView::SetExtState(s, k, _) => if success_status(status) {
                Ok(ValueView::Unit)
            } else {
                Err(status_failure(ext_state_what("Setting"@, s, k), status))
            },
            CallView::GetExtState(s, k) => if success_status(status) {
                Ok(ValueView::Stored(ext_state_value(ext_state_reply(body@, s, k))))
            } else {
                Err(status_failure(ext_state_what("Reading"@, s, k), status))
            },
        },
    }
}

/// Where a run of calls stands.
pub enum Progress {
    /// Fetch this URL and hand its reply back.
    Send(String),
    /// The run ended with this result, after using this many replies.
    Finished(Result<CallValue, ReaperError>, usize),
}

pub enum ProgressView {
    Send(Seq<char>),
    Finished(Result<ValueView, ErrorView>, nat),
}

impl View for Progress {
    type V = ProgressView;

    open spec fn view(&self) -> ProgressView {
        match self {
            Progress::Send(u) => ProgressView::Send(u@),
            Progress::Finished(r, n) => ProgressView::Finished(
                match r {
                    Ok(v) => Ok(v@),
                    Err(e) => Err(e@),
                },
                *n as nat,
            ),
        }
    }
}

/// Runs `calls` from index `i` against `replies` (the reply to call `j` is
/// `replies[j]`), `last` being what the previous call gave. The run ends at the
/// first failure, or with the value of the last call.
pub open spec fn run(
    base: Seq<char>,
    calls: Seq<CallView>,
    replies: Seq<Reply>,
    i: nat,
    last: ValueView,
) -> ProgressView
    decreases calls.len() - i,
{
    if i >= calls.len() {
        ProgressView::Finished(Ok(last), i)
    } else {
        match call_url(base, calls[i as int]) {
            Err(e) => ProgressView::Finished(Err(e), i),
            Ok(u) => if i >= replies.len() {
                ProgressView::Send(u)
            } else {
                match call_result(calls[i as int], replies[i as int]) {
                    Err(e) => ProgressView::Finished(Err(e), i + 1),
                    Ok(v) => run(base, calls, replies, i + 1, v),
                }
            },
        }
    }
}

/// A run from the start.
pub open spec fn run_all(base: Seq<char>, calls: Seq<CallView>, replies: Seq<Reply>) -> ProgressView {
    run(base, calls, replies, 0, ValueView::Unit)
}

proof fn lemma_run_uses_at_most(
    base: Seq<char>,
    calls: Seq<CallView>,
    replies: Seq<Reply>,
    i: nat,
    last: ValueView,
)
    requires
        i <= replies.len(),
    ensures
        run(base, calls, replies, i, last) matches ProgressView::Finished(_, n) ==> n
            <= replies.len(),
    decreases calls.len() - i,
{
    if i < calls.len() && i < replies.len() {
        if call_url(base, calls[i as int]) is Ok {
            if let Ok(v) = call_result(calls[i as int], replies[i as int]) {
                lemma_run_uses_at_most(base, calls, replies, i + 1, v);
            }
        }
    }
}

/// The URL that `call` fetches.
pub fn url_of(base: &str, call: &Call) -> (r: Result<String, ReaperError>)
    ensures
        match call_url(base@, call@) {
            Ok(u) => r is Ok && r->Ok_0@ == u,
            Err(e) => r is Err && r->Err_0@ == e,
        },
{
    match call {
        Call::Command(c) => Ok(command_url_of(base, c)),
        Call::SetExtState(s, k, v) => set_ext_state_url(base, s.as_str(), k.as_str(), v.as_str()),
        Call::GetExtState(s, k) => get_ext_state_url(base, s.as_str(), k.as_str()),
        Call::Probe => Ok(command_url_of(base, &ReaperCommand::GetTransport)),
    }
}

fn failure(what: String, status: u16) -> (e: ReaperError)
    ensures
        e@ == status_failure(what@, status),
{
    let mut m = what;
    m.append(" failed with status: ");
    let digits = decimal_text(status as u32);
    m.append(digits.as_str());
    ReaperError::Command(m)
}

fn ext_state_text(verb: &str, section: &String, key: &String) -> (r: String)
    ensures
        r@ == ext_state_what(verb@, section@, key@),
{
    let mut r = String::from_str(verb);
    r.append(" ExtState ");
    r.append(section.as_str());
    r.append("/");
    r.append(key.as_str());
    r
}

/// What `call` gives for `reply`.
pub fn result_of(call: &Call, reply: &Reply) -> (r: Result<CallValue, ReaperError>)
    ensures
        match call_result(call@, *reply) {
            Ok(v) => r is Ok && r->Ok_0@ == v,
            Err(e) => r is Err && r->Err_0@ == e,
        },
{
    match reply {
        Reply::Unreachable(m) => Err(ReaperError::Http(m.clone())),
        Reply::Answered { status, body } => match call {
            Call::Probe => Ok(CallValue::Status(*status)),
            Call::Command(c) => if is_success(*status) {
                Ok(CallValue::Text(body.clone()))
            } else {
                let code = c.to_command_string();
                let mut what = String::from_str("Command '");
                what.append(code.as_str());
                what.append("'");
                Err(failure(what, *status))
            },
            Call::SetExtState(s, k, _) => if is_success(*status) {
                Ok(CallValue::Unit)
            } else {
                Err(failure(ext_state_text("Setting", s, k), *status))
            },
            Call::GetExtState(s, k) => if is_success(*status) {
                let v = parse_ext_state_reply(body.as_str(), s.as_str(), k.as_str()).value();
                Ok(CallValue::Stored(v))
            } else {
                Err(failure(ext_state_text("Reading", s, k), *status))
            },
        },
    }
}

/// Runs `calls` against the replies from `replies[from]` on.
pub fn run_calls(base: &str, calls: &Vec<Call>, replies: &Vec<Reply>, from: usize) -> (p: Progress)
    requires
        from <= replies.len(),
    ensures
        p@ == run_all(base@, calls_view(calls@), replies@.skip(from as int)),
        p matches Progress::Finished(_, n) ==> from + n <= replies.len(),
{
    let ghost rs = replies@.skip(from as int);
    let ghost cv = calls_view(calls@);
    let mut i: usize = 0;
    let mut last = CallValue::Unit;
    proof {
        lemma_run_uses_at_most(base@, cv, rs, 0, ValueView::Unit);
    }
    while i < calls.len()
        invariant
            from <= replies.len(),
            rs == replies@.skip(from as int),
            cv == calls_view(calls@),
            i <= calls.len(),
            i <= rs.len(),
            run_all(base@, cv, rs) == run(base@, cv, rs, i as nat, last@),
        decreases calls.len() - i,
    {
        proof {
            lemma_run_uses_at_most(base@, cv, rs, i as nat, last@);
        }
        assert(cv[i as int] == calls@[i as int]@);
        let u = match url_of(base, &calls[i]) {
            Ok(u) => u,
            Err(e) => {
                return Progress::Finished(Err(e), i);
            },
        };
        if from + i >= replies.len() {
            return Progress::Send(u);
        }
        assert(rs[i as int] == replies@[from + i]);
        match result_of(&calls[i], &replies[from + i]) {
            Ok(v) => {
                last = v;
            },
            Err(e) => {
                return Progress::Finished(Err(e), i + 1);
            },
        }
        i = i + 1;
    }
    Progress::Finished(Ok(last), i)
}

} // verus!
