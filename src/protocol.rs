//! The text protocol of Reaper's web control surface: request URLs, and the
//! parsing of the short text bodies that come back.
use vstd::prelude::*;

use crate::paths::relative_to;
use crate::paths::strip_root;
use crate::text::first_line;
use crate::text::split_text;
use crate::text::split_view;
use crate::text::starts_with;
use crate::text::text_eq;
use crate::text::text_starts_with;
use crate::text::trim;
use crate::text::trim_text;

verus! {

/// What went wrong while talking to Reaper.
#[derive(Debug, Clone)]
pub enum ReaperError {
    /// Reaper could not be reached at all; the text says why.
    Http(String),
    /// Reaper answered with a failure status, or a script reported an error.
    Command(String),
    /// A reply did not have the shape that the operation needs.
    Parse(String),
    /// A setting that the operation needs is missing.
    Config(String),
    /// The end-to-end script check read back another nonce than it expected.
    NonceMismatch,
}

/// A `ReaperError` with its texts as character sequences.
pub enum ErrorView {
    Http(Seq<char>),
    Command(Seq<char>),
    Parse(Seq<char>),
    Config(Seq<char>),
    NonceMismatch,
}

impl View for ReaperError {
    type V = ErrorView;

    open spec fn view(&self) -> ErrorView {
        match self {
            ReaperError::Http(m) => ErrorView::Http(m@),
            ReaperError::Command(m) => ErrorView::Command(m@),
            ReaperError::Parse(m) => ErrorView::Parse(m@),
            ReaperError::Config(m) => ErrorView::Config(m@),
            ReaperError::NonceMismatch => ErrorView::NonceMismatch,
        }
    }
}

/// A command addressed by code at `{base}/_/{code}`.
#[derive(Debug, Clone)]
pub enum ReaperCommand {
    GoToEnd,
    GoToStart,
    GetTransport,
    NewTab,
    CloseAllTabs,
    /// A user-installed script, by the action id that Reaper bound it to.
    RunAction(String),
}

impl ReaperCommand {
    pub open spec fn code(&self) -> Seq<char> {
        match self {
            ReaperCommand::GoToEnd => "40043"@,
            ReaperCommand::GoToStart => "40042"@,
            ReaperCommand::GetTransport => "TRANSPORT"@,
            ReaperCommand::NewTab => "40859"@,
            ReaperCommand::CloseAllTabs => "40860"@,
            ReaperCommand::RunAction(id) => id@,
        }
    }

    /// The code that goes into the command URL.
    pub fn to_command_string(&self) -> (r: String)
        ensures
            r@ == self.code(),
    {
        match self {
            ReaperCommand::GoToEnd => String::from_str("40043"),
            ReaperCommand::GoToStart => String::from_str("40042"),
            ReaperCommand::GetTransport => String::from_str("TRANSPORT"),
            ReaperCommand::NewTab => String::from_str("40859"),
            ReaperCommand::CloseAllTabs => String::from_str("40860"),
            ReaperCommand::RunAction(id) => id.clone(),
        }
    }
}

/// A 2xx status.
pub open spec fn success_status(code: u16) -> bool {
    200 <= code <= 299
}

/// Whether an HTTP status code reports success.
pub fn is_success(code: u16) -> (r: bool)
    ensures
        r == success_status(code),
{
    200 <= code && code <= 299
}

pub open spec fn command_url(base: Seq<char>, code: Seq<char>) -> Seq<char> {
    base + "/_/"@ + code
}

/// The URL text that writes `value` under (`section`, `key`), before URL normalisation.
pub open spec fn set_ext_state_text(
    base: Seq<char>,
    section: Seq<char>,
    key: Seq<char>,
    value: Seq<char>,
) -> Seq<char> {
    base + "/_/SET/EXTSTATE/"@ + section + "/"@ + key + "/"@ + value
}

/// The URL text that reads (`section`, `key`), before URL normalisation.
pub open spec fn get_ext_state_text(base: Seq<char>, section: Seq<char>, key: Seq<char>) -> Seq<
    char,
> {
    base + "/_/GET/EXTSTATE/"@ + section + "/"@ + key
}

/// What `url::Url::parse` makes of a text: its serialisation, or nothing when
/// the text is not an absolute URL.
pub uninterp spec fn url_serialization(s: Seq<char>) -> Option<Seq<char>>;

/// Relies on `url::Url::parse` and `Url::as_str`: the text parses as an
/// absolute URL exactly when a serialisation comes back, and it is that one.
#[verifier::external_body]
fn parse_url(s: &str) -> (r: Option<String>)
    ensures
        r is Some == url_serialization(s@) is Some,
        r is Some ==> r->0@ == url_serialization(s@)->0,
{
    url::Url::parse(s).ok().map(|u| u.as_str().to_string())
}

/// The URL that runs `command`.
pub fn command_url_of(base: &str, command: &ReaperCommand) -> (r: String)
    ensures
        r@ == command_url(base@, command.code()),
{
    let code = command.to_command_string();
    let mut u = String::from_str(base);
    u.append("/_/");
    u.append(code.as_str());
    u
}

/// The normalised URL that writes an ExtState value, or an error when the
/// configured base does not make a URL.
pub fn set_ext_state_url(base: &str, section: &str, key: &str, value: &str) -> (r: Result<
    String,
    ReaperError,
>)
    ensures
        match url_serialization(set_ext_state_text(base@, section@, key@, value@)) {
            Some(u) => r is Ok && r->Ok_0@ == u,
            None => r is Err && r->Err_0@ == ErrorView::Command(INVALID_URL@),
        },
{
    let mut t = String::from_str(base);
    t.append("/_/SET/EXTSTATE/");
    t.append(section);
    t.append("/");
    t.append(key);
    t.append("/");
    t.append(value);
    match parse_url(t.as_str()) {
        Some(u) => Ok(u),
        None => Err(ReaperError::Command(String::from_str(INVALID_URL))),
    }
}

/// The normalised URL that reads an ExtState value, or an error when the
/// configured base does not make a URL.
pub fn get_ext_state_url(base: &str, section: &str, key: &str) -> (r: Result<String, ReaperError>)
    ensures
        match url_serialization(get_ext_state_text(base@, section@, key@)) {
            Some(u) => r is Ok && r->Ok_0@ == u,
            None => r is Err && r->Err_0@ == ErrorView::Command(INVALID_URL@),
        },
{
    let mut t = String::from_str(base);
    t.append("/_/GET/EXTSTATE/");
    t.append(section);
    t.append("/");
    t.append(key);
    match parse_url(t.as_str()) {
        Some(u) => Ok(u),
        None => Err(ReaperError::Command(String::from_str(INVALID_URL))),
    }
}

pub const INVALID_URL: &'static str = "invalid Reaper base URL";

// ---------------------------------------------------------------------------
// ExtState replies

/// How Reaper answered an ExtState read.
#[derive(Debug, Clone)]
pub enum ExtStateReply {
    /// `EXTSTATE\t<section>\t<key>\t<value>` for the section and key asked for.
    Value(String),
    /// `VALUE` alone, or followed by one empty field: the key holds the empty value.
    Empty,
    /// Anything else, including an empty body.
    Unrecognized,
}

pub enum ExtStateView {
    Value(Seq<char>),
    Empty,
    Unrecognized,
}

impl View for ExtStateReply {
    type V = ExtStateView;

    open spec fn view(&self) -> ExtStateView {
        match self {
            ExtStateReply::Value(v) => ExtStateView::Value(v@),
            ExtStateReply::Empty => ExtStateView::Empty,
            ExtStateReply::Unrecognized => ExtStateView::Unrecognized,
        }
    }
}

/// The reading of an ExtState reply body: only its first line counts, split at tabs.
pub open spec fn ext_state_reply(body: Seq<char>, section: Seq<char>, key: Seq<char>) -> ExtStateView {
    let f = split_view(first_line(body), '\t');
    if f.len() == 4 && f[0] == "EXTSTATE"@ {
        if f[1] == section && f[2] == key {
            ExtStateView::Value(f[3])
        } else {
            ExtStateView::Unrecognized
        }
    } else if f[0] == "VALUE"@ && (f.len() == 1 || (f.len() == 2 && f[1].len() == 0)) {
        ExtStateView::Empty
    } else {
        ExtStateView::Unrecognized
    }
}

/// The value a reading stands for: the value, the empty value, or none.
pub open spec fn ext_state_value(r: ExtStateView) -> Option<Seq<char>> {
    match r {
        ExtStateView::Value(v) => Some(v),
        ExtStateView::Empty => Some(Seq::<char>::empty()),
        ExtStateView::Unrecognized => None,
    }
}

/// Reads the body of an ExtState reply for (`section`, `key`).
pub fn parse_ext_state_reply(body: &str, section: &str, key: &str) -> (r: ExtStateReply)
    ensures
        r@ == ext_state_reply(body@, section@, key@),
{
    let lines = split_text(body, '\n');
    let f = split_text(lines[0].as_str(), '\t');
    proof {
        assert(lines@.map_values(|p: String| p@)[0] == lines@[0]@);
    }
    let ghost fv = f@.map_values(|p: String| p@);
    assert(fv[0] == f@[0]@);
    if f.len() >= 2 {
        assert(fv[1] == f@[1]@);
    }
    if f.len() == 4 && text_eq(f[0].as_str(), "EXTSTATE") {
        assert(fv[1] == f@[1]@ && fv[2] == f@[2]@ && fv[3] == f@[3]@);
        if text_eq(f[1].as_str(), section) && text_eq(f[2].as_str(), key) {
            ExtStateReply::Value(f[3].clone())
        } else {
            ExtStateReply::Unrecognized
        }
    } else if text_eq(f[0].as_str(), "VALUE") && (f.len() == 1 || (f.len() == 2
        && f[1].as_str().unicode_len() == 0)) {
        ExtStateReply::Empty
    } else {
        ExtStateReply::Unrecognized
    }
}

impl ExtStateReply {
    /// The value this reply stands for.
    pub fn value(self) -> (r: Option<String>)
        ensures
            match ext_state_value(self@) {
                Some(v) => r is Some && r->0@ == v,
                None => r is None,
            },
    {
        match self {
            ExtStateReply::Value(v) => Some(v),
            ExtStateReply::Empty => Some(String::new()),
            ExtStateReply::Unrecognized => None,
        }
    }
}

// ---------------------------------------------------------------------------
// Project lists

pub const NO_FILE_LIST: &'static str = "Reaper script error: no file list returned";

/// The project list that a `project_file_list` value stands for: an error when
/// there is no value or it starts with `ERROR`, no entries when it is empty, and
/// otherwise its comma-separated entries, trimmed and made relative to `root`.
pub open spec fn project_list(value: Option<Seq<char>>, root: Seq<char>) -> Result<
    Seq<Seq<char>>,
    ErrorView,
> {
    match value {
        None => Err(ErrorView::Command(NO_FILE_LIST@)),
        Some(v) => if starts_with(v, "ERROR"@) {
            Err(ErrorView::Command(v))
        } else if v.len() == 0 {
            Ok(Seq::<Seq<char>>::empty())
        } else {
            Ok(split_view(v, ',').map_values(|e: Seq<char>| relative_to(root, trim(e))))
        },
    }
}

/// Turns the `project_file_list` value that a listing script left behind into
/// project paths relative to the root folder `root`.
pub fn read_project_list(value: Option<String>, root: &str) -> (r: Result<Vec<String>, ReaperError>)
    ensures
        match project_list(
            match value {
                Some(v) => Some(v@),
                None => None,
            },
            root@,
        ) {
            Ok(l) => r is Ok && r->Ok_0@.map_values(|p: String| p@) == l,
            Err(e) => r is Err && r->Err_0@ == e,
        },
{
    match value {
        None => Err(ReaperError::Command(String::from_str(NO_FILE_LIST))),
        Some(v) => {
            if text_starts_with(v.as_str(), "ERROR") {
                return Err(ReaperError::Command(v));
            }
            if v.as_str().unicode_len() == 0 {
                let empty: Vec<String> = Vec::new();
                assert(empty@.map_values(|p: String| p@) =~= Seq::<Seq<char>>::empty());
                return Ok(empty);
            }
            let entries = split_text(v.as_str(), ',');
            let ghost ev = entries@.map_values(|p: String| p@);
            let mut out: Vec<String> = Vec::new();
            let mut i: usize = 0;
            while i < entries.len()
                invariant
                    i <= entries.len(),
                    ev == entries@.map_values(|p: String| p@),
                    ev == split_view(v@, ','),
                    out@.map_values(|p: String| p@) == ev.take(i as int).map_values(
                        |e: Seq<char>| relative_to(root@, trim(e)),
                    ),
                decreases entries.len() - i,
            {
                let t = trim_text(entries[i].as_str());
                let p = strip_root(root, t.as_str());
                let ghost before = out@.map_values(|p: String| p@);
                out.push(p);
                assert(ev[i as int] == entries@[i as int]@);
                assert(p@ == relative_to(root@, trim(ev[i as int])));
                assert(out@.map_values(|p: String| p@) =~= before.push(p@));
                assert(out@.map_values(|p: String| p@) =~= ev.take(i + 1).map_values(
                    |e: Seq<char>| relative_to(root@, trim(e)),
                ));
                i = i + 1;
            }
            assert(ev.take(entries.len() as int) =~= ev);
            Ok(out)
        },
    }
}

} // verus!
