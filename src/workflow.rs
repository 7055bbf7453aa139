//! Reaper workflows: what each operation sends, and what it makes of the replies.
use vstd::prelude::*;

use crate::decimal::parse_transport_position;
use crate::decimal::transport_position;
use crate::decimal::TimeSpan;
use crate::exchange::calls_view;
use crate::exchange::run_all;
use crate::exchange::run_calls;
use crate::exchange::Call;
use crate::exchange::CallValue;
use crate::exchange::CallView;
use crate::exchange::Progress;
use crate::exchange::ProgressView;
use crate::exchange::Reply;
use crate::exchange::ValueView;
use crate::protocol::project_list;
use crate::protocol::read_project_list;
use crate::protocol::ErrorView;
use crate::protocol::ReaperCommand;
use crate::protocol::ReaperError;
use crate::settings::Settings;

verus! {

/// The ExtState section that the installed scripts share with this library.
pub const SECTION: &'static str = "WebAppControl";

pub const ROOT_KEY: &'static str = "project_root_folder";

pub const FILE_LIST_KEY: &'static str = "project_file_list";

pub const LOAD_PATH_KEY: &'static str = "temp_load_project_path";

pub const DUMMY_KEY: &'static str = "dummy_mode";

pub const NONCE_IN_KEY: &'static str = "test_nonce_in";

pub const NONCE_OUT_KEY: &'static str = "test_nonce_out";

pub const LAST_LOAD_KEY: &'static str = "last_load_result";

pub const NONCE_SUFFIX: &'static str = "_modified";

pub const NO_URL: &'static str = "Reaper URL is not configured";

pub const NO_LIST_ACTION: &'static str = "ListProjectFiles script action ID not configured";

pub const NO_LOAD_ACTION: &'static str =
    "LoadProjectFromRelativePath script action ID not configured";

/// What the last call's value is turned into when a workflow succeeds.
#[derive(Debug, Clone)]
pub enum Finish {
    Nothing,
    Status,
    Stored,
    /// A project list, made relative to this root folder.
    Projects(String),
    Position,
}

pub enum FinishView {
    Nothing,
    Status,
    Stored,
    Projects(Seq<char>),
    Position,
}

impl View for Finish {
    type V = FinishView;

    open spec fn view(&self) -> FinishView {
        match self {
            Finish::Nothing => FinishView::Nothing,
            Finish::Status => FinishView::Status,
            Finish::Stored => FinishView::Stored,
            Finish::Projects(r) => FinishView::Projects(r@),
            Finish::Position => FinishView::Position,
        }
    }
}

/// What a workflow gives when it succeeds.
#[derive(Debug, Clone)]
pub enum Output {
    Done,
    Status(u16),
    Value(Option<String>),
    Projects(Vec<String>),
    Position(TimeSpan),
}

pub enum OutputView {
    Done,
    Status(u16),
    Value(Option<Seq<char>>),
    Projects(Seq<Seq<char>>),
    Position(nat, nat),
}

impl View for Output {
    type V = OutputView;

    open spec fn view(&self) -> OutputView {
        match self {
            Output::Done => OutputView::Done,
            Output::Status(s) => OutputView::Status(*s),
            Output::Value(v) => OutputView::Value(
                match v {
                    Some(s) => Some(s@),
                    None => None,
                },
            ),
            Output::Projects(l) => OutputView::Projects(l@.map_values(|p: String| p@)),
            Output::Position(t) => OutputView::Position(t.secs as nat, t.nanos as nat),
        }
    }
}

pub open spec fn result_view(r: Result<Output, ReaperError>) -> Result<OutputView, ErrorView> {
    match r {
        Ok(o) => Ok(o@),
        Err(e) => Err(e@),
    }
}

/// The stored value a call gave; none for a value of another kind.
pub open spec fn stored_of(v: ValueView) -> Option<Seq<char>> {
    match v {
        ValueView::Stored(o) => o,
        _ => None,
    }
}

/// The body a call gave; empty for a value of another kind.
pub open spec fn text_of(v: ValueView) -> Seq<char> {
    match v {
        ValueView::Text(t) => t,
        _ => Seq::<char>::empty(),
    }
}

/// The result of a workflow whose last call gave `v`.
pub open spec fn finish_view(f: FinishView, v: ValueView) -> Result<OutputView, ErrorView> {
    match f {
        FinishView::Nothing => Ok(OutputView::Done),
        FinishView::Status => match v {
            ValueView::Status(s) => Ok(OutputView::Status(s)),
            _ => Ok(OutputView::Done),
        },
        FinishView::Stored => Ok(OutputView::Value(stored_of(v))),
        FinishView::Projects(root) => match project_list(stored_of(v), root) {
            Ok(l) => Ok(OutputView::Projects(l)),
            Err(e) => Err(e),
        },
        FinishView::Position => match transport_position(text_of(v)) {
            Ok(p) => Ok(OutputView::Position(p.0, p.1)),
            Err(e) => Err(e),
        },
    }
}

/// The result of a workflow whose last call gave `v`.
pub fn finish_value(f: &Finish, v: CallValue) -> (r: Result<Output, ReaperError>)
    ensures
        result_view(r) == finish_view(f@, v@),
{
    match f {
        Finish::Nothing => Ok(Output::Done),
        Finish::Status => match v {
            CallValue::Status(s) => Ok(Output::Status(s)),
            _ => Ok(Output::Done),
        },
        Finish::Stored => match v {
            CallValue::Stored(o) => Ok(Output::Value(o)),
            _ => Ok(Output::Value(None)),
        },
        Finish::Projects(root) => {
            let stored = match v {
                CallValue::Stored(o) => o,
                _ => None,
            };
            match read_project_list(stored, root.as_str()) {
                Ok(l) => Ok(Output::Projects(l)),
                Err(e) => Err(e),
            }
        },
        Finish::Position => {
            let text = match v {
                CallValue::Text(t) => t,
                _ => String::new(),
            };
            match parse_transport_position(text.as_str()) {
                Ok(p) => Ok(Output::Position(p)),
                Err(e) => Err(e),
            }
        },
    }
}

/// What to do next in a workflow.
pub enum Step {
    /// GET this URL and hand the reply back.
    Send(String),
    /// The workflow is over.
    Finish(Result<Output, ReaperError>),
}

pub enum StepView {
    Send(Seq<char>),
    Finish(Result<OutputView, ErrorView>),
}

impl View for Step {
    type V = StepView;

    open spec fn view(&self) -> StepView {
        match self {
            Step::Send(u) => StepView::Send(u@),
            Step::Finish(r) => StepView::Finish(result_view(*r)),
        }
    }
}

/// A workflow: calls against one base URL, and what its last value turns into.
#[derive(Debug, Clone)]
pub struct Exchange {
    pub base: String,
    pub calls: Vec<Call>,
    pub finish: Finish,
}

pub struct ExchangeView {
    pub base: Seq<char>,
    pub calls: Seq<CallView>,
    pub finish: FinishView,
}

impl View for Exchange {
    type V = ExchangeView;

    open spec fn view(&self) -> ExchangeView {
        ExchangeView { base: self.base@, calls: calls_view(self.calls@), finish: self.finish@ }
    }
}

/// The next step of workflow `x` once `replies` have come back.
/// Without a configured Reaper URL the workflow fails at once, sending nothing.
pub open spec fn exchange_step(x: ExchangeView, replies: Seq<Reply>) -> StepView {
    if x.base.len() == 0 {
        StepView::Finish(Err(ErrorView::Config(NO_URL@)))
    } else {
        match run_all(x.base, x.calls, replies) {
        ProgressView::Send(u) => StepView::Send(u),
        ProgressView::Finished(Err(e), _) => StepView::Finish(Err(e)),
        ProgressView::Finished(Ok(v), _) => StepView::Finish(finish_view(x.finish, v)),
        }
    }
}

impl Exchange {
    /// The next step once `replies` (one per URL sent, in order) have come back.
    pub fn step(&self, replies: &Vec<Reply>) -> (s: Step)
        ensures
            s@ == exchange_step(self@, replies@),
    {
        if self.base.as_str().unicode_len() == 0 {
            return Step::Finish(Err(ReaperError::Config(String::from_str(NO_URL))));
        }
        assert(replies@.skip(0) =~= replies@);
        match run_calls(self.base.as_str(), &self.calls, replies, 0) {
            Progress::Send(u) => Step::Send(u),
            Progress::Finished(Err(e), _) => Step::Finish(Err(e)),
            Progress::Finished(Ok(v), _) => Step::Finish(finish_value(&self.finish, v)),
        }
    }
}

fn text(s: &str) -> (r: String)
    ensures
        r@ == s@,
{
    String::from_str(s)
}

fn set_call(key: &str, value: &str) -> (c: Call)
    ensures
        c@ == CallView::SetExtState(SECTION@, key@, value@),
{
    Call::SetExtState(text(SECTION), text(key), text(value))
}

fn get_call(key: &str) -> (c: Call)
    ensures
        c@ == CallView::GetExtState(SECTION@, key@),
{
    Call::GetExtState(text(SECTION), text(key))
}

fn one(c: Call) -> (v: Vec<Call>)
    ensures
        calls_view(v@) == seq![c@],
{
    let v = vec![c];
    assert(calls_view(v@) =~= seq![c@]);
    v
}

/// The listing workflow: run the script, read the list it left.
pub open spec fn list_view(base: Seq<char>, root: Seq<char>, id: Seq<char>) -> ExchangeView {
    ExchangeView {
        base,
        calls: seq![CallView::Command(id), CallView::GetExtState(SECTION@, FILE_LIST_KEY@)],
        finish: FinishView::Projects(root),
    }
}

/// The listing workflow preceded by writing the root folder, so that the
/// script lists that folder.
pub open spec fn list_in_root_view(base: Seq<char>, root: Seq<char>, id: Seq<char>) -> ExchangeView {
    ExchangeView {
        base,
        calls: seq![
            CallView::SetExtState(SECTION@, ROOT_KEY@, root),
            CallView::Command(id),
            CallView::GetExtState(SECTION@, FILE_LIST_KEY@),
        ],
        finish: FinishView::Projects(root),
    }
}

/// The loading workflow: write the root folder and the path, run the script.
pub open spec fn load_view(base: Seq<char>, root: Seq<char>, path: Seq<char>, id: Seq<char>) -> ExchangeView {
    ExchangeView {
        base,
        calls: seq![
            CallView::SetExtState(SECTION@, ROOT_KEY@, root),
            CallView::SetExtState(SECTION@, LOAD_PATH_KEY@, path),
            CallView::Command(id),
        ],
        finish: FinishView::Nothing,
    }
}

/// A client for the Reaper control surface that `settings` describe.
pub struct ReaperClient<'a> {
    pub settings: &'a Settings,
}

impl<'a> ReaperClient<'a> {
    pub fn new(settings: &'a Settings) -> (r: ReaperClient<'a>)
        ensures
            r.settings == settings,
    {
        ReaperClient { settings }
    }

    pub open spec fn base(&self) -> Seq<char> {
        self.settings.reaper_url@
    }

    fn single(&self, c: Call, finish: Finish) -> (x: Exchange)
        ensures
            x@ == (ExchangeView { base: self.base(), calls: seq![c@], finish: finish@ }),
    {
        Exchange { base: self.settings.reaper_url.clone(), calls: one(c), finish }
    }

    /// Fetches the transport status and gives its HTTP status code, whatever it is.
    pub fn test_connectivity(&self) -> (x: Exchange)
        ensures
            x@ == (ExchangeView {
                base: self.base(),
                calls: seq![CallView::Probe],
                finish: FinishView::Status,
            }),
    {
        self.single(Call::Probe, Finish::Status)
    }

    /// Writes `value` under (`section`, `key`).
    pub fn set_ext_state(&self, section: &str, key: &str, value: &str) -> (x: Exchange)
        ensures
            x@ == (ExchangeView {
                base: self.base(),
                calls: seq![CallView::SetExtState(section@, key@, value@)],
                finish: FinishView::Nothing,
            }),
    {
        self.single(Call::SetExtState(text(section), text(key), text(value)), Finish::Nothing)
    }

    /// Reads the value under (`section`, `key`): some value, or none when the
    /// reply has no recognised shape.
    pub fn get_ext_state(&self, section: &str, key: &str) -> (x: Exchange)
        ensures
            x@ == (ExchangeView {
                base: self.base(),
                calls: seq![CallView::GetExtState(section@, key@)],
                finish: FinishView::Stored,
            }),
    {
        self.single(Call::GetExtState(text(section), text(key)), Finish::Stored)
    }

    /// Sets the value under (`section`, `key`) to the empty string.
    pub fn clear_ext_state(&self, section: &str, key: &str) -> (x: Exchange)
        ensures
            x@ == (ExchangeView {
                base: self.base(),
                calls: seq![CallView::SetExtState(section@, key@, Seq::<char>::empty())],
                finish: FinishView::Nothing,
            }),
    {
        self.single(Call::SetExtState(text(section), text(key), String::new()), Finish::Nothing)
    }

    fn command(&self, c: ReaperCommand) -> (x: Exchange)
        ensures
            x@ == (ExchangeView {
                base: self.base(),
                calls: seq![CallView::Command(c.code())],
                finish: FinishView::Nothing,
            }),
    {
        self.single(Call::Command(c), Finish::Nothing)
    }

    pub fn go_to_end(&self) -> (x: Exchange)
        ensures
            x@ == (ExchangeView {
                base: self.base(),
                calls: seq![CallView::Command("40043"@)],
                finish: FinishView::Nothing,
            }),
    {
        self.command(ReaperCommand::GoToEnd)
    }

    pub fn go_to_start(&self) -> (x: Exchange)
        ensures
            x@ == (ExchangeView {
                base: self.base(),
                calls: seq![CallView::Command("40042"@)],
                finish: FinishView::Nothing,
            }),
    {
        self.command(ReaperCommand::GoToStart)
    }

    pub fn new_tab(&self) -> (x: Exchange)
        ensures
            x@ == (ExchangeView {
                base: self.base(),
                calls: seq![CallView::Command("40859"@)],
                finish: FinishView::Nothing,
            }),
    {
        self.command(ReaperCommand::NewTab)
    }

    pub fn close_all_tabs(&self) -> (x: Exchange)
        ensures
            x@ == (ExchangeView {
                base: self.base(),
                calls: seq![CallView::Command("40860"@)],
                finish: FinishView::Nothing,
            }),
    {
        self.command(ReaperCommand::CloseAllTabs)
    }

    /// Moves the cursor to the end of the project, then reads the play
    /// position there: the project's length. The cursor stays at the end.
    pub fn get_duration(&self) -> (x: Exchange)
        ensures
            x@ == (ExchangeView {
                base: self.base(),
                calls: seq![CallView::Command("40043"@), CallView::Command("TRANSPORT"@)],
                finish: FinishView::Position,
            }),
    {
        let calls = vec![Call::Command(ReaperCommand::GoToEnd), Call::Command(ReaperCommand::GetTransport)];
        assert(calls_view(calls@) =~= seq![CallView::Command("40043"@), CallView::Command("TRANSPORT"@)]);
        Exchange { base: self.settings.reaper_url.clone(), calls, finish: Finish::Position }
    }

    /// Tells the scripts which folder holds the projects, by writing it into
    /// ExtState; no script runs.
    pub fn set_project_root(&self, folder_path: &str) -> (x: Exchange)
        ensures
            x@ == (ExchangeView {
                base: self.base(),
                calls: seq![CallView::SetExtState(SECTION@, ROOT_KEY@, folder_path@)],
                finish: FinishView::Nothing,
            }),
    {
        self.single(set_call(ROOT_KEY, folder_path), Finish::Nothing)
    }

    /// Runs the listing script, then reads the list it left in ExtState. The
    /// read follows the trigger at once: a script that has not finished by then
    /// leaves the previous list to be read.
    pub fn list_projects(&self) -> (r: Result<Exchange, ReaperError>)
        ensures
            match self.settings.list_projects_script_action_id {
                None => r is Err && r->Err_0@ == ErrorView::Config(NO_LIST_ACTION@),
                Some(id) => r is Ok && r->Ok_0@ == list_view(
                    self.base(),
                    self.settings.folder_path@,
                    id@,
                ),
            },
    {
        match &self.settings.list_projects_script_action_id {
            None => Err(ReaperError::Config(text(NO_LIST_ACTION))),
            Some(id) => {
                let calls = vec![Call::Command(ReaperCommand::RunAction(id.clone())), get_call(FILE_LIST_KEY)];
                assert(calls_view(calls@) =~= seq![
                    CallView::Command(id@),
                    CallView::GetExtState(SECTION@, FILE_LIST_KEY@),
                ]);
                Ok(
                    Exchange {
                        base: self.settings.reaper_url.clone(),
                        calls,
                        finish: Finish::Projects(self.settings.folder_path.clone()),
                    },
                )
            },
        }
    }

    /// Writes the configured root folder, then lists the projects under it; a
    /// failed write ends the workflow before the script runs.
    pub fn list_projects_in_root(&self) -> (r: Result<Exchange, ReaperError>)
        ensures
            match self.settings.list_projects_script_action_id {
                None => r is Err && r->Err_0@ == ErrorView::Config(NO_LIST_ACTION@),
                Some(id) => r is Ok && r->Ok_0@ == list_in_root_view(
                    self.base(),
                    self.settings.folder_path@,
                    id@,
                ),
            },
    {
        match &self.settings.list_projects_script_action_id {
            None => Err(ReaperError::Config(text(NO_LIST_ACTION))),
            Some(id) => {
                let calls = vec![
                    set_call(ROOT_KEY, self.settings.folder_path.as_str()),
                    Call::Command(ReaperCommand::RunAction(id.clone())),
                    get_call(FILE_LIST_KEY),
                ];
                assert(calls_view(calls@) =~= seq![
                    CallView::SetExtState(SECTION@, ROOT_KEY@, self.settings.folder_path@),
                    CallView::Command(id@),
                    CallView::GetExtState(SECTION@, FILE_LIST_KEY@),
                ]);
                Ok(
                    Exchange {
                        base: self.settings.reaper_url.clone(),
                        calls,
                        finish: Finish::Projects(self.settings.folder_path.clone()),
                    },
                )
            },
        }
    }

    /// Writes the root folder and the relative path for the loading script, then runs it.
    pub fn load_project_by_path(&self, relative_path: &str) -> (r: Result<Exchange, ReaperError>)
        ensures
            match self.settings.load_project_script_action_id {
                None => r is Err && r->Err_0@ == ErrorView::Config(NO_LOAD_ACTION@),
                Some(id) => r is Ok && r->Ok_0@ == load_view(
                    self.base(),
                    self.settings.folder_path@,
                    relative_path@,
                    id@,
                ),
            },
    {
        match &self.settings.load_project_script_action_id {
            None => Err(ReaperError::Config(text(NO_LOAD_ACTION))),
            Some(id) => {
                let calls = vec![
                    set_call(ROOT_KEY, self.settings.folder_path.as_str()),
                    set_call(LOAD_PATH_KEY, relative_path),
                    Call::Command(ReaperCommand::RunAction(id.clone())),
                ];
                assert(calls_view(calls@) =~= seq![
                    CallView::SetExtState(SECTION@, ROOT_KEY@, self.settings.folder_path@),
                    CallView::SetExtState(SECTION@, LOAD_PATH_KEY@, relative_path@),
                    CallView::Command(id@),
                ]);
                Ok(Exchange { base: self.settings.reaper_url.clone(), calls, finish: Finish::Nothing })
            },
        }
    }

    /// Tells the scripts to simulate their effect rather than perform it.
    pub fn enable_dummy_mode(&self) -> (x: Exchange)
        ensures
            x@ == (ExchangeView {
                base: self.base(),
                calls: seq![CallView::SetExtState(SECTION@, DUMMY_KEY@, "true"@)],
                finish: FinishView::Nothing,
            }),
    {
        self.single(set_call(DUMMY_KEY, "true"), Finish::Nothing)
    }

    /// Tells the scripts to perform their effect.
    pub fn disable_dummy_mode(&self) -> (x: Exchange)
        ensures
            x@ == (ExchangeView {
                base: self.base(),
                calls: seq![CallView::SetExtState(SECTION@, DUMMY_KEY@, "false"@)],
                finish: FinishView::Nothing,
            }),
    {
        self.single(set_call(DUMMY_KEY, "false"), Finish::Nothing)
    }

    /// Reads what the loading script reported about its last run.
    pub fn get_last_load_result(&self) -> (x: Exchange)
        ensures
            x@ == (ExchangeView {
                base: self.base(),
                calls: seq![CallView::GetExtState(SECTION@, LAST_LOAD_KEY@)],
                finish: FinishView::Stored,
            }),
    {
        self.single(get_call(LAST_LOAD_KEY), Finish::Stored)
    }
}

} // verus!
