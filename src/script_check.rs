//! End-to-end check that an installed script really runs.
//!
//! The check writes a nonce into `test_nonce_in`, switches the scripts to dummy
//! mode, runs the workflow under test, and reads `test_nonce_out`, where a
//! script that ran leaves the nonce followed by `_modified`. Dummy mode and both
//! nonce keys are reset afterwards, whatever happened; a failure while resetting
//! does not change the outcome.
use vstd::prelude::*;

use crate::exchange::calls_view;
use crate::exchange::run_all;
use crate::exchange::run_calls;
use crate::exchange::Call;
use crate::exchange::CallValue;
use crate::exchange::CallView;
use crate::exchange::Progress;
use crate::exchange::ProgressView;
use crate::exchange::Reply;
use crate::exchange::ValueView;
use crate::protocol::ErrorView;
use crate::protocol::ReaperError;
use crate::text::text_eq;
use crate::workflow::finish_value;
use crate::workflow::finish_view;
use crate::workflow::list_view;
use crate::workflow::load_view;
use crate::workflow::NO_LIST_ACTION;
use crate::workflow::NO_LOAD_ACTION;
use crate::workflow::NO_URL;
use crate::workflow::result_view;
use crate::workflow::stored_of;
use crate::workflow::Exchange;
use crate::workflow::ExchangeView;
use crate::workflow::Output;
use crate::workflow::OutputView;
use crate::workflow::ReaperClient;
use crate::workflow::Step;
use crate::workflow::StepView;
use crate::workflow::DUMMY_KEY;
use crate::workflow::NONCE_IN_KEY;
use crate::workflow::NONCE_OUT_KEY;
use crate::workflow::NONCE_SUFFIX;
use crate::workflow::SECTION;

verus! {

pub open spec fn set_view(key: Seq<char>, value: Seq<char>) -> CallView {
    CallView::SetExtState(SECTION@, key, value)
}

pub open spec fn nonce_in_calls(nonce: Seq<char>) -> Seq<CallView> {
    seq![set_view(NONCE_IN_KEY@, nonce)]
}

pub open spec fn dummy_on_calls() -> Seq<CallView> {
    seq![set_view(DUMMY_KEY@, "true"@)]
}

pub open spec fn clear_in_calls() -> Seq<CallView> {
    seq![set_view(NONCE_IN_KEY@, Seq::<char>::empty())]
}

pub open spec fn nonce_out_calls() -> Seq<CallView> {
    seq![CallView::GetExtState(SECTION@, NONCE_OUT_KEY@)]
}

/// The resets that follow the check: dummy mode off, both nonce keys emptied.
pub open spec fn reset_calls() -> Seq<CallView> {
    seq![
        set_view(DUMMY_KEY@, "false"@),
        set_view(NONCE_OUT_KEY@, Seq::<char>::empty()),
        set_view(NONCE_IN_KEY@, Seq::<char>::empty()),
    ]
}

/// Runs each of `calls` from index `i` on its own, ignoring failures: the URL
/// still to be sent, or none when all are through.
pub open spec fn sweep(base: Seq<char>, calls: Seq<CallView>, replies: Seq<Reply>, i: nat) -> Option<
    Seq<char>,
>
    decreases calls.len() - i,
{
    if i >= calls.len() {
        None
    } else {
        match run_all(base, seq![calls[i as int]], replies) {
            ProgressView::Send(u) => Some(u),
            ProgressView::Finished(_, n) => sweep(base, calls, replies.skip(n as int), i + 1),
        }
    }
}

/// The outcome: the workflow's own error if it failed, else the error of the
/// nonce read, else success exactly when the read gave `nonce` + `_modified`.
pub open spec fn nonce_outcome(
    outcome: Result<OutputView, ErrorView>,
    read: Result<ValueView, ErrorView>,
    nonce: Seq<char>,
) -> Result<OutputView, ErrorView> {
    match outcome {
        Err(e) => Err(e),
        Ok(_) => match read {
            Err(e) => Err(e),
            Ok(v) => if stored_of(v) == Some(nonce + NONCE_SUFFIX@) {
                Ok(OutputView::Done)
            } else {
                Err(ErrorView::NonceMismatch)
            },
        },
    }
}

/// The steps after the workflow under test ended with `outcome`: read the
/// nonce back, reset, then give the outcome.
pub open spec fn tail_step(
    base: Seq<char>,
    outcome: Result<OutputView, ErrorView>,
    nonce: Seq<char>,
    r: Seq<Reply>,
) -> StepView {
    match run_all(base, nonce_out_calls(), r) {
        ProgressView::Send(u) => StepView::Send(u),
        ProgressView::Finished(read, n) => match sweep(base, reset_calls(), r.skip(n as int), 0) {
            Some(u) => StepView::Send(u),
            None => StepView::Finish(nonce_outcome(outcome, read, nonce)),
        },
    }
}

/// The next step of the check of workflow `target` with `nonce`, once `r` have come back.
/// Without a configured Reaper URL the check fails at once, sending nothing.
pub open spec fn check_step(target: ExchangeView, nonce: Seq<char>, r: Seq<Reply>) -> StepView {
    let base = target.base;
    if base.len() == 0 {
        StepView::Finish(Err(ErrorView::Config(NO_URL@)))
    } else {
        check_run(base, target, nonce, r)
    }
}

/// The check against a configured base URL.
pub open spec fn check_run(base: Seq<char>, target: ExchangeView, nonce: Seq<char>, r: Seq<Reply>) -> StepView {
    match run_all(base, nonce_in_calls(nonce), r) {
        ProgressView::Send(u) => StepView::Send(u),
        ProgressView::Finished(Err(e), _) => StepView::Finish(Err(e)),
        ProgressView::Finished(Ok(_), n0) => {
            let r1 = r.skip(n0 as int);
            match run_all(base, dummy_on_calls(), r1) {
                ProgressView::Send(u) => StepView::Send(u),
                ProgressView::Finished(Err(e), n1) => match run_all(
                    base,
                    clear_in_calls(),
                    r1.skip(n1 as int),
                ) {
                    ProgressView::Send(u) => StepView::Send(u),
                    ProgressView::Finished(_, _) => StepView::Finish(Err(e)),
                },
                ProgressView::Finished(Ok(_), n1) => {
                    let r2 = r1.skip(n1 as int);
                    match run_all(base, target.calls, r2) {
                        ProgressView::Send(u) => StepView::Send(u),
                        ProgressView::Finished(res, n2) => {
                            let outcome = match res {
                                Ok(v) => finish_view(target.finish, v),
                                Err(e) => Err(e),
                            };
                            tail_step(base, outcome, nonce, r2.skip(n2 as int))
                        },
                    }
                },
            }
        },
    }
}

/// Decides the check from the workflow's result and the read of `test_nonce_out`.
pub fn decide_nonce(
    outcome: Result<Output, ReaperError>,
    read: Result<CallValue, ReaperError>,
    nonce: &str,
) -> (r: Result<Output, ReaperError>)
    ensures
        result_view(r) == nonce_outcome(
            result_view(outcome),
            match read {
                Ok(v) => Ok(v@),
                Err(e) => Err(e@),
            },
            nonce@,
        ),
{
    match outcome {
        Err(e) => Err(e),
        Ok(_) => match read {
            Err(e) => Err(e),
            Ok(CallValue::Stored(Some(v))) => {
                let mut expected = String::from_str(nonce);
                expected.append(NONCE_SUFFIX);
                if text_eq(v.as_str(), expected.as_str()) {
                    Ok(Output::Done)
                } else {
                    Err(ReaperError::NonceMismatch)
                }
            },
            Ok(_) => Err(ReaperError::NonceMismatch),
        },
    }
}

fn set_one(key: &str, value: &str) -> (v: Vec<Call>)
    ensures
        calls_view(v@) == seq![set_view(key@, value@)],
{
    let v = vec![
        Call::SetExtState(String::from_str(SECTION), String::from_str(key), String::from_str(value)),
    ];
    assert(calls_view(v@) =~= seq![set_view(key@, value@)]);
    v
}

fn clear_one(key: &str) -> (v: Vec<Call>)
    ensures
        calls_view(v@) == seq![set_view(key@, Seq::<char>::empty())],
{
    let v = vec![Call::SetExtState(String::from_str(SECTION), String::from_str(key), String::new())];
    assert(calls_view(v@) =~= seq![set_view(key@, Seq::<char>::empty())]);
    v
}

/// Sends the resets in turn from `replies[at]` on, each one whatever became of
/// the one before: the URL still to be sent, or none when all are through.
fn reset(base: &str, replies: &Vec<Reply>, at: usize) -> (r: Option<String>)
    requires
        at <= replies.len(),
    ensures
        match sweep(base@, reset_calls(), replies@.skip(at as int), 0) {
            Some(u) => r is Some && r->0@ == u,
            None => r is None,
        },
{
    let resets = vec![set_one(DUMMY_KEY, "false"), clear_one(NONCE_OUT_KEY), clear_one(NONCE_IN_KEY)];
    let ghost rc = reset_calls();
    let ghost r = replies@;
    let mut pos = at;
    let mut i: usize = 0;
    while i < resets.len()
        invariant
            resets.len() == 3,
            calls_view(resets@[0]@) == seq![rc[0]],
            calls_view(resets@[1]@) == seq![rc[1]],
            calls_view(resets@[2]@) == seq![rc[2]],
            rc == reset_calls(),
            i <= 3,
            pos <= replies.len(),
            r == replies@,
            sweep(base@, rc, r.skip(at as int), 0) == sweep(base@, rc, r.skip(pos as int), i as nat),
        decreases 3 - i,
    {
        assert(calls_view(resets@[i as int]@) == seq![rc[i as int]]);
        match run_calls(base, &resets[i], replies, pos) {
            Progress::Send(u) => {
                return Some(u);
            },
            Progress::Finished(_, n) => {
                assert(r.skip(pos as int).skip(n as int) =~= r.skip(pos + n));
                pos = pos + n;
            },
        }
        i = i + 1;
    }
    None
}

/// A check, in progress, that the script behind a workflow runs.
pub struct ScriptCheck {
    pub target: Exchange,
    pub nonce: String,
}

impl ScriptCheck {
    /// The check of `target` with `nonce`, which should be fresh.
    pub fn new(target: Exchange, nonce: String) -> (c: ScriptCheck)
        ensures
            c.target@ == target@,
            c.nonce@ == nonce@,
    {
        ScriptCheck { target, nonce }
    }

    /// The next step once `replies` (one per URL sent, in order) have come back.
    pub fn step(&self, replies: &Vec<Reply>) -> (s: Step)
        ensures
            s@ == check_step(self.target@, self.nonce@, replies@),
    {
        if self.target.base.as_str().unicode_len() == 0 {
            return Step::Finish(Err(ReaperError::Config(String::from_str(NO_URL))));
        }
        let base = self.target.base.as_str();
        let ghost r = replies@;
        assert(r.skip(0) =~= r);
        let n0 = match run_calls(base, &set_one(NONCE_IN_KEY, self.nonce.as_str()), replies, 0) {
            Progress::Send(u) => {
                return Step::Send(u);
            },
            Progress::Finished(Err(e), _) => {
                return Step::Finish(Err(e));
            },
            Progress::Finished(Ok(_), n) => n,
        };
        let ghost r1 = r.skip(n0 as int);
        let n1 = match run_calls(base, &set_one(DUMMY_KEY, "true"), replies, n0) {
            Progress::Send(u) => {
                return Step::Send(u);
            },
            Progress::Finished(Err(e), n) => {
                assert(r1.skip(n as int) =~= r.skip(n0 + n));
                return match run_calls(base, &clear_one(NONCE_IN_KEY), replies, n0 + n) {
                    Progress::Send(u) => Step::Send(u),
                    Progress::Finished(_, _) => Step::Finish(Err(e)),
                };
            },
            Progress::Finished(Ok(_), n) => n,
        };
        let at2 = n0 + n1;
        let ghost r2 = r1.skip(n1 as int);
        assert(r2 =~= r.skip(at2 as int));
        let (outcome, n2) = match run_calls(base, &self.target.calls, replies, at2) {
            Progress::Send(u) => {
                return Step::Send(u);
            },
            Progress::Finished(Err(e), n) => (Err(e), n),
            Progress::Finished(Ok(v), n) => (finish_value(&self.target.finish, v), n),
        };
        let at3 = at2 + n2;
        assert(r2.skip(n2 as int) =~= r.skip(at3 as int));
        self.tail(outcome, replies, at3)
    }

    fn tail(&self, outcome: Result<Output, ReaperError>, replies: &Vec<Reply>, at: usize) -> (s:
        Step)
        requires
            at <= replies.len(),
        ensures
            s@ == tail_step(self.target.base@, result_view(outcome), self.nonce@, replies@.skip(at as int)),
    {
        let base = self.target.base.as_str();
        let get_out = vec![
            Call::GetExtState(String::from_str(SECTION), String::from_str(NONCE_OUT_KEY)),
        ];
        assert(calls_view(get_out@) =~= nonce_out_calls());
        let (read, n) = match run_calls(base, &get_out, replies, at) {
            Progress::Send(u) => {
                return Step::Send(u);
            },
            Progress::Finished(res, n) => (res, n),
        };
        assert(replies@.skip(at as int).skip(n as int) =~= replies@.skip(at + n));
        match reset(base, replies, at + n) {
            Some(u) => Step::Send(u),
            None => Step::Finish(decide_nonce(outcome, read, self.nonce.as_str())),
        }
    }
}

/// The project path that the loading script is asked for while checked.
pub const TEST_PATH: &'static str = "test-dummy-song.rpp";

impl<'a> ReaperClient<'a> {
    /// The check that the loading script runs: it loads a dummy path in dummy mode.
    pub fn check_load_project_script(&self, nonce: String) -> (r: Result<ScriptCheck, ReaperError>)
        ensures
            match self.settings.load_project_script_action_id {
                None => r is Err && r->Err_0@ == ErrorView::Config(NO_LOAD_ACTION@),
                Some(id) => r is Ok && r->Ok_0.nonce@ == nonce@ && r->Ok_0.target@ == load_view(
                    self.base(),
                    self.settings.folder_path@,
                    TEST_PATH@,
                    id@,
                ),
            },
    {
        match self.load_project_by_path(TEST_PATH) {
            Ok(x) => Ok(ScriptCheck::new(x, nonce)),
            Err(e) => Err(e),
        }
    }

    /// The check that the listing script runs, in dummy mode.
    pub fn check_list_projects_script(&self, nonce: String) -> (r: Result<ScriptCheck, ReaperError>)
        ensures
            match self.settings.list_projects_script_action_id {
                None => r is Err && r->Err_0@ == ErrorView::Config(NO_LIST_ACTION@),
                Some(id) => r is Ok && r->Ok_0.nonce@ == nonce@ && r->Ok_0.target@ == list_view(
                    self.base(),
                    self.settings.folder_path@,
                    id@,
                ),
            },
    {
        match self.list_projects() {
            Ok(x) => Ok(ScriptCheck::new(x, nonce)),
            Err(e) => Err(e),
        }
    }
}

} // verus!
