//! Properties that hold of the library as a whole, proved over the same spec
//! functions that the operations' contracts use.
use vstd::prelude::*;

use crate::decimal::BAD_TRANSPORT_LINE;
use crate::exchange::call_result;
use crate::exchange::call_url;
use crate::exchange::run;
use crate::exchange::run_all;
use crate::exchange::CallView;
use crate::exchange::ProgressView;
use crate::exchange::Reply;
use crate::exchange::ValueView;
use crate::protocol::ErrorView;
use crate::protocol::success_status;
use crate::script_check::check_step;
use crate::script_check::dummy_on_calls;
use crate::script_check::nonce_in_calls;
use crate::script_check::nonce_out_calls;
use crate::script_check::nonce_outcome;
use crate::script_check::reset_calls;
use crate::script_check::sweep;
use crate::workflow::ExchangeView;
use crate::workflow::StepView;
use crate::store::StoredInDb;
use crate::text::split_view;
use crate::workflow::finish_view;
use crate::workflow::FinishView;
use crate::workflow::OutputView;
use crate::workflow::NONCE_SUFFIX;

verus! {

/// A record saved into a store is what fetching its id then gives; once it is
/// deleted, its id is not found.
pub proof fn lemma_save_get_delete<T: StoredInDb>(db: Map<Seq<char>, T>, record: T)
    ensures
        db.insert(record.key(), record).contains_key(record.key()),
        db.insert(record.key(), record)[record.key()] == record,
        !db.insert(record.key(), record).remove(record.key()).contains_key(record.key()),
{
}

/// Two writers that both start from `db` and each save one record: whoever
/// writes last leaves a mapping without the other's record, unless it was
/// there already. The store does not prevent this lost update.
pub proof fn lemma_lost_update<T: StoredInDb>(db: Map<Seq<char>, T>, first: T, second: T)
    requires
        first.key() != second.key(),
        !db.contains_key(first.key()),
    ensures
        !db.insert(second.key(), second).contains_key(first.key()),
{
}

/// A project listing whose script left the empty value gives no projects;
/// one whose value starts with `ERROR` fails with a command error, whatever follows.
pub proof fn lemma_project_list_edges(root: Seq<char>, rest: Seq<char>)
    ensures
        finish_view(FinishView::Projects(root), ValueView::Stored(Some(Seq::<char>::empty())))
            == Ok::<OutputView, ErrorView>(OutputView::Projects(Seq::<Seq<char>>::empty())),
        finish_view(FinishView::Projects(root), ValueView::Stored(Some("ERROR"@ + rest))) matches Err(
            ErrorView::Command(_),
        ),
{
    reveal_strlit("ERROR");
    let v = "ERROR"@ + rest;
    assert(v.take("ERROR"@.len() as int) =~= "ERROR"@);
}

/// A transport reply with fewer than three tab-separated fields makes the
/// length measurement fail with a parse error.
pub proof fn lemma_short_transport_line(body: Seq<char>)
    requires
        split_view(body, '\t').len() < 3,
    ensures
        finish_view(FinishView::Position, ValueView::Text(body)) == Err::<OutputView, ErrorView>(
            ErrorView::Parse(BAD_TRANSPORT_LINE@),
        ),
{
}

/// Once the workflow under test succeeded, the script check passes exactly
/// when `test_nonce_out` holds the nonce followed by `_modified`; any other
/// value, or none, is a nonce mismatch.
pub proof fn lemma_nonce_check(ran: OutputView, nonce_out: Option<Seq<char>>, nonce: Seq<char>)
    ensures
        nonce_out == Some(nonce + NONCE_SUFFIX@) ==> nonce_outcome(
            Ok(ran),
            Ok(ValueView::Stored(nonce_out)),
            nonce,
        ) == Ok::<OutputView, ErrorView>(OutputView::Done),
        nonce_out != Some(nonce + NONCE_SUFFIX@) ==> nonce_outcome(
            Ok(ran),
            Ok(ValueView::Stored(nonce_out)),
            nonce,
        ) == Err::<OutputView, ErrorView>(ErrorView::NonceMismatch),
{
}

proof fn lemma_run_done(
    base: Seq<char>,
    calls: Seq<CallView>,
    replies: Seq<Reply>,
    i: nat,
    last: ValueView,
)
    requires
        replies.len() >= calls.len(),
    ensures
        run(base, calls, replies, i, last) is Finished,
    decreases calls.len() - i,
{
    if i < calls.len() {
        if let Ok(_) = call_url(base, calls[i as int]) {
            if let Ok(v) = call_result(calls[i as int], replies[i as int]) {
                lemma_run_done(base, calls, replies, i + 1, v);
            }
        }
    }
}

/// Every call of a workflow is sent at most once: with a reply for each of
/// its calls, a workflow has finished and asks for nothing more.
pub proof fn lemma_at_most_once(base: Seq<char>, calls: Seq<CallView>, replies: Seq<Reply>)
    requires
        replies.len() >= calls.len(),
    ensures
        run_all(base, calls, replies) is Finished,
{
    lemma_run_done(base, calls, replies, 0, ValueView::Unit);
}

/// Every call in `calls` has a well-formed URL against `base`.
pub open spec fn urls_ok(base: Seq<char>, calls: Seq<CallView>) -> bool {
    forall|i: int| 0 <= i < calls.len() ==> (#[trigger] call_url(base, calls[i])) is Ok
}

/// Reaper answered with a 2xx status.
pub open spec fn answered_ok(r: Reply) -> bool {
    r matches Reply::Answered { status, .. } && success_status(status)
}

proof fn lemma_run_succeeds(
    base: Seq<char>,
    calls: Seq<CallView>,
    replies: Seq<Reply>,
    i: nat,
    last: ValueView,
)
    requires
        urls_ok(base, calls),
        replies.len() >= calls.len(),
        forall|j: int| 0 <= j < calls.len() ==> answered_ok(#[trigger] replies[j]),
    ensures
        run(base, calls, replies, i, last) matches ProgressView::Finished(Ok(_), n) && (i
            <= calls.len() ==> n == calls.len()),
    decreases calls.len() - i,
{
    if i < calls.len() {
        assert(call_url(base, calls[i as int]) is Ok);
        assert(answered_ok(replies[i as int]));
        let v = call_result(calls[i as int], replies[i as int])->Ok_0;
        lemma_run_succeeds(base, calls, replies, i + 1, v);
    }
}

proof fn lemma_run_one(base: Seq<char>, c: CallView, r: Seq<Reply>)
    requires
        call_url(base, c) is Ok,
        r.len() >= 1,
    ensures
        run_all(base, seq![c], r) == match call_result(c, r[0]) {
            Ok(v) => ProgressView::Finished(Ok(v), 1),
            Err(e) => ProgressView::Finished(Err(e), 1),
        },
{
    let calls = seq![c];
    assert(calls[0] == c);
    if let Ok(v) = call_result(c, r[0]) {
        assert(run(base, calls, r, 1, v) == ProgressView::Finished(Ok(v), 1));
    }
}

/// The script check of a workflow that succeeds: once `test_nonce_in` is
/// written, dummy mode is on, every call of the workflow is answered with
/// success and the read of `test_nonce_out` gives `out`, the check ends after
/// the three resets, whatever became of them, and passes exactly when `out` is
/// the nonce followed by `_modified`; otherwise it fails with a nonce mismatch.
pub proof fn lemma_nonce_scenario(
    x: ExchangeView,
    nonce: Seq<char>,
    r: Seq<Reply>,
    out: Option<Seq<char>>,
)
    requires
        x.base.len() > 0,
        x.finish == FinishView::Nothing,
        urls_ok(x.base, x.calls),
        urls_ok(x.base, nonce_in_calls(nonce)),
        urls_ok(x.base, dummy_on_calls()),
        urls_ok(x.base, nonce_out_calls()),
        urls_ok(x.base, reset_calls()),
        r.len() == x.calls.len() + 6,
        forall|j: int| 0 <= j < x.calls.len() + 2 ==> answered_ok(#[trigger] r[j]),
        call_result(nonce_out_calls()[0], r[x.calls.len() + 2int]) == Ok::<ValueView, ErrorView>(
            ValueView::Stored(out),
        ),
    ensures
        check_step(x, nonce, r) == StepView::Finish(
            if out == Some(nonce + NONCE_SUFFIX@) {
                Ok::<OutputView, ErrorView>(OutputView::Done)
            } else {
                Err::<OutputView, ErrorView>(ErrorView::NonceMismatch)
            },
        ),
{
    let base = x.base;
    let k = x.calls.len();
    assert(call_url(base, nonce_in_calls(nonce)[0]) is Ok);
    assert(answered_ok(r[0]));
    lemma_run_one(base, nonce_in_calls(nonce)[0], r);
    assert(nonce_in_calls(nonce) == seq![nonce_in_calls(nonce)[0]]);
    let r1 = r.skip(1);
    assert(r1[0] == r[1]);
    assert(answered_ok(r[1]));
    assert(call_url(base, dummy_on_calls()[0]) is Ok);
    lemma_run_one(base, dummy_on_calls()[0], r1);
    assert(dummy_on_calls() == seq![dummy_on_calls()[0]]);
    let r2 = r1.skip(1);
    assert forall|j: int| 0 <= j < k implies answered_ok(#[trigger] r2[j]) by {
        assert(r2[j] == r[j + 2]);
    }
    lemma_run_succeeds(base, x.calls, r2, 0, ValueView::Unit);
    let r3 = r2.skip(k as int);
    assert(r3[0] == r[k + 2int]);
    assert(call_url(base, nonce_out_calls()[0]) is Ok);
    lemma_run_one(base, nonce_out_calls()[0], r3);
    assert(nonce_out_calls() == seq![nonce_out_calls()[0]]);
    let r4 = r3.skip(1);
    let rc = reset_calls();
    assert(call_url(base, rc[0]) is Ok);
    assert(call_url(base, rc[1]) is Ok);
    assert(call_url(base, rc[2]) is Ok);
    lemma_run_one(base, rc[0], r4);
    lemma_run_one(base, rc[1], r4.skip(1));
    lemma_run_one(base, rc[2], r4.skip(1).skip(1));
    assert(run_all(base, nonce_in_calls(nonce), r) matches ProgressView::Finished(Ok(_), n) && n == 1);
    assert(run_all(base, dummy_on_calls(), r1) matches ProgressView::Finished(Ok(_), n) && n == 1);
    assert(r.skip(1).skip(1) == r2);
    assert(run_all(base, x.calls, r2) matches ProgressView::Finished(Ok(_), n) && n == k);
    assert(r3[0] == r[k + 2int]);
    assert(run_all(base, nonce_out_calls(), r3) == ProgressView::Finished(
        Ok::<ValueView, ErrorView>(ValueView::Stored(out)),
        1,
    ));
    assert(seq![rc[0]] == seq![reset_calls()[0 as int]]);
    assert(sweep(base, rc, r4.skip(1).skip(1).skip(1), 3) is None);
    assert(sweep(base, rc, r4.skip(1).skip(1), 2) is None);
    assert(sweep(base, rc, r4.skip(1), 1) is None);
    assert(sweep(base, rc, r4, 0) is None);
}

} // verus!
