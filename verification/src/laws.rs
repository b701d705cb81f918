//! What holds of every session, proved over the model in [`Session`].

use crate::bootstrap::Bootstrap;
use crate::decoder::{Session, Stage};
use crate::engine::{read_outcome, Reply, Request, STATUS_DONE, STATUS_OK};
use crate::error::Failure;
use vstd::prelude::*;

verus! {

/// The session after the engine's answers `replies`, taken in order.
pub open spec fn run(start: Session, replies: Seq<Reply>) -> Session
    decreases replies.len(),
{
    if replies.len() == 0 {
        start
    } else {
        run(start, replies.drop_last()).after(replies.last())
    }
}

/// How many of the answers `replies` handed the session a new handle.
pub open spec fn acquired(start: Session, replies: Seq<Reply>) -> int
    decreases replies.len(),
{
    if replies.len() == 0 {
        0
    } else {
        acquired(start, replies.drop_last()) + if run(start, replies.drop_last()).acquires(
            replies.last(),
        ) {
            1int
        } else {
            0int
        }
    }
}

/// How many of the answers `replies` confirmed that a handle was freed.
pub open spec fn freed(start: Session, replies: Seq<Reply>) -> int
    decreases replies.len(),
{
    if replies.len() == 0 {
        0
    } else {
        freed(start, replies.drop_last()) + if run(start, replies.drop_last()).frees(
            replies.last(),
        ) {
            1int
        } else {
            0int
        }
    }
}

/// Whether `reply` is the answer to the call `request`.
pub open spec fn answers(reply: Reply, request: Request) -> bool {
    match (request, reply) {
        (Request::Initialize, Reply::Initialized { .. }) => true,
        (Request::Allocate, Reply::Allocated { .. }) => true,
        (Request::Configure { .. }, Reply::Configured { .. }) => true,
        (Request::Open { .. }, Reply::Opened { .. }) => true,
        (Request::QueryFormat { .. }, Reply::FormatQueried { .. }) => true,
        (Request::Close { .. }, Reply::Closed { .. }) => true,
        (Request::Delete { .. }, Reply::Deleted) => true,
        _ => false,
    }
}

/// An upper bound on the engine calls that a session at `stage` still asks for.
pub open spec fn calls_left(stage: Stage) -> nat {
    match stage {
        Stage::Bootstrapping => 7,
        Stage::Allocating => 6,
        Stage::Configuring => 5,
        Stage::Opening => 4,
        Stage::Negotiating => 3,
        Stage::Closing => 2,
        Stage::Deleting => 1,
        Stage::Ready | Stage::Released => 0,
    }
}

/// Whether each of the answers `replies` is the answer to the call that the
/// session waits for when it arrives, as it is with a driver that makes the
/// call asked for and reports what came back.
pub open spec fn follows(start: Session, replies: Seq<Reply>) -> bool
    decreases replies.len(),
{
    replies.len() == 0 || {
        &&& follows(start, replies.drop_last())
        &&& run(start, replies.drop_last()).request() is Some
        &&& answers(replies.last(), run(start, replies.drop_last()).request()->0)
    }
}

/// A transition keeps a session well-formed.
pub proof fn lemma_step_keeps_wf(s: Session, reply: Reply)
    requires
        s.wf(),
    ensures
        s.after(reply).wf(),
{
}

/// One answer changes the number of outstanding handles by what it acquires
/// and what it frees, and by nothing else.
pub proof fn lemma_step_accounts(s: Session, reply: Reply)
    ensures
        s.after(reply).outstanding() == s.outstanding() + (if s.acquires(reply) {
            1int
        } else {
            0int
        }) - (if s.frees(reply) {
            1int
        } else {
            0int
        }),
{
}

/// Over any sequence of answers a well-formed session stays well-formed, and
/// the handles it has outstanding are those it acquired less those it freed.
pub proof fn lemma_run_accounts(start: Session, replies: Seq<Reply>)
    requires
        start.wf(),
    ensures
        run(start, replies).wf(),
        run(start, replies).outstanding() == start.outstanding() + acquired(start, replies)
            - freed(start, replies),
    decreases replies.len(),
{
    if replies.len() > 0 {
        lemma_run_accounts(start, replies.drop_last());
        lemma_step_keeps_wf(run(start, replies.drop_last()), replies.last());
        lemma_step_accounts(run(start, replies.drop_last()), replies.last());
    }
}

/// Handles balance: over any sequence of answers, a session is given at
/// most one handle, never has more freed than it was given, never has a
/// handle freed twice, and once released has had freed exactly what it held
/// or was given.
pub proof fn lemma_handles_balance(start: Session, replies: Seq<Reply>)
    requires
        start.wf(),
    ensures
        0 <= freed(start, replies) <= start.outstanding() + acquired(start, replies) <= 1,
        0 <= acquired(start, replies),
        run(start, replies).stage == Stage::Bootstrapping || run(start, replies).stage
            == Stage::Allocating ==> start.outstanding() + acquired(start, replies) == 0,
        run(start, replies).stage == Stage::Released ==> freed(start, replies)
            == start.outstanding() + acquired(start, replies),
        run(start, replies).stage == Stage::Released ==> run(start, replies).handle == 0,
        freed(start, replies) > 0 ==> run(start, replies).stage == Stage::Released,
        start.stage == Stage::Released ==> run(start, replies) == start && acquired(
            start,
            replies,
        ) == 0 && freed(start, replies) == 0,
    decreases replies.len(),
{
    lemma_run_accounts(start, replies);
    if replies.len() > 0 {
        let before = replies.drop_last();
        lemma_handles_balance(start, before);
        lemma_run_accounts(start, before);
    }
}

/// No leak: whatever the engine answers, a session that started from nothing
/// and is over has had every handle freed that it was given. This is so
/// after each way in which construction can fail, and it stays so when the
/// session is let go of at any point on the way.
pub proof fn lemma_released_holds_nothing(
    source: Seq<char>,
    params: Option<i64>,
    before: Seq<Reply>,
    after: Seq<Reply>,
)
    ensures
        ({
            let start = Session::initial(source, params);
            let end = run(start, before);
            &&& end.stage == Stage::Released ==> acquired(start, before) == freed(start, before)
            &&& end.stage == Stage::Released ==> end.outstanding() == 0
            &&& run(end.disposed(), after).stage == Stage::Released ==> acquired(start, before)
                + acquired(end.disposed(), after) == freed(start, before) + freed(
                end.disposed(),
                after,
            )
            &&& freed(start, before) + freed(end.disposed(), after) <= 1
        }),
{
    let start = Session::initial(source, params);
    let end = run(start, before);
    lemma_handles_balance(start, before);
    lemma_run_accounts(start, before);
    lemma_dispose_keeps(end);
    lemma_handles_balance(end.disposed(), after);
}

/// Construction is all or nothing: driven by engine answers alone, a session
/// comes to rest either ready, with a format and no failure, or released,
/// with a failure, no format and no handle. It has failed exactly when it is
/// released or on its way to giving the handle back.
pub proof fn lemma_construction_outcome(
    source: Seq<char>,
    params: Option<i64>,
    replies: Seq<Reply>,
)
    ensures
        ({
            let end = run(Session::initial(source, params), replies);
            &&& end.wf()
            &&& end.source == source
            &&& end.params == params
            &&& end.stage == Stage::Ready ==> end.format is Some && end.failure is None
            &&& end.stage == Stage::Released ==> end.failure is Some && end.format is None
                && end.handle == 0
            &&& end.failure is Some <==> end.stage == Stage::Closing || end.stage
                == Stage::Deleting || end.stage == Stage::Released
        }),
    decreases replies.len(),
{
    if replies.len() > 0 {
        lemma_construction_outcome(source, params, replies.drop_last());
    }
}

/// The format is fixed once negotiated: whatever the engine answers
/// afterwards, and whether or not the session is disposed of, a session that
/// has a format keeps exactly that format.
pub proof fn lemma_format_is_fixed(s: Session, replies: Seq<Reply>)
    requires
        s.wf(),
        s.format is Some,
    ensures
        run(s, replies).format == s.format,
        run(s.disposed(), replies).format == s.format,
        run(s, replies).disposed().format == s.format,
    decreases replies.len(),
{
    if replies.len() > 0 {
        let before = replies.drop_last();
        lemma_format_is_fixed(s, before);
        lemma_run_accounts(s, before);
        lemma_dispose_keeps(s);
        lemma_run_accounts(s.disposed(), before);
    }
}

/// Letting go of a session keeps it well-formed, changes neither the handle
/// it holds nor its format nor its failure, and leaves it waiting for the
/// close or the free call exactly when it holds a handle.
pub proof fn lemma_dispose_keeps(s: Session)
    requires
        s.wf(),
    ensures
        s.disposed().wf(),
        s.disposed().outstanding() == s.outstanding(),
        s.disposed().handle == s.handle,
        s.disposed().format == s.format,
        s.disposed().failure == s.failure,
        s.disposed().holds_handle() <==> s.disposed().stage == Stage::Closing
            || s.disposed().stage == Stage::Deleting,
        !s.disposed().holds_handle() <==> s.disposed().stage == Stage::Released,
{
}

/// Disposal is idempotent: letting go twice is letting go once.
pub proof fn lemma_dispose_is_idempotent(s: Session)
    ensures
        s.disposed().disposed() == s.disposed(),
{
}

/// A released session is over: it asks for no engine call, so no handle is
/// freed twice, and neither an answer nor another disposal changes it.
pub proof fn lemma_released_is_final(s: Session, reply: Reply)
    requires
        s.stage == Stage::Released,
    ensures
        s.request() is None,
        s.after(reply) == s,
        s.disposed() == s,
        !s.frees(reply),
{
}

/// Disposal always completes: from the close call on, the free call follows
/// whatever status the close reported, and after it the session holds
/// nothing. A failed close is recorded and blocks nothing.
pub proof fn lemma_disposal_completes(s: Session, close_status: i32)
    requires
        s.wf(),
        s.stage == Stage::Closing,
    ensures
        s.request() == Some(Request::Close { handle: s.handle }),
        s.after(Reply::Closed { status: close_status }).request() == Some(
            Request::Delete { handle: s.handle },
        ),
        s.after(Reply::Closed { status: close_status }).close_failed == (close_status
            != crate::engine::STATUS_OK),
        s.after(Reply::Closed { status: close_status }).after(Reply::Deleted).stage
            == Stage::Released,
        s.after(Reply::Closed { status: close_status }).after(Reply::Deleted).outstanding() == 0,
        s.after(Reply::Closed { status: close_status }).after(Reply::Deleted).failure
            == s.failure,
{
}

/// Progress: the answer to the pending call brings the session strictly
/// closer to rest, so a driver that answers each request is done after at
/// most seven engine calls; an answer to any other call changes nothing.
pub proof fn lemma_answer_makes_progress(s: Session, reply: Reply)
    requires
        s.wf(),
    ensures
        s.request() is None <==> s.at_rest(),
        s.request() is Some && answers(reply, s.request()->0) ==> calls_left(
            s.after(reply).stage,
        ) < calls_left(s.stage),
        s.request() is None || !answers(reply, s.request()->0) ==> s.after(reply) == s,
{
}

/// A driver comes to an end: answers that follow the session's requests
/// each use up one of the calls that were left, so construction takes at
/// most seven engine calls and disposal at most two.
pub proof fn lemma_driver_comes_to_rest(start: Session, replies: Seq<Reply>)
    requires
        start.wf(),
        follows(start, replies),
    ensures
        replies.len() + calls_left(run(start, replies).stage) <= calls_left(start.stage),
        replies.len() <= 7,
        start.stage == Stage::Closing ==> replies.len() <= 2,
        start.at_rest() ==> replies.len() == 0,
    decreases replies.len(),
{
    if replies.len() > 0 {
        let before = replies.drop_last();
        lemma_driver_comes_to_rest(start, before);
        lemma_run_accounts(start, before);
        lemma_answer_makes_progress(run(start, before), replies.last());
    }
}

/// The engine is asked to work on a handle only while the session holds it,
/// and then on that handle.
pub proof fn lemma_requests_name_held_handle(s: Session)
    requires
        s.wf(),
    ensures
        match s.request() {
            Some(Request::Configure { handle, flags }) => handle == s.handle && handle != 0
                && s.params == Some(flags) && crate::engine::recognized(flags),
            Some(Request::Open { handle }) => handle == s.handle && handle != 0
                && crate::decoder::passable(s.source),
            Some(Request::QueryFormat { handle }) => handle == s.handle && handle != 0,
            Some(Request::Close { handle }) => handle == s.handle && handle != 0,
            Some(Request::Delete { handle }) => handle == s.handle && handle != 0,
            Some(Request::Initialize) | Some(Request::Allocate) => s.handle == 0,
            None => true,
        },
{
}

/// Each failure of construction comes on exactly the answer that is said to
/// cause it, named by the stage at which the answer arrives.
pub proof fn lemma_failure_causes(s: Session, reply: Reply)
    requires
        s.wf(),
        s.failure is None,
        !s.at_rest(),
        s.stage != Stage::Closing,
        s.stage != Stage::Deleting,
        answers(reply, s.request()->0),
    ensures
        s.after(reply).failure == Some(Failure::InitializationFailed) <==> s.stage
            == Stage::Bootstrapping && reply != (Reply::Initialized {
            status: crate::engine::STATUS_OK,
        }),
        s.after(reply).failure == Some(Failure::AllocationFailed) <==> s.stage
            == Stage::Allocating && !s.acquires(reply),
        s.after(reply).failure == Some(Failure::ParameterRejected) <==> (s.acquires(reply)
            && s.params is Some && !crate::engine::recognized(s.params->0)) || (s.stage
            == Stage::Configuring && reply != (Reply::Configured {
            status: crate::engine::STATUS_OK,
        })),
        s.after(reply).failure == Some(Failure::OpenFailed { source: s.source }) <==> (
        s.acquires(reply) && s.params is None && !crate::decoder::passable(s.source)) || (s.stage
            == Stage::Configuring && reply == (Reply::Configured {
            status: crate::engine::STATUS_OK,
        }) && !crate::decoder::passable(s.source)) || (s.stage == Stage::Opening && reply != (
        Reply::Opened { status: crate::engine::STATUS_OK })),
        s.after(reply).failure == Some(Failure::FormatNegotiationFailed) <==> s.stage
            == Stage::Negotiating && !(reply matches Reply::FormatQueried { status, .. }
            && status == crate::engine::STATUS_OK),
        s.after(reply).failure is None <==> s.after(reply).stage != Stage::Closing && s.after(
            reply,
        ).stage != Stage::Deleting && s.after(reply).stage != Stage::Released,
{
}

/// A read fails with bad input only on an engine fault: a status that is
/// success gives `Ok`, the end of the stream gives `EOF` however often it is
/// reported, and only a status that is neither gives `BadInput`.
pub proof fn lemma_read_fails_only_on_fault(status: i32)
    ensures
        read_outcome(status) == Ok::<(), Failure>(()) <==> status == STATUS_OK,
        read_outcome(status) == Err::<(), Failure>(Failure::EOF) <==> status == STATUS_DONE,
        read_outcome(status) == Err::<(), Failure>(Failure::BadInput) <==> status != STATUS_OK
            && status != STATUS_DONE,
{
}

/// The engine is initialised at most once per process: the first status
/// recorded stands, whatever is recorded later.
pub proof fn lemma_first_record_stands(gate: Bootstrap, first: i32, later: i32)
    ensures
        gate.recording(first).recorded is Some,
        gate.recorded is None ==> gate.recording(first).recorded == Some(first),
        gate.recording(first).recording(later) == gate.recording(first),
{
}

} // verus!
