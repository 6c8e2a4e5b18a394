use vstd::prelude::*;

use crate::api::{
    ApiError, ApiResponse, ApiResponsePayload, ApiResult, ReplyShape, VmInfo, VmmPingResponse,
};
use std::sync::mpsc::RecvError;

verus! {

/// Where a call stands: which transport step it waits on.
#[derive(Clone, Copy, Debug, PartialEq, Eq, Structural)]
pub enum CallPhase {
    /// The envelope is being pushed onto the command queue.
    AwaitSend,
    /// The dispatcher's wakeup event is being signalled.
    AwaitNotify,
    /// The caller blocks on its reply channel.
    AwaitReply,
    /// The call has produced its one result.
    Done,
}

/// What a transport step reported.
pub enum CallEvent {
    /// The push onto the command queue succeeded (`true`) or the queue's
    /// consumer was gone (`false`).
    Sent(bool),
    /// The outcome of signalling the wakeup event.
    Notified(Result<(), std::io::Error>),
    /// The outcome of the blocking receive on the reply channel.
    Replied(Result<ApiResponse, RecvError>),
}

/// What the caller must do next.
pub enum CallAction {
    /// Signal the dispatcher's wakeup event.
    Notify,
    /// Block on the reply channel.
    Receive,
    /// Return this result to the caller; the call is over.
    Complete(ApiResult<ApiResponsePayload>),
}

/// The transport step whose outcome a call in `phase` waits for.
pub open spec fn accepts(phase: CallPhase, event: CallEvent) -> bool {
    match phase {
        CallPhase::AwaitSend => event is Sent,
        CallPhase::AwaitNotify => event is Notified,
        CallPhase::AwaitReply => event is Replied,
        CallPhase::Done => false,
    }
}

/// Whether a payload has the shape that a command expects back.
pub open spec fn fits(shape: ReplyShape, payload: ApiResponsePayload) -> bool {
    match shape {
        ReplyShape::Any => true,
        ReplyShape::VmInfo => payload is VmInfo,
        ReplyShape::VmmPing => payload is VmmPing,
    }
}

/// The protocol: a failed push or signal ends the call with the matching
/// transport error; a closed reply channel ends it with a receive error; a
/// reply ends it with what the dispatcher sent, unless the payload lacks the
/// shape the command expects, which ends it with a payload-type error.
pub open spec fn next(shape: ReplyShape, event: CallEvent) -> (CallPhase, CallAction) {
    match event {
        CallEvent::Sent(ok) => if ok {
            (CallPhase::AwaitNotify, CallAction::Notify)
        } else {
            (CallPhase::Done, CallAction::Complete(Err(ApiError::RequestSend)))
        },
        CallEvent::Notified(Ok(())) => (CallPhase::AwaitReply, CallAction::Receive),
        CallEvent::Notified(Err(e)) => (
            CallPhase::Done,
            CallAction::Complete(Err(ApiError::EventFdWrite(e))),
        ),
        CallEvent::Replied(Ok(Ok(payload))) => (
            CallPhase::Done,
            CallAction::Complete(
                if fits(shape, payload) {
                    Ok(payload)
                } else {
                    Err(ApiError::ResponsePayloadType)
                },
            ),
        ),
        CallEvent::Replied(Ok(Err(e))) => (CallPhase::Done, CallAction::Complete(Err(e))),
        CallEvent::Replied(Err(e)) => (
            CallPhase::Done,
            CallAction::Complete(Err(ApiError::ResponseRecv(e))),
        ),
    }
}

fn shape_fits(shape: ReplyShape, payload: &ApiResponsePayload) -> (r: bool)
    ensures
        r == fits(shape, *payload),
{
    match shape {
        ReplyShape::Any => true,
        ReplyShape::VmInfo => matches!(payload, ApiResponsePayload::VmInfo(_)),
        ReplyShape::VmmPing => matches!(payload, ApiResponsePayload::VmmPing(_)),
    }
}

/// One call of the control channel, from the push of its envelope to its
/// result.
pub struct ApiCall {
    phase: CallPhase,
    shape: ReplyShape,
}

impl ApiCall {
    pub closed spec fn phase_of(&self) -> CallPhase {
        self.phase
    }

    /// The payload shape this call accepts in a reply.
    pub closed spec fn shape_of(&self) -> ReplyShape {
        self.shape
    }

    /// A call whose envelope, expecting a reply of the given shape, is about
    /// to be pushed.
    pub fn new(shape: ReplyShape) -> (r: ApiCall)
        ensures
            r.phase_of() == CallPhase::AwaitSend,
            r.shape_of() == shape,
    {
        ApiCall { phase: CallPhase::AwaitSend, shape }
    }

    pub fn phase(&self) -> (r: CallPhase)
        ensures
            r == self.phase_of(),
    {
        self.phase
    }

    /// Takes the outcome of the step the call waits on and says what to do
    /// next.
    pub fn handle(&mut self, event: CallEvent) -> (r: CallAction)
        requires
            accepts(old(self).phase_of(), event),
        ensures
            (final(self).phase_of(), r) == next(old(self).shape_of(), event),
            final(self).shape_of() == old(self).shape_of(),
    {
        match event {
            CallEvent::Sent(ok) => {
                if ok {
                    self.phase = CallPhase::AwaitNotify;
                    CallAction::Notify
                } else {
                    self.phase = CallPhase::Done;
                    CallAction::Complete(Err(ApiError::RequestSend))
                }
            },
            CallEvent::Notified(Ok(())) => {
                self.phase = CallPhase::AwaitReply;
                CallAction::Receive
            },
            CallEvent::Notified(Err(e)) => {
                self.phase = CallPhase::Done;
                CallAction::Complete(Err(ApiError::EventFdWrite(e)))
            },
            CallEvent::Replied(Ok(Ok(payload))) => {
                self.phase = CallPhase::Done;
                if shape_fits(self.shape, &payload) {
                    CallAction::Complete(Ok(payload))
                } else {
                    CallAction::Complete(Err(ApiError::ResponsePayloadType))
                }
            },
            CallEvent::Replied(Ok(Err(e))) => {
                self.phase = CallPhase::Done;
                CallAction::Complete(Err(e))
            },
            CallEvent::Replied(Err(e)) => {
                self.phase = CallPhase::Done;
                CallAction::Complete(Err(ApiError::ResponseRecv(e)))
            },
        }
    }
}

/// The result of a command that returns no data: any payload acknowledges it.
pub fn unit_result(outcome: ApiResult<ApiResponsePayload>) -> (r: ApiResult<()>)
    ensures
        match outcome {
            Ok(_) => r == Ok::<(), ApiError>(()),
            Err(e) => r == Err::<(), ApiError>(e),
        },
{
    match outcome {
        Ok(_) => Ok(()),
        Err(e) => Err(e),
    }
}

/// The result of a VM info command: a payload of another shape is refused.
pub fn vm_info_result(outcome: ApiResult<ApiResponsePayload>) -> (r: ApiResult<VmInfo>)
    ensures
        match outcome {
            Ok(ApiResponsePayload::VmInfo(info)) => r == Ok::<VmInfo, ApiError>(info),
            Ok(_) => r == Err::<VmInfo, ApiError>(ApiError::ResponsePayloadType),
            Err(e) => r == Err::<VmInfo, ApiError>(e),
        },
{
    match outcome {
        Ok(ApiResponsePayload::VmInfo(info)) => Ok(info),
        Ok(_) => Err(ApiError::ResponsePayloadType),
        Err(e) => Err(e),
    }
}

/// The result of a ping command: a payload of another shape is refused.
pub fn ping_result(outcome: ApiResult<ApiResponsePayload>) -> (r: ApiResult<VmmPingResponse>)
    ensures
        match outcome {
            Ok(ApiResponsePayload::VmmPing(pong)) => r == Ok::<VmmPingResponse, ApiError>(pong),
            Ok(_) => r == Err::<VmmPingResponse, ApiError>(ApiError::ResponsePayloadType),
            Err(e) => r == Err::<VmmPingResponse, ApiError>(e),
        },
{
    match outcome {
        Ok(ApiResponsePayload::VmmPing(pong)) => Ok(pong),
        Ok(_) => Err(ApiError::ResponsePayloadType),
        Err(e) => Err(e),
    }
}

/// The actions a call in `phase` emits when fed `events` in turn, with the
/// phase it ends in; `None` where some event is not the one it waits on.
pub open spec fn run(
    shape: ReplyShape,
    phase: CallPhase,
    events: Seq<CallEvent>,
) -> Option<(CallPhase, Seq<CallAction>)>
    decreases events.len(),
{
    if events.len() == 0 {
        Some((phase, Seq::empty()))
    } else if !accepts(phase, events[0]) {
        None
    } else {
        let (p, a) = next(shape, events[0]);
        match run(shape, p, events.drop_first()) {
            Some((q, rest)) => Some((q, seq![a] + rest)),
            None => None,
        }
    }
}

/// How many results the actions hand to the caller.
pub open spec fn completions(actions: Seq<CallAction>) -> nat
    decreases actions.len(),
{
    if actions.len() == 0 {
        0
    } else {
        (if actions[0] is Complete { 1nat } else { 0nat }) + completions(actions.drop_first())
    }
}

/// How many transport steps a call in `phase` has still to wait on, at most.
pub open spec fn steps_left(phase: CallPhase) -> nat {
    match phase {
        CallPhase::AwaitSend => 3,
        CallPhase::AwaitNotify => 2,
        CallPhase::AwaitReply => 1,
        CallPhase::Done => 0,
    }
}

/// Whether every result among the actions that succeeded carries a payload of
/// the given shape.
pub open spec fn successes_fit(shape: ReplyShape, actions: Seq<CallAction>) -> bool {
    forall|i: int|
        #![trigger actions[i]]
        0 <= i < actions.len() ==> (actions[i] matches CallAction::Complete(Ok(payload)) ==> fits(
            shape,
            payload,
        ))
}

proof fn lemma_run_from(shape: ReplyShape, phase: CallPhase, events: Seq<CallEvent>)
    requires
        run(shape, phase, events) is Some,
    ensures
        ({
            let (last, actions) = run(shape, phase, events)->0;
            &&& events.len() <= steps_left(phase)
            &&& events.len() == steps_left(phase) ==> last == CallPhase::Done
            &&& completions(actions) == if last == CallPhase::Done && phase != CallPhase::Done {
                1nat
            } else {
                0nat
            }
            &&& last == CallPhase::Done && phase != CallPhase::Done ==> actions.last() is Complete
            &&& successes_fit(shape, actions)
        }),
    decreases events.len(),
{
    if events.len() > 0 {
        let (p, a) = next(shape, events[0]);
        let rest = events.drop_first();
        lemma_run_from(shape, p, rest);
        let (q, tail) = run(shape, p, rest)->0;
        let actions = seq![a] + tail;
        assert(actions[0] == a);
        assert(actions.drop_first() =~= tail);
        assert forall|i: int| 0 < i < actions.len() implies actions[i] == tail[i - 1] by {}
        if p == CallPhase::Done {
            assert(rest.len() == 0) by {
                if rest.len() > 0 {
                    assert(!accepts(p, rest[0]));
                }
            }
            assert(tail.len() == 0);
        } else {
            if tail.len() > 0 {
                assert(actions.last() == tail.last());
            }
        }
    }
}

/// A call hands its caller exactly one result, of the right shape: fed the
/// outcomes of the transport steps it waits on, a fresh call completes at
/// most once, it has completed exactly when it is done, the completion is its
/// last action, once the three steps have all reported it is done, and a
/// successful result carries a payload of the shape the command expects.
pub proof fn lemma_single_result(shape: ReplyShape, events: Seq<CallEvent>)
    requires
        run(shape, CallPhase::AwaitSend, events) is Some,
    ensures
        ({
            let (last, actions) = run(shape, CallPhase::AwaitSend, events)->0;
            &&& completions(actions) <= 1
            &&& completions(actions) == 1 <==> last == CallPhase::Done
            &&& last == CallPhase::Done ==> actions.last() is Complete
            &&& events.len() <= 3
            &&& events.len() == 3 ==> last == CallPhase::Done
            &&& successes_fit(shape, actions)
        }),
        forall|e: CallEvent| !accepts(CallPhase::Done, e),
{
    lemma_run_from(shape, CallPhase::AwaitSend, events);
}

/// A caller is never left blocked by a dispatcher that goes away: once its
/// envelope is queued and signalled, a reply channel closed without a reply
/// completes the call, with a receive error and nothing else.
pub proof fn lemma_closed_reply_completes(shape: ReplyShape, e: RecvError)
    ensures
        ({
            let events = seq![
                CallEvent::Sent(true),
                CallEvent::Notified(Ok(())),
                CallEvent::Replied(Err(e)),
            ];
            run(shape, CallPhase::AwaitSend, events) == Some((
                CallPhase::Done,
                seq![
                    CallAction::Notify,
                    CallAction::Receive,
                    CallAction::Complete(Err(ApiError::ResponseRecv(e))),
                ],
            ))
        }),
{
    let events = seq![
        CallEvent::Sent(true),
        CallEvent::Notified(Ok(())),
        CallEvent::Replied(Err(e)),
    ];
    let last = seq![CallAction::Complete(Err(ApiError::ResponseRecv(e)))];
    let e2 = events.drop_first();
    let e3 = e2.drop_first();
    assert(e2 =~= seq![CallEvent::Notified(Ok(())), CallEvent::Replied(Err(e))]);
    assert(e3 =~= seq![CallEvent::Replied(Err(e))]);
    assert(e3.drop_first() =~= Seq::<CallEvent>::empty());
    assert(run(shape, CallPhase::Done, e3.drop_first()) == Some(
        (CallPhase::Done, Seq::<CallAction>::empty()),
    ));
    assert(last =~= seq![last[0]] + Seq::<CallAction>::empty());
    assert(run(shape, CallPhase::AwaitReply, e3) == Some((CallPhase::Done, last)));
    let two = seq![CallAction::Receive] + last;
    assert(run(shape, CallPhase::AwaitNotify, e2) == Some((CallPhase::Done, two)));
    assert(seq![CallAction::Notify] + two =~= seq![
        CallAction::Notify,
        CallAction::Receive,
        CallAction::Complete(Err(ApiError::ResponseRecv(e))),
    ]);
}

} // verus!
