//! The priority-change handler.
//!
//! A write request runs through five stages. At each stage the handler
//! either asks the host for one thing or finishes the request. The handler
//! itself never touches the host: `boost_write` takes the stage reached and
//! the host's last answer, and gives the next stage and the next host call.
//! The caller performs that call and comes back with the answer.

use vstd::prelude::*;
use crate::dispatch::Completion;
use crate::request::ThreadData;
use crate::status::{is_success, nt_success, NtStatus, STATUS_INVALID_PARAMETER, STATUS_SUCCESS};

verus! {

/// A counted reference to a live thread object, as the host handed it out.
/// Whoever holds one must give it back exactly once.
#[derive(Clone, Copy, Debug, PartialEq, Eq, Structural)]
pub struct ThreadRef {
    pub object: usize,
}

/// The stage that a write request is in.
#[derive(Clone, Copy, Debug, PartialEq, Eq, Structural)]
pub enum WriteState {
    /// The request has arrived; whether it carries a payload is not known.
    Entry,
    /// A payload is there and is being read.
    Validated,
    /// The priority is in range; the host is resolving the thread.
    Resolved { request: ThreadData },
    /// A thread reference is held. The priority is being applied, or, once
    /// `priority_set` holds, the reference is being given back.
    Applied { thread: ThreadRef, priority_set: bool },
    /// The request has been finished with `status`. Nothing follows.
    Completed { status: NtStatus },
}

/// What the host reports back to the handler.
#[derive(Clone, Copy, Debug, PartialEq, Eq, Structural)]
pub enum WriteEvent {
    /// The request was dispatched; `buffer_present` tells whether its payload
    /// pointer is non-null.
    Dispatched { buffer_present: bool },
    /// The payload was read.
    PayloadRead { request: ThreadData },
    /// The thread lookup returned. `thread` means something only if `status`
    /// reports success.
    LookupDone { status: NtStatus, thread: ThreadRef },
    /// The priority was applied.
    PriorityApplied,
    /// The thread reference was given back.
    ReferenceReleased,
}

/// What the handler asks of the host next.
#[derive(Clone, Copy, Debug, PartialEq, Eq, Structural)]
pub enum WriteAction {
    /// Read the payload from the request's buffer.
    ReadPayload,
    /// Resolve a thread identifier into a counted reference.
    LookupThread { thread_id: u32 },
    /// Set the priority of the referenced thread.
    SetPriority { thread: ThreadRef, priority: i32 },
    /// Give the reference back.
    ReleaseThread { thread: ThreadRef },
    /// Store status and byte count in the request, signal its completion
    /// and return the status to the host.
    Complete { done: Completion },
}

/// The step that ends a request with `status` and no bytes transferred.
pub open spec fn finish(status: NtStatus) -> (WriteState, WriteAction) {
    (
        WriteState::Completed { status },
        WriteAction::Complete { done: Completion { status, information: 0 } },
    )
}

/// The handler's transition function. `None` stands for an answer that the
/// stage does not wait for; in particular nothing follows `Completed`.
pub open spec fn write_transition(state: WriteState, event: WriteEvent) -> Option<
    (WriteState, WriteAction),
> {
    match (state, event) {
        (WriteState::Entry, WriteEvent::Dispatched { buffer_present }) => {
            if buffer_present {
                Some((WriteState::Validated, WriteAction::ReadPayload))
            } else {
                Some(finish(STATUS_INVALID_PARAMETER))
            }
        },
        (WriteState::Validated, WriteEvent::PayloadRead { request }) => {
            if request.priority_in_range() {
                Some(
                    (
                        WriteState::Resolved { request },
                        WriteAction::LookupThread { thread_id: request.thread_id },
                    ),
                )
            } else {
                Some(finish(STATUS_INVALID_PARAMETER))
            }
        },
        (WriteState::Resolved { request }, WriteEvent::LookupDone { status, thread }) => {
            if is_success(status) {
                Some(
                    (
                        WriteState::Applied { thread, priority_set: false },
                        WriteAction::SetPriority { thread, priority: request.priority },
                    ),
                )
            } else {
                Some(finish(status))
            }
        },
        (WriteState::Applied { thread, priority_set: false }, WriteEvent::PriorityApplied) => Some(
            (
                WriteState::Applied { thread, priority_set: true },
                WriteAction::ReleaseThread { thread },
            ),
        ),
        (WriteState::Applied { thread, priority_set: true }, WriteEvent::ReferenceReleased) => Some(
            finish(STATUS_SUCCESS),
        ),
        _ => None,
    }
}

/// Whether a thread reference is held in a stage.
pub open spec fn holds_reference(state: WriteState) -> bool {
    state is Applied
}

/// Ends a request with `status` and no bytes transferred.
fn finish_with(status: NtStatus) -> (step: (WriteState, WriteAction))
    ensures
        step == finish(status),
{
    (
        WriteState::Completed { status },
        WriteAction::Complete { done: Completion { status, information: 0 } },
    )
}

/// One step of the priority-change handler.
///
/// Given the stage reached and the host's answer to the previous call, gives
/// the next stage and the call to make next:
/// - a request without a payload ends with invalid-parameter;
/// - a payload whose priority lies outside 1 to 31 ends with
///   invalid-parameter, before any lookup;
/// - a failed lookup ends the request with the host's status, unchanged;
/// - after a lookup that succeeded the priority is set, then the reference
///   is given back, then the request ends with success.
/// An answer that the stage does not wait for gives `None`.
pub fn boost_write(state: WriteState, event: WriteEvent) -> (step: Option<
    (WriteState, WriteAction),
>)
    ensures
        step == write_transition(state, event),
{
    match (state, event) {
        (WriteState::Entry, WriteEvent::Dispatched { buffer_present }) => {
            if buffer_present {
                Some((WriteState::Validated, WriteAction::ReadPayload))
            } else {
                Some(finish_with(STATUS_INVALID_PARAMETER))
            }
        },
        (WriteState::Validated, WriteEvent::PayloadRead { request }) => {
            if request.has_valid_priority() {
                Some(
                    (
                        WriteState::Resolved { request },
                        WriteAction::LookupThread { thread_id: request.thread_id },
                    ),
                )
            } else {
                Some(finish_with(STATUS_INVALID_PARAMETER))
            }
        },
        (WriteState::Resolved { request }, WriteEvent::LookupDone { status, thread }) => {
            if nt_success(status) {
                Some(
                    (
                        WriteState::Applied { thread, priority_set: false },
                        WriteAction::SetPriority { thread, priority: request.priority },
                    ),
                )
            } else {
                Some(finish_with(status))
            }
        },
        (WriteState::Applied { thread, priority_set }, WriteEvent::PriorityApplied) => {
            if priority_set {
                None
            } else {
                Some(
                    (
                        WriteState::Applied { thread, priority_set: true },
                        WriteAction::ReleaseThread { thread },
                    ),
                )
            }
        },
        (WriteState::Applied { thread: _, priority_set }, WriteEvent::ReferenceReleased) => {
            if priority_set {
                Some(finish_with(STATUS_SUCCESS))
            } else {
                None
            }
        },
        _ => None,
    }
}

/// How the host answers in the course of one request: whether the request
/// has a payload, what the payload holds, and what the thread lookup gives.
pub struct WriteHost {
    pub buffer_present: bool,
    pub payload: ThreadData,
    pub lookup_status: NtStatus,
    pub thread: ThreadRef,
}

/// The host's answer to a call, or `None` once the request is completed.
pub open spec fn host_answer(host: WriteHost, action: WriteAction) -> Option<WriteEvent> {
    match action {
        WriteAction::ReadPayload => Some(WriteEvent::PayloadRead { request: host.payload }),
        WriteAction::LookupThread { .. } => Some(
            WriteEvent::LookupDone { status: host.lookup_status, thread: host.thread },
        ),
        WriteAction::SetPriority { .. } => Some(WriteEvent::PriorityApplied),
        WriteAction::ReleaseThread { .. } => Some(WriteEvent::ReferenceReleased),
        WriteAction::Complete { .. } => None,
    }
}

/// How many host calls a stage may still be away from the end.
pub open spec fn stage_rank(state: WriteState) -> nat {
    match state {
        WriteState::Entry => 5,
        WriteState::Validated => 4,
        WriteState::Resolved { .. } => 3,
        WriteState::Applied { priority_set: false, .. } => 2,
        WriteState::Applied { priority_set: true, .. } => 1,
        WriteState::Completed { .. } => 0,
    }
}

/// The host calls that the handler makes, in order, from a stage on, when
/// the host answers as `host` says.
pub open spec fn calls_from(host: WriteHost, state: WriteState, event: WriteEvent) -> Seq<
    WriteAction,
>
    decreases stage_rank(state),
{
    match write_transition(state, event) {
        None => Seq::empty(),
        Some((next, action)) => match host_answer(host, action) {
            None => seq![action],
            Some(answer) => seq![action] + calls_from(host, next, answer),
        },
    }
}

/// The host calls of one whole write request, in order.
pub open spec fn write_calls(host: WriteHost) -> Seq<WriteAction> {
    calls_from(
        host,
        WriteState::Entry,
        WriteEvent::Dispatched { buffer_present: host.buffer_present },
    )
}

/// The call that completes a request with `status` and no bytes transferred.
pub open spec fn complete_with(status: NtStatus) -> WriteAction {
    WriteAction::Complete { done: Completion { status, information: 0 } }
}

/// A request without a payload is completed with invalid-parameter, and the
/// host is asked for nothing else.
pub proof fn lemma_null_payload(host: WriteHost)
    requires
        !host.buffer_present,
    ensures
        write_calls(host) == seq![complete_with(STATUS_INVALID_PARAMETER)],
{
    reveal_with_fuel(calls_from, 2);
    assert(write_calls(host) =~= seq![complete_with(STATUS_INVALID_PARAMETER)]);
}

/// A priority below 1 or above 31 is refused with invalid-parameter, and no
/// thread is ever looked up for it.
pub proof fn lemma_priority_out_of_range(host: WriteHost)
    requires
        host.buffer_present,
        host.payload.priority < 1 || host.payload.priority > 31,
    ensures
        write_calls(host) == seq![
            WriteAction::ReadPayload,
            complete_with(STATUS_INVALID_PARAMETER),
        ],
        forall|i: int|
            0 <= i < write_calls(host).len() ==> !(#[trigger] write_calls(host)[i]
                is LookupThread),
{
    reveal_with_fuel(calls_from, 3);
    assert(write_calls(host) =~= seq![
        WriteAction::ReadPayload,
        complete_with(STATUS_INVALID_PARAMETER),
    ]);
}

/// Where the thread identifier resolves to nothing, the request ends with the
/// host's lookup status as it came. No reference was taken, so none is given
/// back, and no priority is changed.
pub proof fn lemma_unresolvable_thread(host: WriteHost)
    requires
        host.buffer_present,
        host.payload.priority_in_range(),
        !is_success(host.lookup_status),
    ensures
        write_calls(host) == seq![
            WriteAction::ReadPayload,
            WriteAction::LookupThread { thread_id: host.payload.thread_id },
            complete_with(host.lookup_status),
        ],
        forall|i: int|
            0 <= i < write_calls(host).len() ==> {
                &&& !(#[trigger] write_calls(host)[i] is SetPriority)
                &&& !(write_calls(host)[i] is ReleaseThread)
            },
{
    reveal_with_fuel(calls_from, 4);
    assert(write_calls(host) =~= seq![
        WriteAction::ReadPayload,
        WriteAction::LookupThread { thread_id: host.payload.thread_id },
        complete_with(host.lookup_status),
    ]);
}

/// For a payload in range whose thread resolves, the handler looks the thread
/// up once, sets the requested priority on it once, gives the reference back
/// once, in this order, and completes the request with success.
pub proof fn lemma_priority_applied(host: WriteHost)
    requires
        host.buffer_present,
        host.payload.priority_in_range(),
        is_success(host.lookup_status),
    ensures
        write_calls(host) == seq![
            WriteAction::ReadPayload,
            WriteAction::LookupThread { thread_id: host.payload.thread_id },
            WriteAction::SetPriority { thread: host.thread, priority: host.payload.priority },
            WriteAction::ReleaseThread { thread: host.thread },
            complete_with(STATUS_SUCCESS),
        ],
        forall|i: int|
            0 <= i < write_calls(host).len() ==> {
                &&& (#[trigger] write_calls(host)[i] is LookupThread <==> i == 1)
                &&& (write_calls(host)[i] is SetPriority <==> i == 2)
                &&& (write_calls(host)[i] is ReleaseThread <==> i == 3)
            },
{
    reveal_with_fuel(calls_from, 6);
    assert(write_calls(host) =~= seq![
        WriteAction::ReadPayload,
        WriteAction::LookupThread { thread_id: host.payload.thread_id },
        WriteAction::SetPriority { thread: host.thread, priority: host.payload.priority },
        WriteAction::ReleaseThread { thread: host.thread },
        complete_with(STATUS_SUCCESS),
    ]);
}

/// The status that a write request ends with: invalid-parameter where the
/// payload is missing or its priority is out of range, the host's own status
/// where the lookup fails, and success in every other case.
pub open spec fn write_status(host: WriteHost) -> NtStatus {
    if !host.buffer_present || !host.payload.priority_in_range() {
        STATUS_INVALID_PARAMETER
    } else if !is_success(host.lookup_status) {
        host.lookup_status
    } else {
        STATUS_SUCCESS
    }
}

/// Whatever the host answers, a request is completed exactly once, as the
/// last of at most five calls, with the status that `write_status` gives
/// and a byte count of 0.
pub proof fn lemma_completed_once(host: WriteHost)
    ensures
        1 <= write_calls(host).len() <= 5,
        write_calls(host).last() == complete_with(write_status(host)),
        forall|i: int|
            0 <= i < write_calls(host).len() ==> (#[trigger] write_calls(host)[i] is Complete
                <==> i == write_calls(host).len() - 1),
{
    if !host.buffer_present {
        lemma_null_payload(host);
    } else if !host.payload.priority_in_range() {
        lemma_priority_out_of_range(host);
    } else if !is_success(host.lookup_status) {
        lemma_unresolvable_thread(host);
    } else {
        lemma_priority_applied(host);
    }
}

/// Whatever the host answers, a thread reference is given back exactly when
/// one was taken, never twice, and it is the one that the lookup gave.
pub proof fn lemma_reference_released_once(host: WriteHost)
    ensures
        (exists|i: int|
            0 <= i < write_calls(host).len() && #[trigger] write_calls(host)[i] is ReleaseThread)
            <==> host.buffer_present && host.payload.priority_in_range() && is_success(
            host.lookup_status,
        ),
        forall|i: int, j: int|
            0 <= i < write_calls(host).len() && 0 <= j < write_calls(host).len()
                && #[trigger] write_calls(host)[i] is ReleaseThread
                && #[trigger] write_calls(host)[j] is ReleaseThread ==> i == j,
        forall|i: int|
            0 <= i < write_calls(host).len() && #[trigger] write_calls(host)[i] is ReleaseThread
                ==> write_calls(host)[i] == (WriteAction::ReleaseThread { thread: host.thread }),
{
    if !host.buffer_present {
        lemma_null_payload(host);
    } else if !host.payload.priority_in_range() {
        lemma_priority_out_of_range(host);
    } else if !is_success(host.lookup_status) {
        lemma_unresolvable_thread(host);
    } else {
        lemma_priority_applied(host);
        assert(write_calls(host)[3] is ReleaseThread);
    }
}

/// One step never mistreats a reference: a stage comes to hold one only by a
/// lookup that succeeded; a reference is given back only where one is held
/// and the priority has been applied; and a request is completed only where
/// no reference is held any more.
pub proof fn lemma_step_keeps_reference_discipline(state: WriteState, event: WriteEvent)
    requires
        write_transition(state, event) is Some,
    ensures
        ({
            let (next, action) = write_transition(state, event)->0;
            &&& stage_rank(next) < stage_rank(state)
            &&& (holds_reference(next) && !holds_reference(state)) ==> (event matches WriteEvent::LookupDone {
                status,
                ..
            } && is_success(status))
            &&& action is ReleaseThread ==> (state matches WriteState::Applied {
                priority_set: false,
                ..
            })
            &&& action is Complete <==> next is Completed
            &&& action is Complete ==> !holds_reference(next) && (holds_reference(state)
                ==> event is ReferenceReleased)
        }),
{
}

} // verus!
