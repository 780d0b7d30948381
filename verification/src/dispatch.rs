//! The dispatch table and the open/close handler.
//!
//! The host hands every request on the device to the handler registered for
//! its kind. The table is fixed: it is installed once, when the module has
//! started, and never changes afterwards.

use vstd::prelude::*;
use crate::status::{NtStatus, STATUS_SUCCESS};

verus! {

/// Major function code of an open request.
pub const IRP_MJ_CREATE: u8 = 0;

/// Major function code of a close request.
pub const IRP_MJ_CLOSE: u8 = 2;

/// Major function code of a write request.
pub const IRP_MJ_WRITE: u8 = 4;

/// Highest major function code that the host's table has a slot for.
pub const IRP_MJ_MAXIMUM_FUNCTION: u8 = 27;

/// The kinds of request that the module answers.
#[derive(Clone, Copy, Debug, PartialEq, Eq, Structural)]
pub enum RequestKind {
    Open,
    Close,
    Write,
    Unload,
}

/// The handlers of the module.
#[derive(Clone, Copy, Debug, PartialEq, Eq, Structural)]
pub enum Handler {
    /// Completes open and close requests with success.
    CreateClose,
    /// Changes the priority of a thread.
    Write,
    /// Removes the symbolic link and the device.
    Unload,
}

/// How a request ends: the status reported to the caller and the number of
/// bytes reported as transferred.
#[derive(Clone, Copy, Debug, PartialEq, Eq, Structural)]
pub struct Completion {
    pub status: NtStatus,
    pub information: usize,
}

/// The fixed mapping from request kind to handler.
pub open spec fn handler_of(kind: RequestKind) -> Handler {
    match kind {
        RequestKind::Open => Handler::CreateClose,
        RequestKind::Close => Handler::CreateClose,
        RequestKind::Write => Handler::Write,
        RequestKind::Unload => Handler::Unload,
    }
}

/// The request kind that a major function code stands for, if the module
/// answers it. Unload has no code: it is registered on the module object.
pub open spec fn kind_of_major(major: u8) -> Option<RequestKind> {
    if major == IRP_MJ_CREATE {
        Some(RequestKind::Open)
    } else if major == IRP_MJ_CLOSE {
        Some(RequestKind::Close)
    } else if major == IRP_MJ_WRITE {
        Some(RequestKind::Write)
    } else {
        None
    }
}

/// What the device's table holds in the slot of a major function code.
pub open spec fn slot_of(major: u8) -> Option<Handler> {
    match kind_of_major(major) {
        Some(kind) => Some(handler_of(kind)),
        None => None,
    }
}

/// The handler that answers requests of a kind.
#[verifier::when_used_as_spec(handler_of)]
pub fn handler_for(kind: RequestKind) -> (handler: Handler)
    ensures
        handler == handler_of(kind),
{
    match kind {
        RequestKind::Open | RequestKind::Close => Handler::CreateClose,
        RequestKind::Write => Handler::Write,
        RequestKind::Unload => Handler::Unload,
    }
}

/// The request kind behind a major function code: open for 0, close for 2,
/// write for 4, and none for every other code.
#[verifier::when_used_as_spec(kind_of_major)]
pub fn request_kind(major: u8) -> (kind: Option<RequestKind>)
    ensures
        kind == kind_of_major(major),
{
    if major == IRP_MJ_CREATE {
        Some(RequestKind::Open)
    } else if major == IRP_MJ_CLOSE {
        Some(RequestKind::Close)
    } else if major == IRP_MJ_WRITE {
        Some(RequestKind::Write)
    } else {
        None
    }
}

/// The handler to install in the slot of a major function code, or `None`
/// where the slot stays as the host made it.
#[verifier::when_used_as_spec(slot_of)]
pub fn dispatch_slot(major: u8) -> (slot: Option<Handler>)
    ensures
        slot == slot_of(major),
{
    match request_kind(major) {
        Some(kind) => Some(handler_for(kind)),
        None => None,
    }
}

/// The lowest major function code from `from` on whose slot the module
/// fills, with the handler that goes there.
pub open spec fn first_slot_from(from: int) -> Option<(u8, Handler)>
    decreases IRP_MJ_MAXIMUM_FUNCTION + 1 - from,
{
    if from < 0 || from > IRP_MJ_MAXIMUM_FUNCTION {
        None
    } else {
        match slot_of(from as u8) {
            Some(handler) => Some((from as u8, handler)),
            None => first_slot_from(from + 1),
        }
    }
}

/// The whole table: each filled slot with its handler.
pub open spec fn dispatch_table() -> Map<u8, Handler> {
    Map::new(|major: u8| slot_of(major) is Some, |major: u8| slot_of(major)->0)
}

/// Finds the next slot to fill: the lowest major function code from `from`
/// on that has a handler, together with that handler. `None` means that no
/// slot is left.
pub fn next_slot(from: u8) -> (slot: Option<(u8, Handler)>)
    ensures
        slot == first_slot_from(from as int),
{
    let mut major: u8 = from;
    while major <= IRP_MJ_MAXIMUM_FUNCTION
        invariant
            from <= major,
            first_slot_from(major as int) == first_slot_from(from as int),
        decreases IRP_MJ_MAXIMUM_FUNCTION + 1 - major,
    {
        match dispatch_slot(major) {
            Some(handler) => {
                return Some((major, handler));
            },
            None => {},
        }
        major = major + 1;
    }
    None
}

/// Answers an open or a close request: success, no bytes transferred. The
/// request is not looked at, and nothing else happens.
pub fn boost_create_close() -> (done: Completion)
    ensures
        done == (Completion { status: STATUS_SUCCESS, information: 0 }),
{
    Completion { status: STATUS_SUCCESS, information: 0 }
}

/// Only the slots of open, close and write are filled, the first two with
/// the same handler; unload is in no slot of the device's table.
pub proof fn lemma_dispatch_table(major: u8)
    ensures
        slot_of(major) is Some <==> major == IRP_MJ_CREATE || major == IRP_MJ_CLOSE || major
            == IRP_MJ_WRITE,
        slot_of(IRP_MJ_CREATE) == Some(Handler::CreateClose),
        slot_of(IRP_MJ_CLOSE) == Some(Handler::CreateClose),
        slot_of(IRP_MJ_WRITE) == Some(Handler::Write),
        slot_of(major) != Some(Handler::Unload),
{
}

/// What `first_slot_from` finds is a filled slot at or above `from`, and
/// every slot between the two is empty. Where it finds nothing, no slot
/// from `from` on is filled.
pub proof fn lemma_first_slot_from(from: int)
    requires
        0 <= from,
    ensures
        match first_slot_from(from) {
            Some((major, handler)) => {
                &&& from <= major <= IRP_MJ_MAXIMUM_FUNCTION
                &&& slot_of(major) == Some(handler)
                &&& forall|k: u8| from <= k < major ==> slot_of(k) is None
            },
            None => forall|k: u8| from <= k ==> slot_of(k) is None,
        },
    decreases IRP_MJ_MAXIMUM_FUNCTION + 1 - from,
{
    if from <= IRP_MJ_MAXIMUM_FUNCTION && slot_of(from as u8) is None {
        lemma_first_slot_from(from + 1);
    }
}

/// Walking the table from the bottom meets the slots of open, close and
/// write, in this order, and then no other.
pub proof fn lemma_slots_in_order()
    ensures
        first_slot_from(0) == Some((IRP_MJ_CREATE, Handler::CreateClose)),
        first_slot_from(IRP_MJ_CREATE + 1) == Some((IRP_MJ_CLOSE, Handler::CreateClose)),
        first_slot_from(IRP_MJ_CLOSE + 1) == Some((IRP_MJ_WRITE, Handler::Write)),
        first_slot_from(IRP_MJ_WRITE + 1) is None,
{
    reveal_with_fuel(first_slot_from, 3);
    lemma_first_slot_from(IRP_MJ_WRITE + 1);
}

} // verus!
