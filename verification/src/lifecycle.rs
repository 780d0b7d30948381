//! The device lifecycle: what the module creates when it starts and removes
//! when it stops.
//!
//! Starting creates the device object, then the symbolic link through which
//! callers open it, then marks the device for buffered I/O and installs the
//! handlers, one by one. Stopping removes the link and then the device. As
//! in the write handler, the functions here decide and the caller performs:
//! each step takes the state reached and the host's last answer, and gives
//! the next state and the next host call, with every argument of it.

use vstd::prelude::*;
use crate::dispatch::{
    dispatch_table, first_slot_from, handler_for, lemma_first_slot_from, lemma_slots_in_order,
    next_slot, slot_of, Handler, RequestKind, IRP_MJ_CLOSE, IRP_MJ_CREATE,
    IRP_MJ_MAXIMUM_FUNCTION, IRP_MJ_WRITE,
};
use crate::status::{is_success, nt_success, NtStatus, STATUS_SUCCESS};

verus! {

/// Name of the device in the host's object namespace.
pub const DEVICE_NAME: &'static str = "\\Device\\Booster";

/// Name of the symbolic link through which callers open the device.
pub const SYMBOLIC_LINK_NAME: &'static str = "\\??\\Booster";

/// Device type tag of the device: none of the host's known kinds.
pub const FILE_DEVICE_UNKNOWN: u32 = 0x22;

/// Device flag that makes the host copy request payloads into a buffer of
/// its own before the module sees them.
pub const DO_BUFFERED_IO: u32 = 0x4;

/// The device object, as the host handed it out.
#[derive(Clone, Copy, Debug, PartialEq, Eq, Structural)]
pub struct DeviceRef {
    pub object: usize,
}

/// Where the module stands between not being there and running.
#[derive(Clone, Copy, Debug, PartialEq, Eq, Structural)]
pub enum DriverState {
    /// Nothing of the module exists in the host.
    Unloaded,
    /// Starting: the device is being created.
    CreatingDevice,
    /// Starting: the device exists, the symbolic link is being created.
    CreatingLink { device: DeviceRef },
    /// Starting failed at the link: the device is being deleted again.
    RollingBack { device: DeviceRef, status: NtStatus },
    /// Starting: device and link exist, the flags of the device are being
    /// read.
    ReadingFlags { device: DeviceRef },
    /// Starting: the device is being marked for buffered I/O.
    Configuring { device: DeviceRef },
    /// Starting: the unload handler is being registered.
    InstallingUnload { device: DeviceRef },
    /// Starting: the slot of `major` in the dispatch table is being filled;
    /// the slots below it are done.
    InstallingDispatch { device: DeviceRef, major: u8 },
    /// The module runs and owns `device` and the link.
    Loaded { device: DeviceRef },
    /// Stopping: the symbolic link is being deleted.
    RemovingLink { device: DeviceRef },
    /// Stopping: the device is being deleted.
    RemovingDevice { device: DeviceRef },
}

/// What the host reports back to the module.
#[derive(Clone, Copy, Debug, PartialEq, Eq, Structural)]
pub enum DriverEvent {
    /// The host has called the module's entry point.
    Load,
    /// Device creation returned. `device` means something only if `status`
    /// reports success.
    DeviceCreated { status: NtStatus, device: DeviceRef },
    /// Creation of the symbolic link returned.
    LinkCreated { status: NtStatus },
    /// The flags of the device were read.
    FlagsRead { flags: u32 },
    /// The flags of the device were stored.
    FlagsWritten,
    /// A handler was registered.
    HandlerInstalled,
    /// The host has called the unload handler.
    Unload,
    /// Deletion of the symbolic link returned.
    LinkDeleted,
    /// The device was deleted.
    DeviceDeleted,
}

/// What the module asks of the host next.
#[derive(Clone, Copy, Debug, PartialEq, Eq)]
pub enum DriverAction {
    /// Create a device object of this name and type, with a device
    /// extension of `extension_size` bytes and these characteristics, for
    /// one caller at a time only if `exclusive` is set.
    CreateDevice {
        name: &'static str,
        extension_size: u32,
        device_type: u32,
        characteristics: u32,
        exclusive: bool,
    },
    /// Create a symbolic link `link` that leads to `target`.
    CreateSymbolicLink { link: &'static str, target: &'static str },
    /// Read the flags of the device.
    ReadDeviceFlags { device: DeviceRef },
    /// Store `flags` as the flags of the device.
    WriteDeviceFlags { device: DeviceRef, flags: u32 },
    /// Register `handler` as the unload handler on the module object.
    InstallUnload { handler: Handler },
    /// Put `handler` in the slot of `major` in the dispatch table.
    InstallDispatch { major: u8, handler: Handler },
    /// Delete the symbolic link of this name.
    DeleteSymbolicLink { link: &'static str },
    /// Delete the device object.
    DeleteDevice { device: DeviceRef },
    /// Return from the entry point with `status`.
    Return { status: NtStatus },
    /// Return from the unload handler.
    Finish,
}

/// The call that creates the module's device: under its fixed name, of no
/// known kind, without a device extension or special characteristics, and
/// open to several callers at once.
pub open spec fn create_device() -> DriverAction {
    DriverAction::CreateDevice {
        name: DEVICE_NAME,
        extension_size: 0,
        device_type: FILE_DEVICE_UNKNOWN,
        characteristics: 0,
        exclusive: false,
    }
}

/// The call that creates the symbolic link to the module's device.
pub open spec fn create_link() -> DriverAction {
    DriverAction::CreateSymbolicLink { link: SYMBOLIC_LINK_NAME, target: DEVICE_NAME }
}

/// The flags of a device once it is marked for buffered I/O: that flag
/// set, every other as it was.
pub open spec fn marked_buffered(flags: u32) -> u32 {
    flags | DO_BUFFERED_IO
}

/// The step that fills the lowest slot of the dispatch table from `from`
/// on, or, where no slot is left to fill, returns success from the entry
/// point.
pub open spec fn install_from(device: DeviceRef, from: int) -> (DriverState, DriverAction) {
    match first_slot_from(from) {
        Some((major, handler)) => (
            DriverState::InstallingDispatch { device, major },
            DriverAction::InstallDispatch { major, handler },
        ),
        None => (DriverState::Loaded { device }, DriverAction::Return { status: STATUS_SUCCESS }),
    }
}

/// The transitions of starting.
pub open spec fn load_transition(state: DriverState, event: DriverEvent) -> Option<
    (DriverState, DriverAction),
> {
    match (state, event) {
        (DriverState::Unloaded, DriverEvent::Load) => Some(
            (DriverState::CreatingDevice, create_device()),
        ),
        (DriverState::CreatingDevice, DriverEvent::DeviceCreated { status, device }) => {
            if is_success(status) {
                Some((DriverState::CreatingLink { device }, create_link()))
            } else {
                Some((DriverState::Unloaded, DriverAction::Return { status }))
            }
        },
        (DriverState::CreatingLink { device }, DriverEvent::LinkCreated { status }) => {
            if is_success(status) {
                Some(
                    (
                        DriverState::ReadingFlags { device },
                        DriverAction::ReadDeviceFlags { device },
                    ),
                )
            } else {
                Some(
                    (
                        DriverState::RollingBack { device, status },
                        DriverAction::DeleteDevice { device },
                    ),
                )
            }
        },
        (DriverState::RollingBack { device, status }, DriverEvent::DeviceDeleted) => Some(
            (DriverState::Unloaded, DriverAction::Return { status }),
        ),
        (DriverState::ReadingFlags { device }, DriverEvent::FlagsRead { flags }) => Some(
            (
                DriverState::Configuring { device },
                DriverAction::WriteDeviceFlags { device, flags: marked_buffered(flags) },
            ),
        ),
        (DriverState::Configuring { device }, DriverEvent::FlagsWritten) => Some(
            (
                DriverState::InstallingUnload { device },
                DriverAction::InstallUnload { handler: Handler::Unload },
            ),
        ),
        (DriverState::InstallingUnload { device }, DriverEvent::HandlerInstalled) => Some(
            install_from(device, 0),
        ),
        (
            DriverState::InstallingDispatch { device, major },
            DriverEvent::HandlerInstalled,
        ) => Some(install_from(device, major + 1)),
        _ => None,
    }
}

/// The transitions of stopping.
pub open spec fn unload_transition(state: DriverState, event: DriverEvent) -> Option<
    (DriverState, DriverAction),
> {
    match (state, event) {
        (DriverState::Loaded { device }, DriverEvent::Unload) => Some(
            (
                DriverState::RemovingLink { device },
                DriverAction::DeleteSymbolicLink { link: SYMBOLIC_LINK_NAME },
            ),
        ),
        (DriverState::RemovingLink { device }, DriverEvent::LinkDeleted) => Some(
            (DriverState::RemovingDevice { device }, DriverAction::DeleteDevice { device }),
        ),
        (DriverState::RemovingDevice { device }, DriverEvent::DeviceDeleted) => Some(
            (DriverState::Unloaded, DriverAction::Finish),
        ),
        _ => None,
    }
}

/// Fills the next slot of the dispatch table from `from` on, or ends the
/// entry point with success where none is left.
fn install_next(device: DeviceRef, from: u8) -> (step: (DriverState, DriverAction))
    ensures
        step == install_from(device, from as int),
{
    match next_slot(from) {
        Some((major, handler)) => (
            DriverState::InstallingDispatch { device, major },
            DriverAction::InstallDispatch { major, handler },
        ),
        None => (DriverState::Loaded { device }, DriverAction::Return { status: STATUS_SUCCESS }),
    }
}

/// One step of starting the module.
///
/// The device is created first, under its fixed name. If that fails, the
/// entry point returns the host's status and nothing else is asked for.
/// Then the symbolic link is created. If that fails, the device is deleted
/// again before the entry point returns the status of the failure. After
/// the link, the flags of the device are read and stored again with the
/// flag for buffered I/O added. Then the unload handler is registered and
/// the dispatch table is filled, slot by slot from the lowest, and the
/// entry point returns success. An answer that the state does not wait for
/// gives `None`.
pub fn driver_entry(state: DriverState, event: DriverEvent) -> (step: Option<
    (DriverState, DriverAction),
>)
    ensures
        step == load_transition(state, event),
{
    match (state, event) {
        (DriverState::Unloaded, DriverEvent::Load) => Some(
            (
                DriverState::CreatingDevice,
                DriverAction::CreateDevice {
                    name: DEVICE_NAME,
                    extension_size: 0,
                    device_type: FILE_DEVICE_UNKNOWN,
                    characteristics: 0,
                    exclusive: false,
                },
            ),
        ),
        (DriverState::CreatingDevice, DriverEvent::DeviceCreated { status, device }) => {
            if nt_success(status) {
                Some(
                    (
                        DriverState::CreatingLink { device },
                        DriverAction::CreateSymbolicLink {
                            link: SYMBOLIC_LINK_NAME,
                            target: DEVICE_NAME,
                        },
                    ),
                )
            } else {
                Some((DriverState::Unloaded, DriverAction::Return { status }))
            }
        },
        (DriverState::CreatingLink { device }, DriverEvent::LinkCreated { status }) => {
            if nt_success(status) {
                Some(
                    (
                        DriverState::ReadingFlags { device },
                        DriverAction::ReadDeviceFlags { device },
                    ),
                )
            } else {
                Some(
                    (
                        DriverState::RollingBack { device, status },
                        DriverAction::DeleteDevice { device },
                    ),
                )
            }
        },
        (DriverState::RollingBack { device: _, status }, DriverEvent::DeviceDeleted) => Some(
            (DriverState::Unloaded, DriverAction::Return { status }),
        ),
        (DriverState::ReadingFlags { device }, DriverEvent::FlagsRead { flags }) => Some(
            (
                DriverState::Configuring { device },
                DriverAction::WriteDeviceFlags { device, flags: flags | DO_BUFFERED_IO },
            ),
        ),
        (DriverState::Configuring { device }, DriverEvent::FlagsWritten) => Some(
            (
                DriverState::InstallingUnload { device },
                DriverAction::InstallUnload { handler: handler_for(RequestKind::Unload) },
            ),
        ),
        (DriverState::InstallingUnload { device }, DriverEvent::HandlerInstalled) => Some(
            install_next(device, 0),
        ),
        (DriverState::InstallingDispatch { device, major }, DriverEvent::HandlerInstalled) => {
            if major < IRP_MJ_MAXIMUM_FUNCTION {
                Some(install_next(device, major + 1))
            } else {
                Some(
                    (DriverState::Loaded { device }, DriverAction::Return { status: STATUS_SUCCESS }),
                )
            }
        },
        _ => None,
    }
}

/// One step of stopping the module.
///
/// Stopping begins only where the module runs. The symbolic link is deleted
/// first, then the device, whatever the host said of the link; then the
/// unload handler returns. An answer that the state does not wait for gives
/// `None`.
pub fn boost_unload(state: DriverState, event: DriverEvent) -> (step: Option<
    (DriverState, DriverAction),
>)
    ensures
        step == unload_transition(state, event),
{
    match (state, event) {
        (DriverState::Loaded { device }, DriverEvent::Unload) => Some(
            (
                DriverState::RemovingLink { device },
                DriverAction::DeleteSymbolicLink { link: SYMBOLIC_LINK_NAME },
            ),
        ),
        (DriverState::RemovingLink { device }, DriverEvent::LinkDeleted) => Some(
            (DriverState::RemovingDevice { device }, DriverAction::DeleteDevice { device }),
        ),
        (DriverState::RemovingDevice { device: _ }, DriverEvent::DeviceDeleted) => Some(
            (DriverState::Unloaded, DriverAction::Finish),
        ),
        _ => None,
    }
}

/// What the host keeps of a device object.
pub struct DeviceRecord {
    pub name: Seq<char>,
    pub device_type: u32,
    pub flags: u32,
}

/// What the host's object namespace holds: the live device objects, and
/// the symbolic links with their targets.
pub struct Namespace {
    pub devices: Map<DeviceRef, DeviceRecord>,
    pub links: Map<Seq<char>, Seq<char>>,
}

/// What the module object holds of the module's handlers: the unload
/// handler, and the dispatch table by major function code. A slot that is
/// not in the table is as the host made it.
pub struct ModuleObject {
    pub unload: Option<Handler>,
    pub dispatch: Map<u8, Handler>,
}

/// The part of the host that the module changes.
pub struct HostState {
    pub namespace: Namespace,
    pub module: ModuleObject,
}

/// How the host answers while the module starts: the outcome of creating
/// the device, the flags that a new device has, and the outcome of creating
/// the link.
pub struct DriverHost {
    pub device_status: NtStatus,
    pub device: DeviceRef,
    pub device_flags: u32,
    pub link_status: NtStatus,
}

/// A host hands out no device object that already exists, and creates no
/// link under a name that is taken.
pub open spec fn answers_fit(host: DriverHost, namespace: Namespace) -> bool {
    &&& is_success(host.device_status) ==> !namespace.devices.contains_key(host.device)
    &&& is_success(host.link_status) ==> !namespace.links.contains_key(SYMBOLIC_LINK_NAME@)
}

/// The transitions of the whole lifecycle.
pub open spec fn driver_transition(state: DriverState, event: DriverEvent) -> Option<
    (DriverState, DriverAction),
> {
    match load_transition(state, event) {
        Some(step) => Some(step),
        None => unload_transition(state, event),
    }
}

/// The host's answer to a call, or `None` where the module returns to the
/// host.
pub open spec fn host_answer(host: DriverHost, before: HostState, action: DriverAction) -> Option<
    DriverEvent,
> {
    match action {
        DriverAction::CreateDevice { .. } => Some(
            DriverEvent::DeviceCreated { status: host.device_status, device: host.device },
        ),
        DriverAction::CreateSymbolicLink { .. } => Some(
            DriverEvent::LinkCreated { status: host.link_status },
        ),
        DriverAction::ReadDeviceFlags { device } => Some(
            DriverEvent::FlagsRead { flags: before.namespace.devices[device].flags },
        ),
        DriverAction::WriteDeviceFlags { .. } => Some(DriverEvent::FlagsWritten),
        DriverAction::InstallUnload { .. } => Some(DriverEvent::HandlerInstalled),
        DriverAction::InstallDispatch { .. } => Some(DriverEvent::HandlerInstalled),
        DriverAction::DeleteSymbolicLink { .. } => Some(DriverEvent::LinkDeleted),
        DriverAction::DeleteDevice { .. } => Some(DriverEvent::DeviceDeleted),
        DriverAction::Return { .. } => None,
        DriverAction::Finish => None,
    }
}

/// What a call does to the namespace.
pub open spec fn namespace_effect(host: DriverHost, namespace: Namespace, action: DriverAction)
    -> Namespace {
    match action {
        DriverAction::CreateDevice { name, device_type, .. } => if is_success(
            host.device_status,
        ) {
            Namespace {
                devices: namespace.devices.insert(
                    host.device,
                    DeviceRecord { name: name@, device_type, flags: host.device_flags },
                ),
                ..namespace
            }
        } else {
            namespace
        },
        DriverAction::CreateSymbolicLink { link, target } => if is_success(host.link_status) {
            Namespace { links: namespace.links.insert(link@, target@), ..namespace }
        } else {
            namespace
        },
        DriverAction::WriteDeviceFlags { device, flags } => Namespace {
            devices: namespace.devices.insert(
                device,
                DeviceRecord { flags, ..namespace.devices[device] },
            ),
            ..namespace
        },
        DriverAction::DeleteSymbolicLink { link } => Namespace {
            links: namespace.links.remove(link@),
            ..namespace
        },
        DriverAction::DeleteDevice { device } => Namespace {
            devices: namespace.devices.remove(device),
            ..namespace
        },
        _ => namespace,
    }
}

/// What a call does to the module object.
pub open spec fn module_effect(module: ModuleObject, action: DriverAction) -> ModuleObject {
    match action {
        DriverAction::InstallUnload { handler } => ModuleObject {
            unload: Some(handler),
            ..module
        },
        DriverAction::InstallDispatch { major, handler } => ModuleObject {
            dispatch: module.dispatch.insert(major, handler),
            ..module
        },
        _ => module,
    }
}

/// What a call does to the host.
pub open spec fn host_effect(host: DriverHost, before: HostState, action: DriverAction)
    -> HostState {
    HostState {
        namespace: namespace_effect(host, before.namespace, action),
        module: module_effect(before.module, action),
    }
}

/// How many host calls a state may still be away from returning to the host.
pub open spec fn state_rank(state: DriverState) -> nat {
    match state {
        DriverState::Unloaded => 36,
        DriverState::CreatingDevice => 35,
        DriverState::CreatingLink { .. } => 34,
        DriverState::ReadingFlags { .. } => 33,
        DriverState::Configuring { .. } => 32,
        DriverState::InstallingUnload { .. } => 31,
        DriverState::InstallingDispatch { major, .. } => if major <= IRP_MJ_MAXIMUM_FUNCTION {
            (30 - major) as nat
        } else {
            1
        },
        DriverState::RollingBack { .. } => 1,
        DriverState::Loaded { .. } => 3,
        DriverState::RemovingLink { .. } => 2,
        DriverState::RemovingDevice { .. } => 1,
    }
}

/// The course of one call of the entry point or of the unload handler: the
/// host calls made, in order, the state in which the module returns, and
/// the host as it leaves it.
pub struct Run {
    pub calls: Seq<DriverAction>,
    pub state: DriverState,
    pub after: HostState,
}

/// The course that the module takes from a state on, until it returns to
/// the host, when the host answers as `host` says.
pub open spec fn run_from(
    host: DriverHost,
    state: DriverState,
    event: DriverEvent,
    before: HostState,
) -> Run
    decreases state_rank(state),
    via run_from_ends
{
    match driver_transition(state, event) {
        None => Run { calls: Seq::empty(), state, after: before },
        Some((next, action)) => {
            let after = host_effect(host, before, action);
            match host_answer(host, before, action) {
                None => Run { calls: seq![action], state: next, after },
                Some(answer) => {
                    let rest = run_from(host, next, answer, after);
                    Run { calls: seq![action] + rest.calls, state: rest.state, after: rest.after }
                },
            }
        },
    }
}

#[via_fn]
proof fn run_from_ends(host: DriverHost, state: DriverState, event: DriverEvent, before: HostState) {
    match state {
        DriverState::InstallingUnload { .. } => {
            lemma_first_slot_from(0);
        },
        DriverState::InstallingDispatch { major, .. } => {
            lemma_first_slot_from(major + 1);
        },
        _ => {},
    }
}

/// The course of the entry point on a module that is not loaded.
pub open spec fn start(host: DriverHost, before: HostState) -> Run {
    run_from(host, DriverState::Unloaded, DriverEvent::Load, before)
}

/// The course of the unload handler on a module that runs.
pub open spec fn stop(host: DriverHost, device: DeviceRef, before: HostState) -> Run {
    run_from(host, DriverState::Loaded { device }, DriverEvent::Unload, before)
}

/// Marking a device for buffered I/O sets that flag and leaves every other
/// flag of the device as it was; on a device that is marked it changes
/// nothing.
pub proof fn lemma_marked_buffered(flags: u32)
    ensures
        marked_buffered(flags) & DO_BUFFERED_IO == DO_BUFFERED_IO,
        marked_buffered(flags) & !DO_BUFFERED_IO == flags & !DO_BUFFERED_IO,
        marked_buffered(marked_buffered(flags)) == marked_buffered(flags),
{
    assert((flags | 4) & 4 == 4) by (bit_vector);
    assert((flags | 4) & !4u32 == flags & !4u32) by (bit_vector);
    assert((flags | 4) | 4 == flags | 4) by (bit_vector);
}

/// Where the device cannot be created, the entry point returns the host's
/// status at once: no link is asked for, no handler is installed, and the
/// host is as it was.
pub proof fn lemma_device_creation_fails(host: DriverHost, before: HostState)
    requires
        !is_success(host.device_status),
    ensures
        start(host, before).calls == seq![
            create_device(),
            DriverAction::Return { status: host.device_status },
        ],
        start(host, before).state == DriverState::Unloaded,
        start(host, before).after == before,
{
    reveal_with_fuel(run_from, 3);
    assert(start(host, before).calls =~= seq![
        create_device(),
        DriverAction::Return { status: host.device_status },
    ]);
}

/// Where the symbolic link cannot be created, the device made in the same
/// call is deleted before the entry point returns the status of the
/// failure. No handler is installed and no device is left behind: the
/// host is as it was.
pub proof fn lemma_link_creation_fails(host: DriverHost, before: HostState)
    requires
        is_success(host.device_status),
        !is_success(host.link_status),
    ensures
        start(host, before).calls == seq![
            create_device(),
            create_link(),
            DriverAction::DeleteDevice { device: host.device },
            DriverAction::Return { status: host.link_status },
        ],
        start(host, before).state == DriverState::Unloaded,
        !start(host, before).after.namespace.devices.contains_key(host.device),
        start(host, before).after.namespace.links == before.namespace.links,
        start(host, before).after.module == before.module,
        answers_fit(host, before.namespace) ==> start(host, before).after == before,
{
    reveal_with_fuel(run_from, 5);
    let run = start(host, before);
    assert(run.calls =~= seq![
        create_device(),
        create_link(),
        DriverAction::DeleteDevice { device: host.device },
        DriverAction::Return { status: host.link_status },
    ]);
    assert(run.after.namespace.links =~= before.namespace.links);
    if answers_fit(host, before.namespace) {
        assert(run.after.namespace.devices =~= before.namespace.devices);
    }
}

/// Where the host creates both, the module makes the device, then the link
/// to it, then marks the device for buffered I/O, then registers the unload
/// handler and fills the slots of open, close and write, and returns
/// success. It then runs and owns the device that the host gave. The
/// namespace holds the device, marked, and the link to it.
pub proof fn lemma_start_succeeds(host: DriverHost, before: HostState)
    requires
        is_success(host.device_status),
        is_success(host.link_status),
    ensures
        start(host, before).calls == seq![
            create_device(),
            create_link(),
            DriverAction::ReadDeviceFlags { device: host.device },
            DriverAction::WriteDeviceFlags {
                device: host.device,
                flags: marked_buffered(host.device_flags),
            },
            DriverAction::InstallUnload { handler: Handler::Unload },
            DriverAction::InstallDispatch { major: IRP_MJ_CREATE, handler: Handler::CreateClose },
            DriverAction::InstallDispatch { major: IRP_MJ_CLOSE, handler: Handler::CreateClose },
            DriverAction::InstallDispatch { major: IRP_MJ_WRITE, handler: Handler::Write },
            DriverAction::Return { status: STATUS_SUCCESS },
        ],
        start(host, before).state == (DriverState::Loaded { device: host.device }),
        start(host, before).after.namespace.devices == before.namespace.devices.insert(
            host.device,
            DeviceRecord {
                name: DEVICE_NAME@,
                device_type: FILE_DEVICE_UNKNOWN,
                flags: marked_buffered(host.device_flags),
            },
        ),
        start(host, before).after.namespace.links == before.namespace.links.insert(
            SYMBOLIC_LINK_NAME@,
            DEVICE_NAME@,
        ),
{
    reveal_with_fuel(run_from, 10);
    lemma_slots_in_order();
    let run = start(host, before);
    assert(run.calls =~= seq![
        create_device(),
        create_link(),
        DriverAction::ReadDeviceFlags { device: host.device },
        DriverAction::WriteDeviceFlags {
            device: host.device,
            flags: marked_buffered(host.device_flags),
        },
        DriverAction::InstallUnload { handler: Handler::Unload },
        DriverAction::InstallDispatch { major: IRP_MJ_CREATE, handler: Handler::CreateClose },
        DriverAction::InstallDispatch { major: IRP_MJ_CLOSE, handler: Handler::CreateClose },
        DriverAction::InstallDispatch { major: IRP_MJ_WRITE, handler: Handler::Write },
        DriverAction::Return { status: STATUS_SUCCESS },
    ]);
    assert(run.after.namespace.devices =~= before.namespace.devices.insert(
        host.device,
        DeviceRecord {
            name: DEVICE_NAME@,
            device_type: FILE_DEVICE_UNKNOWN,
            flags: marked_buffered(host.device_flags),
        },
    ));
}

/// What a start that succeeds installs: the unload handler on the module
/// object, and in the slot of every major function code the handler that
/// the dispatch table names for it. A slot for which the table names none
/// stays as it was.
pub proof fn lemma_handlers_installed(host: DriverHost, before: HostState)
    requires
        is_success(host.device_status),
        is_success(host.link_status),
    ensures
        start(host, before).after.module.unload == Some(Handler::Unload),
        start(host, before).after.module.dispatch == before.module.dispatch.union_prefer_right(
            dispatch_table(),
        ),
        forall|major: u8|
            match #[trigger] slot_of(major) {
                Some(handler) => start(host, before).after.module.dispatch.contains_pair(
                    major,
                    handler,
                ),
                None => start(host, before).after.module.dispatch.contains_key(major)
                    == before.module.dispatch.contains_key(major)
                    && start(host, before).after.module.dispatch[major]
                    == before.module.dispatch[major],
            },
{
    reveal_with_fuel(run_from, 10);
    lemma_slots_in_order();
    let installed = start(host, before).after.module.dispatch;
    assert(installed == before.module.dispatch.insert(
        IRP_MJ_CREATE,
        Handler::CreateClose,
    ).insert(IRP_MJ_CLOSE, Handler::CreateClose).insert(IRP_MJ_WRITE, Handler::Write));
    assert(installed =~= before.module.dispatch.union_prefer_right(dispatch_table()));
}

/// Stopping deletes the symbolic link first and the device, the one that
/// the module owns, second; then nothing of the module is left in the
/// namespace.
pub proof fn lemma_stop(host: DriverHost, device: DeviceRef, before: HostState)
    ensures
        stop(host, device, before).calls == seq![
            DriverAction::DeleteSymbolicLink { link: SYMBOLIC_LINK_NAME },
            DriverAction::DeleteDevice { device },
            DriverAction::Finish,
        ],
        stop(host, device, before).state == DriverState::Unloaded,
        stop(host, device, before).after.namespace.devices == before.namespace.devices.remove(
            device,
        ),
        stop(host, device, before).after.namespace.links == before.namespace.links.remove(
            SYMBOLIC_LINK_NAME@,
        ),
{
    reveal_with_fuel(run_from, 4);
    let run = stop(host, device, before);
    assert(run.calls =~= seq![
        DriverAction::DeleteSymbolicLink { link: SYMBOLIC_LINK_NAME },
        DriverAction::DeleteDevice { device },
        DriverAction::Finish,
    ]);
}

/// Stopping begins only where the module runs. In every other state the
/// unload handler asks nothing of the host and leaves everything as it is.
pub proof fn lemma_stop_needs_start(host: DriverHost, state: DriverState, before: HostState)
    requires
        !(state is Loaded),
    ensures
        unload_transition(state, DriverEvent::Unload) is None,
        run_from(host, state, DriverEvent::Unload, before) == (Run {
            calls: Seq::empty(),
            state,
            after: before,
        }),
{
}

/// Starting and then stopping leaves neither device nor link of the module
/// in the namespace. The namespace is as it was before, and so is the
/// module: starting once more takes the same course as the first time.
pub proof fn lemma_start_stop_round_trip(host: DriverHost, before: HostState)
    requires
        is_success(host.device_status),
        is_success(host.link_status),
    ensures
        ({
            let started = start(host, before);
            let stopped = stop(host, host.device, started.after);
            &&& started.state == (DriverState::Loaded { device: host.device })
            &&& stopped.state == DriverState::Unloaded
            &&& !stopped.after.namespace.devices.contains_key(host.device)
            &&& !stopped.after.namespace.links.contains_key(SYMBOLIC_LINK_NAME@)
            &&& answers_fit(host, before.namespace) ==> {
                &&& stopped.after.namespace == before.namespace
                &&& start(host, stopped.after).calls == started.calls
                &&& start(host, stopped.after).state == started.state
                &&& start(host, stopped.after).after == started.after
            }
        }),
{
    lemma_start_succeeds(host, before);
    lemma_handlers_installed(host, before);
    let started = start(host, before);
    lemma_stop(host, host.device, started.after);
    let stopped = stop(host, host.device, started.after);
    if answers_fit(host, before.namespace) {
        assert(stopped.after.namespace.devices =~= before.namespace.devices);
        assert(stopped.after.namespace.links =~= before.namespace.links);
        lemma_start_succeeds(host, stopped.after);
        lemma_handlers_installed(host, stopped.after);
        let again = start(host, stopped.after);
        assert(stopped.after.module == started.after.module) by {
            reveal_with_fuel(run_from, 4);
        }
        assert(again.after.module.dispatch =~= started.after.module.dispatch);
    }
}

/// Whatever the host answers, the entry point returns in one of two states:
/// the module runs, and the status returned is success; or nothing of the
/// module exists, no handler was installed, and the status returned is the
/// failure that the host reported.
pub proof fn lemma_start_all_or_nothing(host: DriverHost, before: HostState)
    ensures
        ({
            let run = start(host, before);
            let both = is_success(host.device_status) && is_success(host.link_status);
            &&& run.calls.len() >= 2
            &&& run.calls.last() matches DriverAction::Return { status } && (if both {
                status == STATUS_SUCCESS && run.state == (DriverState::Loaded {
                    device: host.device,
                })
            } else {
                &&& !is_success(status)
                &&& run.state == DriverState::Unloaded
                &&& run.after.module == before.module
                &&& run.after.namespace.links == before.namespace.links
                &&& answers_fit(host, before.namespace) ==> run.after == before
            })
            &&& !both ==> forall|i: int|
                0 <= i < run.calls.len() ==> {
                    &&& !(#[trigger] run.calls[i] is InstallUnload)
                    &&& !(run.calls[i] is InstallDispatch)
                }
        }),
{
    if !is_success(host.device_status) {
        lemma_device_creation_fails(host, before);
    } else if !is_success(host.link_status) {
        lemma_link_creation_fails(host, before);
    } else {
        lemma_start_succeeds(host, before);
    }
}

} // verus!
