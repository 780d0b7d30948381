use std::collections::BTreeMap;

use booster::dispatch::Handler;
use booster::lifecycle::{
    boost_unload, driver_entry, DeviceRef, DriverAction, DriverEvent, DriverState, DEVICE_NAME,
    DO_BUFFERED_IO, FILE_DEVICE_UNKNOWN, SYMBOLIC_LINK_NAME,
};
use booster::status::{nt_success, NtStatus, STATUS_SUCCESS};

const STATUS_OBJECT_NAME_COLLISION: NtStatus = -1073741771;
const STATUS_INSUFFICIENT_RESOURCES: NtStatus = -1073741670;

/// Flag that the host sets on a device until its module has started.
const DO_DEVICE_INITIALIZING: u32 = 0x80;

/// A host that creates and deletes on request and keeps a log: its object
/// namespace, and the handlers registered on the module object.
struct Namespace {
    devices: BTreeMap<usize, (String, u32)>,
    links: BTreeMap<String, String>,
    next_object: usize,
    new_device_flags: u32,
    fail_device: Option<NtStatus>,
    fail_link: Option<NtStatus>,
    unload: Option<Handler>,
    dispatch: BTreeMap<u8, Handler>,
    log: Vec<&'static str>,
}

fn empty_namespace() -> Namespace {
    Namespace {
        devices: BTreeMap::new(),
        links: BTreeMap::new(),
        next_object: 0x5000,
        new_device_flags: 0,
        fail_device: None,
        fail_link: None,
        unload: None,
        dispatch: BTreeMap::new(),
        log: Vec::new(),
    }
}

fn perform(ns: &mut Namespace, action: DriverAction) -> Option<DriverEvent> {
    match action {
        DriverAction::CreateDevice {
            name,
            extension_size,
            device_type,
            characteristics,
            exclusive,
        } => {
            ns.log.push("create device");
            assert_eq!(extension_size, 0);
            assert_eq!(device_type, FILE_DEVICE_UNKNOWN);
            assert_eq!(characteristics, 0);
            assert!(!exclusive);
            let taken = ns.devices.values().any(|(have, _)| have == name);
            let status = match ns.fail_device {
                Some(status) => status,
                None if taken => STATUS_OBJECT_NAME_COLLISION,
                None => STATUS_SUCCESS,
            };
            let mut device = DeviceRef { object: 0 };
            if nt_success(status) {
                ns.next_object += 0x10;
                device = DeviceRef { object: ns.next_object };
                ns.devices.insert(device.object, (name.to_string(), ns.new_device_flags));
            }
            Some(DriverEvent::DeviceCreated { status, device })
        }
        DriverAction::CreateSymbolicLink { link, target } => {
            ns.log.push("create link");
            let status = match ns.fail_link {
                Some(status) => status,
                None if ns.links.contains_key(link) => STATUS_OBJECT_NAME_COLLISION,
                None => STATUS_SUCCESS,
            };
            if nt_success(status) {
                ns.links.insert(link.to_string(), target.to_string());
            }
            Some(DriverEvent::LinkCreated { status })
        }
        DriverAction::ReadDeviceFlags { device } => {
            ns.log.push("read flags");
            let flags = ns.devices.get(&device.object).expect("device exists").1;
            Some(DriverEvent::FlagsRead { flags })
        }
        DriverAction::WriteDeviceFlags { device, flags } => {
            ns.log.push("write flags");
            ns.devices.get_mut(&device.object).expect("device exists").1 = flags;
            Some(DriverEvent::FlagsWritten)
        }
        DriverAction::InstallUnload { handler } => {
            ns.log.push("install unload");
            ns.unload = Some(handler);
            Some(DriverEvent::HandlerInstalled)
        }
        DriverAction::InstallDispatch { major, handler } => {
            ns.log.push("install dispatch");
            assert!(ns.dispatch.insert(major, handler).is_none());
            Some(DriverEvent::HandlerInstalled)
        }
        DriverAction::DeleteSymbolicLink { link } => {
            ns.log.push("delete link");
            assert!(ns.links.remove(link).is_some());
            Some(DriverEvent::LinkDeleted)
        }
        DriverAction::DeleteDevice { device } => {
            ns.log.push("delete device");
            assert!(ns.devices.remove(&device.object).is_some());
            Some(DriverEvent::DeviceDeleted)
        }
        DriverAction::Return { .. } => None,
        DriverAction::Finish => None,
    }
}

/// Runs the entry point to its return; gives the state and the status.
fn start(ns: &mut Namespace, state: DriverState) -> (DriverState, NtStatus) {
    let mut state = state;
    let mut event = DriverEvent::Load;
    loop {
        let (next, action) = driver_entry(state, event).expect("a next step");
        state = next;
        if let DriverAction::Return { status } = action {
            return (state, status);
        }
        event = perform(ns, action).expect("an answer");
    }
}

/// Runs the unload handler to its return; gives the state.
fn stop(ns: &mut Namespace, state: DriverState) -> DriverState {
    let mut state = state;
    let mut event = DriverEvent::Unload;
    loop {
        let (next, action) = boost_unload(state, event).expect("a next step");
        state = next;
        if action == DriverAction::Finish {
            return state;
        }
        event = perform(ns, action).expect("an answer");
    }
}

/// The dispatch table of a module that has started.
fn full_table() -> BTreeMap<u8, Handler> {
    BTreeMap::from([(0, Handler::CreateClose), (2, Handler::CreateClose), (4, Handler::Write)])
}

#[test]
fn fixed_names_and_constants() {
    assert_eq!(DEVICE_NAME, "\\Device\\Booster");
    assert_eq!(SYMBOLIC_LINK_NAME, "\\??\\Booster");
    assert_eq!(FILE_DEVICE_UNKNOWN, 0x22);
    assert_eq!(DO_BUFFERED_IO, 0x4);
}

#[test]
fn start_creates_device_then_link_then_configures() {
    let mut ns = empty_namespace();
    let (state, status) = start(&mut ns, DriverState::Unloaded);
    assert_eq!(status, STATUS_SUCCESS);
    let device = match state {
        DriverState::Loaded { device } => device,
        other => panic!("not loaded: {:?}", other),
    };
    assert_eq!(
        ns.log,
        vec![
            "create device",
            "create link",
            "read flags",
            "write flags",
            "install unload",
            "install dispatch",
            "install dispatch",
            "install dispatch",
        ]
    );
    assert_eq!(
        ns.devices.get(&device.object),
        Some(&("\\Device\\Booster".to_string(), DO_BUFFERED_IO))
    );
    assert_eq!(ns.links.get("\\??\\Booster"), Some(&"\\Device\\Booster".to_string()));
    assert_eq!(ns.unload, Some(Handler::Unload));
    assert_eq!(ns.dispatch, full_table());
}

#[test]
fn marking_for_buffered_io_keeps_the_other_flags() {
    for flags in [0, DO_DEVICE_INITIALIZING, DO_BUFFERED_IO, 0xFFFF_FFFB, u32::MAX] {
        let mut ns = empty_namespace();
        ns.new_device_flags = flags;
        let (state, status) = start(&mut ns, DriverState::Unloaded);
        assert_eq!(status, STATUS_SUCCESS);
        let device = match state {
            DriverState::Loaded { device } => device,
            other => panic!("not loaded: {:?}", other),
        };
        let marked = ns.devices.get(&device.object).expect("device exists").1;
        assert_eq!(marked, flags | 0x4);
        assert_eq!(marked & !0x4, flags & !0x4);
    }
    let device = DeviceRef { object: 0x42 };
    assert_eq!(
        driver_entry(DriverState::ReadingFlags { device }, DriverEvent::FlagsRead { flags: 0x80 }),
        Some((
            DriverState::Configuring { device },
            DriverAction::WriteDeviceFlags { device, flags: 0x84 },
        ))
    );
}

#[test]
fn failed_device_creation_is_reported_and_nothing_else_happens() {
    let mut ns = empty_namespace();
    ns.fail_device = Some(STATUS_INSUFFICIENT_RESOURCES);
    let (state, status) = start(&mut ns, DriverState::Unloaded);
    assert_eq!(status, STATUS_INSUFFICIENT_RESOURCES);
    assert_eq!(state, DriverState::Unloaded);
    assert_eq!(ns.log, vec!["create device"]);
    assert!(ns.devices.is_empty());
    assert!(ns.links.is_empty());
    assert_eq!(ns.unload, None);
    assert!(ns.dispatch.is_empty());
}

#[test]
fn failed_link_creation_deletes_the_device_before_returning() {
    let mut ns = empty_namespace();
    ns.fail_link = Some(STATUS_OBJECT_NAME_COLLISION);
    let (state, status) = start(&mut ns, DriverState::Unloaded);
    assert_eq!(status, STATUS_OBJECT_NAME_COLLISION);
    assert_eq!(state, DriverState::Unloaded);
    assert_eq!(ns.log, vec!["create device", "create link", "delete device"]);
    assert!(ns.devices.is_empty());
    assert!(ns.links.is_empty());
    assert_eq!(ns.unload, None);
    assert!(ns.dispatch.is_empty());
}

#[test]
fn link_name_already_taken_leaves_no_device_behind() {
    let mut ns = empty_namespace();
    ns.links.insert("\\??\\Booster".to_string(), "\\Device\\Other".to_string());
    let (state, status) = start(&mut ns, DriverState::Unloaded);
    assert_eq!(status, STATUS_OBJECT_NAME_COLLISION);
    assert_eq!(state, DriverState::Unloaded);
    assert!(ns.devices.is_empty());
    assert_eq!(ns.links.len(), 1);
    assert_eq!(ns.links.get("\\??\\Booster"), Some(&"\\Device\\Other".to_string()));
}

#[test]
fn stop_deletes_link_then_device() {
    let mut ns = empty_namespace();
    let (state, _) = start(&mut ns, DriverState::Unloaded);
    ns.log.clear();
    let state = stop(&mut ns, state);
    assert_eq!(state, DriverState::Unloaded);
    assert_eq!(ns.log, vec!["delete link", "delete device"]);
    assert!(ns.devices.is_empty());
    assert!(ns.links.is_empty());
}

#[test]
fn start_after_stop_succeeds_as_the_first_time() {
    let mut ns = empty_namespace();
    let (state, first) = start(&mut ns, DriverState::Unloaded);
    let first_log = ns.log.clone();
    let state = stop(&mut ns, state);
    assert!(ns.devices.is_empty() && ns.links.is_empty());
    // The host makes a new module object for each load.
    ns.unload = None;
    ns.dispatch.clear();
    ns.log.clear();
    let (state, second) = start(&mut ns, state);
    assert_eq!(first, STATUS_SUCCESS);
    assert_eq!(second, STATUS_SUCCESS);
    assert_eq!(ns.log, first_log);
    assert!(matches!(state, DriverState::Loaded { .. }));
    assert_eq!(ns.devices.len(), 1);
    assert_eq!(ns.links.len(), 1);
}

#[test]
fn second_start_without_stop_collides_and_leaves_the_first_intact() {
    let mut ns = empty_namespace();
    let (_, first) = start(&mut ns, DriverState::Unloaded);
    assert_eq!(first, STATUS_SUCCESS);
    ns.log.clear();
    let (state, second) = start(&mut ns, DriverState::Unloaded);
    assert_eq!(ns.log, vec!["create device"]);
    assert_eq!(second, STATUS_OBJECT_NAME_COLLISION);
    assert_eq!(state, DriverState::Unloaded);
    assert_eq!(ns.devices.len(), 1);
    assert_eq!(ns.links.len(), 1);
}

#[test]
fn entry_point_steps_exactly() {
    let device = DeviceRef { object: 0x42 };
    assert_eq!(
        driver_entry(DriverState::Unloaded, DriverEvent::Load),
        Some((
            DriverState::CreatingDevice,
            DriverAction::CreateDevice {
                name: "\\Device\\Booster",
                extension_size: 0,
                device_type: 0x22,
                characteristics: 0,
                exclusive: false,
            },
        ))
    );
    assert_eq!(
        driver_entry(
            DriverState::CreatingDevice,
            DriverEvent::DeviceCreated { status: 0, device }
        ),
        Some((
            DriverState::CreatingLink { device },
            DriverAction::CreateSymbolicLink { link: "\\??\\Booster", target: "\\Device\\Booster" },
        ))
    );
    assert_eq!(
        driver_entry(
            DriverState::CreatingDevice,
            DriverEvent::DeviceCreated { status: -7, device }
        ),
        Some((DriverState::Unloaded, DriverAction::Return { status: -7 }))
    );
    assert_eq!(
        driver_entry(DriverState::CreatingLink { device }, DriverEvent::LinkCreated { status: 0 }),
        Some((DriverState::ReadingFlags { device }, DriverAction::ReadDeviceFlags { device }))
    );
    assert_eq!(
        driver_entry(DriverState::CreatingLink { device }, DriverEvent::LinkCreated { status: -9 }),
        Some((
            DriverState::RollingBack { device, status: -9 },
            DriverAction::DeleteDevice { device },
        ))
    );
    assert_eq!(
        driver_entry(DriverState::RollingBack { device, status: -9 }, DriverEvent::DeviceDeleted),
        Some((DriverState::Unloaded, DriverAction::Return { status: -9 }))
    );
    assert_eq!(
        driver_entry(DriverState::ReadingFlags { device }, DriverEvent::FlagsRead { flags: 0 }),
        Some((
            DriverState::Configuring { device },
            DriverAction::WriteDeviceFlags { device, flags: 4 },
        ))
    );
    assert_eq!(
        driver_entry(DriverState::Configuring { device }, DriverEvent::FlagsWritten),
        Some((
            DriverState::InstallingUnload { device },
            DriverAction::InstallUnload { handler: Handler::Unload },
        ))
    );
    assert_eq!(
        driver_entry(DriverState::InstallingUnload { device }, DriverEvent::HandlerInstalled),
        Some((
            DriverState::InstallingDispatch { device, major: 0 },
            DriverAction::InstallDispatch { major: 0, handler: Handler::CreateClose },
        ))
    );
    assert_eq!(
        driver_entry(
            DriverState::InstallingDispatch { device, major: 0 },
            DriverEvent::HandlerInstalled
        ),
        Some((
            DriverState::InstallingDispatch { device, major: 2 },
            DriverAction::InstallDispatch { major: 2, handler: Handler::CreateClose },
        ))
    );
    assert_eq!(
        driver_entry(
            DriverState::InstallingDispatch { device, major: 2 },
            DriverEvent::HandlerInstalled
        ),
        Some((
            DriverState::InstallingDispatch { device, major: 4 },
            DriverAction::InstallDispatch { major: 4, handler: Handler::Write },
        ))
    );
    assert_eq!(
        driver_entry(
            DriverState::InstallingDispatch { device, major: 4 },
            DriverEvent::HandlerInstalled
        ),
        Some((DriverState::Loaded { device }, DriverAction::Return { status: 0 }))
    );
}

#[test]
fn no_slot_is_filled_above_the_write_slot() {
    let device = DeviceRef { object: 0x42 };
    for major in 4..=u8::MAX {
        assert_eq!(
            driver_entry(
                DriverState::InstallingDispatch { device, major },
                DriverEvent::HandlerInstalled
            ),
            Some((DriverState::Loaded { device }, DriverAction::Return { status: 0 }))
        );
    }
}

#[test]
fn unload_steps_exactly() {
    let device = DeviceRef { object: 0x42 };
    assert_eq!(
        boost_unload(DriverState::Loaded { device }, DriverEvent::Unload),
        Some((
            DriverState::RemovingLink { device },
            DriverAction::DeleteSymbolicLink { link: "\\??\\Booster" },
        ))
    );
    assert_eq!(
        boost_unload(DriverState::RemovingLink { device }, DriverEvent::LinkDeleted),
        Some((DriverState::RemovingDevice { device }, DriverAction::DeleteDevice { device }))
    );
    assert_eq!(
        boost_unload(DriverState::RemovingDevice { device }, DriverEvent::DeviceDeleted),
        Some((DriverState::Unloaded, DriverAction::Finish))
    );
}

#[test]
fn stop_is_refused_before_start_succeeded() {
    let device = DeviceRef { object: 0x42 };
    for state in [
        DriverState::Unloaded,
        DriverState::CreatingDevice,
        DriverState::CreatingLink { device },
        DriverState::RollingBack { device, status: -1 },
        DriverState::ReadingFlags { device },
        DriverState::Configuring { device },
        DriverState::InstallingUnload { device },
        DriverState::InstallingDispatch { device, major: 0 },
        DriverState::InstallingDispatch { device, major: 4 },
    ] {
        assert_eq!(boost_unload(state, DriverEvent::Unload), None);
        assert_eq!(driver_entry(state, DriverEvent::Unload), None);
    }
}

#[test]
fn start_is_refused_while_loaded() {
    let device = DeviceRef { object: 0x42 };
    assert_eq!(driver_entry(DriverState::Loaded { device }, DriverEvent::Load), None);
    assert_eq!(driver_entry(DriverState::RemovingLink { device }, DriverEvent::Load), None);
    assert_eq!(boost_unload(DriverState::Loaded { device }, DriverEvent::Load), None);
    assert_eq!(driver_entry(DriverState::Unloaded, DriverEvent::DeviceDeleted), None);
}
