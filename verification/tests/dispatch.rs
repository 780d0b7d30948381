use booster::dispatch::{
    boost_create_close, dispatch_slot, handler_for, next_slot, request_kind, Completion, Handler,
    RequestKind, IRP_MJ_CLOSE, IRP_MJ_CREATE, IRP_MJ_MAXIMUM_FUNCTION, IRP_MJ_WRITE,
};
use booster::status::STATUS_SUCCESS;

#[test]
fn open_and_close_complete_with_success_and_no_bytes() {
    let done = boost_create_close();
    assert_eq!(done, Completion { status: STATUS_SUCCESS, information: 0 });
    assert_eq!(done.status, 0);
    assert_eq!(done.information, 0);
}

#[test]
fn major_function_codes() {
    assert_eq!(IRP_MJ_CREATE, 0);
    assert_eq!(IRP_MJ_CLOSE, 2);
    assert_eq!(IRP_MJ_WRITE, 4);
    assert_eq!(IRP_MJ_MAXIMUM_FUNCTION, 27);
}

#[test]
fn each_request_kind_has_its_handler() {
    assert_eq!(handler_for(RequestKind::Open), Handler::CreateClose);
    assert_eq!(handler_for(RequestKind::Close), Handler::CreateClose);
    assert_eq!(handler_for(RequestKind::Write), Handler::Write);
    assert_eq!(handler_for(RequestKind::Unload), Handler::Unload);
}

#[test]
fn codes_map_to_request_kinds() {
    assert_eq!(request_kind(0), Some(RequestKind::Open));
    assert_eq!(request_kind(2), Some(RequestKind::Close));
    assert_eq!(request_kind(4), Some(RequestKind::Write));
    assert_eq!(request_kind(1), None);
    assert_eq!(request_kind(3), None);
    assert_eq!(request_kind(255), None);
}

#[test]
fn only_three_slots_of_the_table_are_filled() {
    let mut filled = Vec::new();
    for major in 0..=u8::MAX {
        if let Some(handler) = dispatch_slot(major) {
            filled.push((major, handler));
        }
    }
    assert_eq!(
        filled,
        vec![(0, Handler::CreateClose), (2, Handler::CreateClose), (4, Handler::Write)]
    );
    assert!(filled.iter().all(|(major, _)| *major <= IRP_MJ_MAXIMUM_FUNCTION));
}

#[test]
fn walking_the_table_meets_open_close_and_write_in_order() {
    assert_eq!(next_slot(0), Some((0, Handler::CreateClose)));
    assert_eq!(next_slot(1), Some((2, Handler::CreateClose)));
    assert_eq!(next_slot(2), Some((2, Handler::CreateClose)));
    assert_eq!(next_slot(3), Some((4, Handler::Write)));
    assert_eq!(next_slot(4), Some((4, Handler::Write)));
    assert_eq!(next_slot(5), None);
    assert_eq!(next_slot(27), None);
    assert_eq!(next_slot(28), None);
    assert_eq!(next_slot(255), None);
}

#[test]
fn walk_agrees_with_the_slots() {
    for from in 0..=u8::MAX {
        let expected = (from..=IRP_MJ_MAXIMUM_FUNCTION)
            .find_map(|major| dispatch_slot(major).map(|handler| (major, handler)));
        assert_eq!(next_slot(from), expected);
    }
}
