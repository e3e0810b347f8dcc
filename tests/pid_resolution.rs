use gamemode_x11::errors::Error;
use gamemode_x11::pid::{
    get_cardinal, pid_from_client_ids, pid_from_primary, select_local_client_pid, CardinalReply,
    ClientIdRecord, PidStep,
};

fn record(mask: u32, values: Vec<u32>) -> ClientIdRecord {
    ClientIdRecord { mask, values }
}

#[test]
fn well_formed_primary_gives_first_item() {
    let reply = CardinalReply { format: 32, values: Some(vec![4242, 7]) };
    let pid = get_cardinal(Ok(reply));
    assert!(matches!(pid, Ok(4242)));
    assert!(matches!(pid_from_primary(pid), PidStep::Resolved(4242)));
}

#[test]
fn primary_with_format_eight_falls_back_to_local_client_pid() {
    let reply = CardinalReply { format: 8, values: None };
    let primary = get_cardinal(Ok(reply));
    assert!(matches!(primary, Err(Error::Other("Invalid property format"))));
    let primary_error = match pid_from_primary(primary) {
        PidStep::QueryClientIds(e) => e,
        PidStep::Resolved(p) => panic!("resolved to {p} without the fallback"),
    };
    let ids = vec![record(1, vec![99]), record(2, vec![1234, 5])];
    assert!(matches!(pid_from_client_ids(primary_error, Ok(ids)), Ok(1234)));
}

#[test]
fn empty_primary_is_a_failure() {
    let reply = CardinalReply { format: 32, values: Some(vec![]) };
    assert!(matches!(get_cardinal(Ok(reply)), Err(Error::Other("Empty response"))));
}

#[test]
fn unreadable_primary_items_are_a_failure() {
    let reply = CardinalReply { format: 32, values: None };
    assert!(matches!(get_cardinal(Ok(reply)), Err(Error::Other("Cannot iterate u32 values"))));
}

#[test]
fn gone_window_keeps_request_error() {
    let primary = get_cardinal(Err(Error::ConnectionError(
        x11rb::errors::ConnectionError::UnknownError,
    )));
    assert!(matches!(primary, Err(Error::ConnectionError(_))));
    assert!(matches!(pid_from_primary(primary), PidStep::QueryClientIds(Error::ConnectionError(_))));
}

#[test]
fn both_sources_empty_wrap_the_primary_error() {
    let primary = get_cardinal(Ok(CardinalReply { format: 32, values: Some(vec![]) }));
    let primary_error = match pid_from_primary(primary) {
        PidStep::QueryClientIds(e) => e,
        PidStep::Resolved(p) => panic!("resolved to {p}"),
    };
    let r = pid_from_client_ids(primary_error, Ok(vec![record(1, vec![3]), record(2, vec![])]));
    match r {
        Err(Error::ResolutionFailure(inner)) => {
            assert!(matches!(*inner, Error::Other("Empty response")))
        }
        other => panic!("unexpected {other:?}"),
    }
}

#[test]
fn failed_client_query_wraps_the_primary_error() {
    let r = pid_from_client_ids(
        Error::Other("Empty response"),
        Err(Error::ConnectionError(x11rb::errors::ConnectionError::UnknownError)),
    );
    match r {
        Err(Error::ResolutionFailure(inner)) => {
            assert!(matches!(*inner, Error::Other("Empty response")))
        }
        other => panic!("unexpected {other:?}"),
    }
}

fn resolve(reply: Result<CardinalReply, Error>, ids: Vec<ClientIdRecord>) -> Result<u32, Error> {
    match pid_from_primary(get_cardinal(reply)) {
        PidStep::Resolved(pid) => Ok(pid),
        PidStep::QueryClientIds(e) => pid_from_client_ids(e, Ok(ids)),
    }
}

#[test]
fn absent_primary_attribute_falls_back() {
    let reply = CardinalReply { format: 0, values: None };
    let ids = vec![record(2, vec![777, 1])];
    assert!(matches!(resolve(Ok(reply), ids), Ok(777)));
}

#[test]
fn gone_window_falls_back_before_failing() {
    let gone = x11rb::x11_utils::X11Error {
        error_kind: x11rb::protocol::ErrorKind::Window,
        error_code: 3,
        sequence: 1,
        bad_value: 0x40_0001,
        minor_opcode: 0,
        major_opcode: 20,
        extension_name: None,
        request_name: Some("GetProperty"),
    };
    let ids = vec![record(1, vec![5]), record(2, vec![888])];
    assert!(matches!(resolve(Err(Error::X11Error(gone)), ids), Ok(888)));
}

#[test]
fn local_client_pid_record_is_picked_by_mask() {
    assert_eq!(select_local_client_pid(&vec![]), None);
    assert_eq!(select_local_client_pid(&vec![record(1, vec![10]), record(0, vec![11])]), None);
    assert_eq!(
        select_local_client_pid(&vec![record(1, vec![10]), record(2, vec![]), record(2, vec![12, 13]), record(2, vec![14])]),
        Some(12)
    );
}
