use selecting::sys::unix::{FdSet, TimeVal};
use selecting::{SelectError, Selector};

fn flagged(fds: &[i32]) -> FdSet {
    let mut set = FdSet::new();
    for fd in fds {
        set.add(*fd);
    }
    set
}

#[test]
fn try_select_passes_zero_timeout() {
    let mut selector = Selector::new();
    selector.add_read(4);
    let call = selector.try_select();
    let args = call.args();
    assert_eq!(args.timeout, Some(TimeVal { tv_sec: 0, tv_usec: 0 }));
    assert_eq!(args.nfds, 5);
    assert!(args.watch_read);
    assert!(!args.watch_write);
}

#[test]
fn select_blocks_without_timeout() {
    let mut selector = Selector::new();
    selector.add_write(9);
    let args = selector.select().args();
    assert_eq!(args.timeout, None);
    assert_eq!(args.nfds, 10);
    assert!(!args.watch_read);
    assert!(args.watch_write);
}

#[test]
fn select_timeout_forwards_duration() {
    let mut selector = Selector::new();
    selector.add_read(2);
    let call = selector.select_timeout(3, 125_000).unwrap();
    assert_eq!(call.args().timeout, Some(TimeVal { tv_sec: 3, tv_usec: 125_000 }));
}

#[test]
fn select_timeout_rejects_oversized_seconds() {
    let selector = Selector::new();
    assert!(matches!(selector.select_timeout(u64::MAX, 0), Err(SelectError::InvalidInput)));
}

#[test]
fn poll_works_on_copies() {
    let mut selector = Selector::new();
    selector.add_read(6);
    let call = selector.select();
    selector.add_read(8);
    assert!(call.read_set().is_present(6));
    assert!(!call.read_set().is_present(8));
    let result = call.complete(1, 0, &flagged(&[6, 8]), &FdSet::new()).unwrap();
    assert!(result.is_read(6));
    assert!(!result.is_read(8));
    let again = selector.select();
    assert!(again.read_set().is_present(6));
    assert!(again.read_set().is_present(8));
}

#[test]
fn native_failure_is_reported() {
    let mut selector = Selector::new();
    selector.add_read(3);
    let call = selector.select();
    assert!(matches!(
        call.complete(-1, 4, &FdSet::new(), &FdSet::new()),
        Err(SelectError::Os(4))
    ));
}

#[test]
fn ready_count_is_not_recomputed() {
    let mut selector = Selector::new();
    selector.add_read(5);
    selector.add_write(5);
    let call = selector.select();
    let result = call.complete(1, 0, &flagged(&[5]), &flagged(&[5])).unwrap();
    assert_eq!(result.len(), 1);
    assert!(result.is_read(5));
    assert!(result.is_write(5));
}

#[test]
fn clear_read_leaves_write_side() {
    let mut selector = Selector::new();
    selector.add_read(5);
    selector.add_write(5);
    selector.clear_read();
    let call = selector.try_select();
    assert!(!call.args().watch_read);
    let result = call.complete(1, 0, &flagged(&[5]), &flagged(&[5])).unwrap();
    assert!(!result.is_read(5));
    assert!(result.is_write(5));
}

#[test]
fn clear_write_leaves_read_side() {
    let mut selector = Selector::new();
    selector.add_read(5);
    selector.add_write(5);
    selector.clear_write();
    let call = selector.try_select();
    assert!(!call.args().watch_write);
    let result = call.complete(1, 0, &flagged(&[5]), &flagged(&[5])).unwrap();
    assert!(result.is_read(5));
    assert!(!result.is_write(5));
}

#[test]
fn read_only_handle_never_readable_is_not_ready() {
    let mut selector = Selector::new();
    selector.add_read(11);
    let call = selector.try_select();
    let result = call.complete(0, 0, &FdSet::new(), &flagged(&[11])).unwrap();
    assert!(!result.is_read(11));
    assert!(!result.is_write(11));
}

#[test]
fn idle_socket_then_writable() {
    let mut selector = Selector::new();
    selector.add_read(3);
    let result = selector.try_select().complete(0, 0, &FdSet::new(), &FdSet::new()).unwrap();
    assert_eq!(result.len(), 0);
    assert!(!result.is_read(3));

    selector.clear_read();
    selector.add_write(3);
    let result = selector.try_select().complete(1, 0, &FdSet::new(), &flagged(&[3])).unwrap();
    assert_eq!(result.len(), 1);
    assert!(!result.is_read(3));
    assert!(result.is_write(3));
}

#[test]
fn two_of_three_connections_readable() {
    let mut selector = Selector::new();
    selector.add_read(5);
    selector.add_read(6);
    selector.add_read(7);
    let call = selector.select();
    assert_eq!(call.args().nfds, 8);
    let result = call.complete(2, 0, &flagged(&[6, 7]), &FdSet::new()).unwrap();
    assert_eq!(result.len(), 2);
    assert!(!result.is_read(5));
    assert!(result.is_read(6));
    assert!(result.is_read(7));
}

#[test]
fn shutdown_connections_all_readable() {
    let mut selector = Selector::new();
    selector.add_read(5);
    selector.add_read(6);
    selector.add_read(7);
    let result = selector.select().complete(3, 0, &flagged(&[5, 6, 7]), &FdSet::new()).unwrap();
    assert_eq!(result.len(), 3);
    assert!(result.is_read(5));
    assert!(result.is_read(6));
    assert!(result.is_read(7));
}

#[test]
fn unwatched_flags_are_ignored() {
    let mut selector = Selector::new();
    selector.add_read(20);
    let result = selector.select().complete(1, 0, &flagged(&[20, 21]), &flagged(&[22])).unwrap();
    assert!(result.is_read(20));
    assert!(!result.is_read(21));
    assert!(!result.is_write(22));
}

#[test]
fn selector_copy_is_independent() {
    let mut selector = Selector::new();
    selector.add_read(1);
    let copy = selector;
    selector.clear_read();
    assert!(copy.select().args().watch_read);
    assert!(!selector.select().args().watch_read);
}
