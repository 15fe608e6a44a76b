use script_host::error::HostError;
use script_host::resources::{Resource, ResourceTable};

fn table_with_listener() -> (ResourceTable, u32) {
    let mut t = ResourceTable::new();
    let l = t.listen(8080).unwrap();
    (t, l.resource_id)
}

fn table_with_stream() -> (ResourceTable, u32) {
    let (mut t, lid) = table_with_listener();
    t.begin_accept(lid).unwrap();
    let sid = t.finish_accept(lid, Ok(())).unwrap();
    (t, sid)
}

#[test]
fn listen_hands_out_increasing_handles() {
    let mut t = ResourceTable::new();
    let a = t.listen(4000).unwrap();
    let b = t.listen(0).unwrap();
    assert_eq!(a.resource_id, 0);
    assert_eq!(a.port, 4000);
    assert_eq!(b.resource_id, 1);
    assert_eq!(b.port, 0);
    assert!(matches!(t.get(0), Some(Resource::Listener(l)) if !l.cancelled && l.pending == 0));
}

#[test]
fn accepted_connection_gets_a_new_stream_handle() {
    let (t, sid) = table_with_stream();
    assert_eq!(sid, 1);
    match t.get(sid) {
        Some(Resource::Stream(s)) => {
            assert!(!s.cancelled && !s.rd.held && !s.wr.held);
        }
        other => panic!("not a stream: {:?}", other),
    }
    assert!(matches!(t.get(0), Some(Resource::Listener(l)) if l.pending == 0));
}

#[test]
fn accept_failure_is_an_io_error() {
    let (mut t, lid) = table_with_listener();
    t.begin_accept(lid).unwrap();
    assert_eq!(
        t.finish_accept(lid, Err("connection reset".to_string())),
        Err(HostError::Io("connection reset".to_string()))
    );
}

#[test]
fn accept_on_closed_listener_is_cancelled() {
    let (mut t, lid) = table_with_listener();
    assert_eq!(t.begin_accept(lid), Ok(()));
    assert_eq!(t.close(lid), Ok(()));
    assert_eq!(t.finish_accept(lid, Ok(())), Err(HostError::Cancelled));
    assert!(t.get(lid).is_none());
}

#[test]
fn accept_needs_an_open_listener() {
    let (mut t, sid) = table_with_stream();
    assert_eq!(t.begin_accept(sid), Err(HostError::BadResource));
    assert_eq!(t.begin_accept(99), Err(HostError::BadResource));
    assert_eq!(t.finish_accept(0, Ok(())), Err(HostError::BadResource));
}

#[test]
fn reads_on_one_stream_serialize() {
    let (mut t, sid) = table_with_stream();
    assert_eq!(t.begin_read(sid), Ok(true));
    assert_eq!(t.begin_read(sid), Ok(false));
    assert_eq!(t.finish_read(sid, Ok(3)), (Ok(3), true));
    assert_eq!(t.finish_read(sid, Ok(0)), (Ok(0), false));
    assert_eq!(t.finish_read(sid, Ok(0)), (Err(HostError::BadResource), false));
}

#[test]
fn read_and_write_do_not_wait_for_each_other() {
    let (mut t, sid) = table_with_stream();
    assert_eq!(t.begin_read(sid), Ok(true));
    assert_eq!(t.begin_write(sid), Ok(true));
    assert_eq!(t.begin_write(sid), Ok(false));
    assert_eq!(t.finish_write(sid, Ok(4)), (Ok(4), true));
    assert_eq!(t.finish_read(sid, Ok(2)), (Ok(2), false));
}

#[test]
fn close_cancels_reads_but_not_writes() {
    let (mut t, sid) = table_with_stream();
    assert_eq!(t.begin_read(sid), Ok(true));
    assert_eq!(t.begin_read(sid), Ok(false));
    assert_eq!(t.begin_write(sid), Ok(true));
    assert_eq!(t.close(sid), Ok(()));
    assert_eq!(t.begin_read(sid), Err(HostError::BadResource));
    assert_eq!(t.begin_write(sid), Err(HostError::BadResource));
    assert_eq!(t.finish_read(sid, Ok(5)), (Err(HostError::Cancelled), true));
    assert_eq!(t.finish_read(sid, Ok(5)), (Err(HostError::Cancelled), false));
    assert_eq!(t.finish_write(sid, Ok(7)), (Ok(7), false));
    assert!(t.get(sid).is_none());
}

#[test]
fn stream_io_failure_is_an_io_error() {
    let (mut t, sid) = table_with_stream();
    assert_eq!(t.begin_write(sid), Ok(true));
    assert_eq!(
        t.finish_write(sid, Err("broken pipe".to_string())),
        (Err(HostError::Io("broken pipe".to_string())), false)
    );
}

#[test]
fn closed_handle_stays_invalid_and_is_not_reused() {
    let (mut t, lid) = table_with_listener();
    assert_eq!(t.close(lid), Ok(()));
    assert!(t.get(lid).is_none());
    assert_eq!(t.close(lid), Err(HostError::BadResource));
    assert_eq!(t.begin_accept(lid), Err(HostError::BadResource));
    let again = t.listen(8080).unwrap();
    assert_eq!(again.resource_id, 1);
    assert_eq!(t.begin_accept(lid), Err(HostError::BadResource));
}
