use confined::errors::{CallerError, Error, ErrorKind, ResourceError};
use confined::operation::Operation;
use confined::resource::Resource;
use confined::worker::Worker;
use confined::{interpret_reply, Connection, Pending};

/// Run a worker over a fresh in-memory resource until it terminates.
fn drive(worker: Worker) {
    let mut running = worker.start(Ok(Resource::new())).expect("the resource opens");
    while running.step() {}
}

#[test]
fn create_insert_count() {
    let (conn, worker) = Connection::open_pair();
    let p_create = conn.submit(true, Operation::CreateTable).expect("submit create");
    let p_first = conn
        .submit(true, Operation::Insert { table: 0, value: 10 })
        .expect("submit first insert");
    let p_second = conn
        .submit(true, Operation::Insert { table: 0, value: 20 })
        .expect("submit second insert");
    let p_count = conn
        .submit(false, Operation::CountRows { table: 0 })
        .expect("submit count");
    conn.close().expect("close");
    drive(worker);
    assert_eq!(p_create.wait(), Ok(0));
    assert_eq!(p_first.wait(), Ok(0));
    assert_eq!(p_second.wait(), Ok(1));
    assert_eq!(p_count.wait(), Ok(2));
}

#[test]
fn results_come_in_submission_order() {
    let (conn, worker) = Connection::open_pair();
    let p_create = conn.submit(true, Operation::CreateTable).expect("submit create");
    let p_insert = conn
        .submit(true, Operation::Insert { table: 0, value: 5 })
        .expect("submit insert");
    let p_read = conn
        .submit(false, Operation::ReadRow { table: 0, row: 0 })
        .expect("submit read");
    conn.close().expect("close");
    drive(worker);
    // The later operations see the earlier operations' side effects.
    assert_eq!(p_create.wait(), Ok(0));
    assert_eq!(p_insert.wait(), Ok(0));
    assert_eq!(p_read.wait(), Ok(5));
}

#[test]
fn hundred_increments_no_lost_updates() {
    let (conn, worker) = Connection::open_pair();
    let p_create = conn.submit(true, Operation::CreateTable).expect("submit create");
    let p_insert = conn
        .submit(true, Operation::Insert { table: 0, value: 0 })
        .expect("submit insert");
    let mut pendings: Vec<Pending> = Vec::new();
    for _caller in 0..10 {
        for _ in 0..10 {
            pendings.push(
                conn.submit(true, Operation::Increment { table: 0, row: 0 })
                    .expect("submit increment"),
            );
        }
    }
    let p_read = conn
        .submit(false, Operation::ReadRow { table: 0, row: 0 })
        .expect("submit read");
    conn.close().expect("close");
    drive(worker);
    assert_eq!(p_create.wait(), Ok(0));
    assert_eq!(p_insert.wait(), Ok(0));
    // Every increment resolves, each seeing all earlier effects.
    let mut expected: u64 = 0;
    for p in pendings {
        expected += 1;
        assert_eq!(p.wait(), Ok(expected));
    }
    assert_eq!(p_read.wait(), Ok(100));
}

#[test]
fn drop_with_queued_operations_drains() {
    let (conn, worker) = Connection::open_pair();
    let p_create = conn.submit(true, Operation::CreateTable).expect("submit create");
    let mut pendings: Vec<Pending> = Vec::new();
    for v in 0..5 {
        pendings.push(
            conn.submit(true, Operation::Insert { table: 0, value: v })
                .expect("submit insert"),
        );
    }
    // The handle goes away while the five inserts are still queued.
    drop(conn);
    drive(worker);
    // Shutdown drains: all five still executed before the worker stopped.
    assert_eq!(p_create.wait(), Ok(0));
    for (i, p) in pendings.into_iter().enumerate() {
        assert_eq!(p.wait(), Ok(i as u64));
    }
}

#[test]
fn delegation_after_shutdown_fails_closed() {
    let (conn, worker) = Connection::open_pair();
    conn.close().expect("close");
    drive(worker);
    // The worker is gone: a new delegation fails at once with Closed.
    let mut conn = conn;
    let e = conn.delegate(Operation::CreateTable).unwrap_err();
    assert_eq!(*e.kind(), ErrorKind::Closed);
    assert!(e.downcast_ref().is_none());
    let e = conn.delegate_mut(Operation::CreateTable).unwrap_err();
    assert_eq!(*e.kind(), ErrorKind::Closed);
    let e = conn.run(Operation::Insert { table: 0, value: 1 }).unwrap_err();
    assert_eq!(*e.kind(), ErrorKind::Closed);
    // Submitting without waiting fails the same way.
    assert!(conn.submit(true, Operation::CreateTable).is_err());
    // Closing again reports Closed too, without blocking.
    assert_eq!(conn.close().unwrap_err().kind(), &ErrorKind::Closed);
}

#[test]
fn queued_after_shutdown_resolves_closed() {
    let (conn, worker) = Connection::open_pair();
    conn.close().expect("close");
    // This operation queues behind the shutdown signal: it is never
    // executed, and its caller observes Closed rather than hanging.
    let p = conn.submit(true, Operation::CreateTable).expect("submit");
    drive(worker);
    // The handle goes too: nothing keeps the unexecuted message alive.
    drop(conn);
    let e = p.wait().unwrap_err();
    assert_eq!(*e.kind(), ErrorKind::Closed);
}

#[test]
fn caller_error_recovered_by_inspection() {
    let (conn, worker) = Connection::open_pair();
    let p = conn
        .submit(false, Operation::Fail { code: 42 })
        .expect("submit failing operation");
    conn.close().expect("close");
    drive(worker);
    let e = p.wait().unwrap_err();
    assert_eq!(e.downcast_ref(), Some(&CallerError { code: 42 }));
    assert_eq!(*e.kind(), ErrorKind::Other(CallerError { code: 42 }));
}

#[test]
fn resource_error_variants() {
    let (conn, worker) = Connection::open_pair();
    let p_no_table = conn
        .submit(true, Operation::Insert { table: 0, value: 1 })
        .expect("submit");
    let p_create = conn.submit(true, Operation::CreateTable).expect("submit");
    let p_no_row = conn
        .submit(false, Operation::ReadRow { table: 0, row: 0 })
        .expect("submit");
    let p_insert_max = conn
        .submit(true, Operation::Insert { table: 0, value: u64::MAX })
        .expect("submit");
    let p_overflow = conn
        .submit(true, Operation::Increment { table: 0, row: 0 })
        .expect("submit");
    let p_count_missing = conn
        .submit(false, Operation::CountRows { table: 7 })
        .expect("submit");
    conn.close().expect("close");
    drive(worker);
    assert_eq!(
        p_no_table.wait().unwrap_err().kind(),
        &ErrorKind::Resource(ResourceError::NoSuchTable)
    );
    assert_eq!(p_create.wait(), Ok(0));
    assert_eq!(
        p_no_row.wait().unwrap_err().kind(),
        &ErrorKind::Resource(ResourceError::NoSuchRow)
    );
    assert_eq!(p_insert_max.wait(), Ok(0));
    assert_eq!(
        p_overflow.wait().unwrap_err().kind(),
        &ErrorKind::Resource(ResourceError::Overflow)
    );
    assert_eq!(
        p_count_missing.wait().unwrap_err().kind(),
        &ErrorKind::Resource(ResourceError::NoSuchTable)
    );
    // A resource error is not a caller-supplied error.
    assert!(ErrorKind::Resource(ResourceError::NoSuchTable).downcast_ref().is_none());
}

#[test]
fn failed_open_reports_the_open_error() {
    let (conn, worker) = Connection::open_pair();
    let p = conn.submit(true, Operation::CreateTable).expect("submit");
    // The resource could not be opened: the run never begins and the
    // open error is the worker's own result.
    let r = worker.start(Err(Error::closed()));
    assert!(r.is_err());
    // Every delegation already queued resolves as Closed once the handle
    // is gone too.
    drop(conn);
    let e = p.wait().unwrap_err();
    assert_eq!(*e.kind(), ErrorKind::Closed);
}

#[test]
fn read_only_operations_leave_the_resource_unchanged() {
    let (conn, worker) = Connection::open_pair();
    let p_create = conn.submit(true, Operation::CreateTable).expect("submit");
    let p_insert = conn
        .submit(true, Operation::Insert { table: 0, value: 3 })
        .expect("submit");
    let p_count_a = conn
        .submit(false, Operation::CountRows { table: 0 })
        .expect("submit");
    let p_count_b = conn
        .submit(false, Operation::CountRows { table: 0 })
        .expect("submit");
    let p_read = conn
        .submit(false, Operation::ReadRow { table: 0, row: 0 })
        .expect("submit");
    conn.close().expect("close");
    drive(worker);
    assert_eq!(p_create.wait(), Ok(0));
    assert_eq!(p_insert.wait(), Ok(0));
    assert_eq!(p_count_a.wait(), Ok(1));
    assert_eq!(p_count_b.wait(), Ok(1));
    assert_eq!(p_read.wait(), Ok(3));
}

#[test]
fn resource_direct_operations() {
    let mut res = Resource::new();
    assert_eq!(res.create_table(), 0);
    assert_eq!(res.create_table(), 1);
    assert_eq!(res.insert(1, 7), Ok(0));
    assert_eq!(res.increment(1, 0), Ok(8));
    assert_eq!(res.count_rows(1), Ok(1));
    assert_eq!(res.read_row(1, 0), Ok(8));
    assert_eq!(res.count_rows(0), Ok(0));
    assert_eq!(res.read_row(0, 0), Err(ResourceError::NoSuchRow));
    assert_eq!(res.insert(2, 1), Err(ResourceError::NoSuchTable));
}

#[test]
fn pending_into_receiver_delivers_the_reply() {
    let (conn, worker) = Connection::open_pair();
    let p = conn.submit(true, Operation::CreateTable).expect("submit");
    conn.close().expect("close");
    drive(worker);
    let reply = p.into_receiver().recv().expect("the reply was delivered");
    assert_eq!(interpret_reply(reply), Ok(0));
}
