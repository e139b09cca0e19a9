use rapt::board::Board;
use rapt::instrument::Instrument;
use rapt::mqtt::{Handle, LastMessages, MemorySink, Publisher, RunError, Step, TransportError};
use rapt::ser::JsonSerializer;

fn board_with(names: &[&str], value: u32) -> Board<u32, Handle> {
    let mut board: Board<u32, Handle> = Board::new();
    for name in names {
        board.register(name, Instrument::new(value));
    }
    board
}

fn drive(publisher: &mut Publisher<u32, (), MemorySink>) -> Result<(), RunError> {
    let mut last = LastMessages::new();
    loop {
        match publisher.run_step(&mut last, &JsonSerializer) {
            Ok(Step::Continue) => continue,
            Ok(Step::Stop) => return Ok(()),
            Err(e) => return Err(e),
        }
    }
}

#[test]
fn publisher_dedup() {
    let board = board_with(&["a"], 1);
    let mut publisher = Publisher::new((), MemorySink::new(), board, false);
    let handle = publisher.handle();
    let mut last = LastMessages::new();

    // The wiring of the board queued one initial Update("a"): processing it
    // publishes the first snapshot.
    assert!(matches!(publisher.run_step(&mut last, &JsonSerializer), Ok(Step::Continue)));

    // An update that leaves the value unchanged queues a second event whose
    // re-read snapshot repeats the same bytes: no second publish call.
    publisher.instruments().instruments[0].update(|v: &u32| *v).unwrap();
    assert!(matches!(publisher.run_step(&mut last, &JsonSerializer), Ok(Step::Continue)));

    // A real change queues an event whose snapshot differs: published again.
    publisher.instruments().instruments[0].update(|v: &u32| v + 1).unwrap();
    assert!(matches!(publisher.run_step(&mut last, &JsonSerializer), Ok(Step::Continue)));

    handle.shutdown();
    assert!(matches!(publisher.run_step(&mut last, &JsonSerializer), Ok(Step::Stop)));

    let sink = publisher.into_inner();
    assert_eq!(sink.records.len(), 2);
    assert_eq!(sink.records[0].0, "a");
    assert_eq!(sink.records[1].0, "a");
    assert_ne!(sink.records[0].1, sink.records[1].1);
    assert_eq!(sink.records[0].1, b"{\"value\":1}".to_vec());
    assert_eq!(sink.records[1].1, b"{\"value\":2}".to_vec());
}

#[test]
fn publisher_shutdown() {
    let board = board_with(&["a"], 1);
    let mut publisher = Publisher::new((), MemorySink::new(), board, false);
    let handle = publisher.handle();

    // One Update("a") from the wiring is queued, then Shutdown, then another
    // update event that arrives strictly after the Shutdown.
    handle.shutdown();
    publisher.instruments().instruments[0].update(|v: &u32| v + 41).unwrap();

    assert!(drive(&mut publisher).is_ok());

    // The loop exited at the Shutdown: the later update event was never acted
    // upon, so only the event queued before the Shutdown was published. That
    // one re-read the value current at processing time.
    let sink = publisher.into_inner();
    assert_eq!(sink.records.len(), 1);
    assert_eq!(sink.records[0].1, b"{\"value\":42}".to_vec());
}

#[test]
fn shutdown_is_idempotent() {
    let board = board_with(&["a"], 3);
    let mut publisher = Publisher::new((), MemorySink::new(), board, false);
    let handle = publisher.handle();
    let second = handle.clone();

    handle.shutdown();
    second.shutdown();

    assert!(drive(&mut publisher).is_ok());
    let sink = publisher.into_inner();
    assert_eq!(sink.records.len(), 1);
}

#[test]
fn transport_error_ends_run() {
    let board = board_with(&["a"], 1);
    let mut publisher = Publisher::new((), MemorySink::rejecting(), board, false);
    let handle = publisher.handle();
    handle.shutdown();

    let outcome = drive(&mut publisher);
    assert_eq!(outcome, Err(RunError::Transport(TransportError)));
}

#[test]
fn retain_flag_reaches_sink() {
    let board = board_with(&["a"], 9);
    let mut publisher = Publisher::new((), MemorySink::new(), board, true);
    let handle = publisher.handle();
    handle.shutdown();

    assert!(drive(&mut publisher).is_ok());
    let sink = publisher.into_inner();
    assert_eq!(sink.records.len(), 1);
    assert!(sink.records[0].2);
}

#[test]
fn record_reports_changes() {
    let mut last = LastMessages::new();
    let x = b"x".to_vec();
    let y = b"y".to_vec();
    assert!(last.record("a", &x));
    assert!(!last.record("a", &x));
    assert!(last.record("a", &y));
    assert!(last.record("b", &y));
    assert!(!last.record("b", &y));
}

#[test]
fn coalesced_updates_publish_latest() {
    let board = board_with(&["a"], 0);
    let mut publisher = Publisher::new((), MemorySink::new(), board, false);
    let handle = publisher.handle();

    // The wiring queued one event and the three updates queue three more,
    // but every event re-reads the current value, so all four publish
    // attempts see the final value and only the first one publishes it.
    publisher.instruments().instruments[0].update(|v: &u32| v + 1).unwrap();
    publisher.instruments().instruments[0].update(|v: &u32| v + 1).unwrap();
    publisher.instruments().instruments[0].update(|v: &u32| v + 1).unwrap();
    handle.shutdown();

    assert!(drive(&mut publisher).is_ok());
    let sink = publisher.into_inner();
    assert_eq!(sink.records.len(), 1);
    assert_eq!(sink.records[0].1, b"{\"value\":3}".to_vec());
}
