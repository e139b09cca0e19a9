use rapt::board::{Board, Instruments};
use rapt::instrument::Instrument;
use rapt::listener::{listener_channel, ChannelListener, Discard};

#[test]
fn listener() {
    let (tx, rx) = listener_channel();

    let mut i: Board<u32, ChannelListener> = Board::new();
    i.register("datapoint", Instrument::new(0));
    i.wire_listener(tx);

    // We should have the first notification already (from the wiring)
    let res = rx.try_next();
    assert!(res.is_ok());
    assert_eq!(res.unwrap(), "datapoint");

    // No more notifications at this time
    assert!(rx.try_next().is_err());

    let _ = i.instruments[0].update(|v: &u32| {
        let _ = v;
        100
    }).unwrap();

    // We should have a new notification
    let res = rx.try_next();
    assert!(res.is_ok());
    assert_eq!(res.unwrap(), "datapoint");
}

#[test]
fn shared_updates_accumulate() {
    let i: Instrument<u32, ChannelListener> = Instrument::new(0);
    let i_ = i.clone();
    let i__ = i.clone();

    for _ in 0..10000 {
        i_.update(|v: &u32| v + 1).unwrap();
    }
    for _ in 0..10000 {
        i__.update(|v: &u32| v + 1).unwrap();
    }

    assert_eq!(i.read().unwrap(), 20000);
}

#[test]
fn wiring_order() {
    let (tx, rx) = listener_channel();

    let mut board: Board<u32, ChannelListener> = Board::new();
    board.register("a", Instrument::new(0));
    board.register("b", Instrument::new(0));
    board.wire_listener(tx);

    assert_eq!(rx.try_next().unwrap(), "a");
    assert_eq!(rx.try_next().unwrap(), "b");
    assert!(rx.try_next().is_err());
}

#[test]
fn update_notifies_once() {
    let (tx, rx) = listener_channel();

    let mut board: Board<u32, ChannelListener> = Board::new();
    board.register("a", Instrument::new(0));
    board.register("b", Instrument::new(0));
    board.wire_listener(tx);
    assert_eq!(rx.try_next().unwrap(), "a");
    assert_eq!(rx.try_next().unwrap(), "b");

    board.instruments[0].update(|v: &u32| v + 1).unwrap();

    let res = rx.try_next();
    assert_eq!(res.unwrap(), "a");
    assert!(rx.try_next().is_err());
}

#[test]
fn set_name_notifies_immediately() {
    let (tx, rx) = listener_channel();

    let mut i: Instrument<u32, ChannelListener> = Instrument::new(5);
    i.set_name_and_listener("cell", tx);

    // The initial notification is already queued, so a blocking receive
    // returns at once.
    assert_eq!(rx.next_blocking().unwrap(), "cell");
    assert!(rx.try_next().is_err());
}

#[test]
fn discard_listener_ignores_updates() {
    let mut board: Board<u32, Discard> = Board::new();
    board.register("a", Instrument::new(0));
    board.wire_listener(Discard);
    board.instruments[0].update(|v: &u32| v + 1).unwrap();
    assert_eq!(board.instruments[0].read().unwrap(), 1);
}

#[test]
fn set_name_wires_no_listener() {
    let mut i: Instrument<u32, Discard> = Instrument::new(3);
    i.set_name("solo");
    assert_eq!(i.name.as_deref(), Some("solo"));
    assert!(i.listener.is_none());
    assert_eq!(i.read().unwrap(), 3);
}
