use rapt::board::{Board, Instruments, ReadError};
use rapt::instrument::Instrument;
use rapt::listener::Discard;
use rapt::ser::JsonSerializer;

fn test_board() -> Board<u32, Discard> {
    let mut board: Board<u32, Discard> = Board::new();
    board.register("dp", Instrument::new(0));
    board.register("info", Instrument::new(0));
    board
}

#[test]
fn reading_field_name() {
    let i = test_board();

    let res = i.serialize_reading("dp", &JsonSerializer);
    assert!(res.is_ok());
    let v = res.unwrap();
    assert!(!v.is_empty());
}

#[test]
fn missing_name() {
    let i = test_board();

    let res = i.serialize_reading("missing_name", &JsonSerializer);
    assert!(res.is_err());
    assert!(matches!(res.unwrap_err(), ReadError::NotFound));
}

#[test]
fn name_attribute() {
    let i = test_board();

    let res = i.serialize_reading("info", &JsonSerializer);
    assert!(res.is_ok());
    let v = res.unwrap();
    assert!(!v.is_empty());
}

#[test]
fn names() {
    let i = test_board();

    let listed = i.instrument_names();
    let listed: Vec<&str> = listed.iter().map(|n| n.as_str()).collect();
    assert_eq!(vec!["dp", "info"], listed);
}

#[test]
fn unknown_key_writes_nothing() {
    let mut board: Board<u32, Discard> = Board::new();
    board.register("a", Instrument::new(7));

    let res = board.serialize_reading("nonexistent", &JsonSerializer);
    assert!(matches!(res, Err(ReadError::NotFound)));
}
