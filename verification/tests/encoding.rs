use rapt::board::{Board, Instruments, ReadError};
use rapt::instrument::Instrument;
use rapt::listener::Discard;
use rapt::ser::{Encoder, JsonSerializer};

#[test]
fn snapshot_bytes_are_exact() {
    let mut board: Board<u32, Discard> = Board::new();
    board.register("a", Instrument::new(128));

    let bytes = board.serialize_reading("a", &JsonSerializer).unwrap();
    assert_eq!(bytes, b"{\"value\":128}".to_vec());
}

#[test]
fn reencoding_unchanged_value_is_identical() {
    let mut board: Board<u32, Discard> = Board::new();
    board.register("a", Instrument::new(77));

    let first = board.serialize_reading("a", &JsonSerializer).unwrap();
    let second = board.serialize_reading("a", &JsonSerializer).unwrap();
    assert_eq!(first, second);

    // An update that leaves the value in place still re-encodes identically.
    board.instruments[0].update(|v: &u32| *v).unwrap();
    let third = board.serialize_reading("a", &JsonSerializer).unwrap();
    assert_eq!(first, third);

    // A changed value encodes differently.
    board.instruments[0].update(|v: &u32| v + 1).unwrap();
    let fourth = board.serialize_reading("a", &JsonSerializer).unwrap();
    assert_ne!(first, fourth);
}

#[test]
fn json_encoder_emits_decimal_digits() {
    let zero = JsonSerializer.encode(&0u32).unwrap();
    assert_eq!(zero, b"0".to_vec());
    let large = JsonSerializer.encode(&4294967295u32).unwrap();
    assert_eq!(large, b"4294967295".to_vec());
}

struct FailingEncoder;

impl Encoder<u32> for FailingEncoder {
    type Error = u32;

    fn model(&self, _value: u32) -> vstd::seq::Seq<u8> {
        panic!()
    }

    fn encodes(&self, _value: u32) -> bool {
        panic!()
    }

    fn encode(&self, value: &u32) -> Result<Vec<u8>, u32> {
        Err(*value)
    }
}

#[test]
fn encoder_failure_is_distinguished() {
    let mut board: Board<u32, Discard> = Board::new();
    board.register("a", Instrument::new(5));

    let res = board.serialize_reading("a", &FailingEncoder);
    assert!(matches!(res, Err(ReadError::SerializationError(5))));
    let missing = board.serialize_reading("b", &FailingEncoder);
    assert!(matches!(missing, Err(ReadError::NotFound)));
}
