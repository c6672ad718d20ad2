use audio_router::client::{
    bytes_equal, check_read_back, round_trip, run_round_trip, ClientError,
};
use audio_router::stream::DeviceStream;

#[test]
fn scenario_hello_world_round_trips_in_two_phases() {
    let payload: Vec<u8> = b"Hello, world!".to_vec();
    assert_eq!(payload.len(), 13);
    let mut stream = DeviceStream::open();
    stream.write_all(&payload);
    let first = stream.read_exact(5).expect("five bytes were written");
    assert_eq!(first, b"Hello".to_vec());
    let rest = stream.read_to_end();
    assert_eq!(rest, b", world!".to_vec());
    let combined = check_read_back(&payload, &first, &rest).expect("read-back matches");
    assert_eq!(combined, payload);
}

#[test]
fn round_trip_returns_the_payload_byte_for_byte() {
    let payload: Vec<u8> = b"Hello, world!".to_vec();
    let mut stream = DeviceStream::open();
    let r = round_trip(&mut stream, &payload);
    assert_eq!(r, Ok(payload));
}

#[test]
fn round_trip_of_exactly_five_bytes_succeeds() {
    let payload: Vec<u8> = b"Hello".to_vec();
    let mut stream = DeviceStream::open();
    let r = round_trip(&mut stream, &payload);
    assert_eq!(r, Ok(payload));
}

#[test]
fn short_payload_fails_the_fixed_read_back_step() {
    let payload: Vec<u8> = b"Hi!".to_vec();
    let mut stream = DeviceStream::open();
    let r = round_trip(&mut stream, &payload);
    assert_eq!(r, Err(ClientError::ReadTooShort));
}

#[test]
fn empty_payload_fails_the_fixed_read_back_step() {
    let payload: Vec<u8> = Vec::new();
    let mut stream = DeviceStream::open();
    let r = round_trip(&mut stream, &payload);
    assert_eq!(r, Err(ClientError::ReadTooShort));
}

#[test]
fn failed_open_reports_the_open_error_and_touches_nothing() {
    let payload: Vec<u8> = b"Hello, world!".to_vec();
    let r = run_round_trip(None, &payload);
    assert_eq!(r, Err(ClientError::OpenFailed));
}

#[test]
fn successful_open_runs_the_protocol() {
    let payload: Vec<u8> = b"Hello, world!".to_vec();
    let stream = DeviceStream::open();
    let r = run_round_trip(Some(stream), &payload);
    assert_eq!(r, Ok(payload));
}

#[test]
fn stale_pending_bytes_surface_as_a_mismatch() {
    let payload: Vec<u8> = b"Hello, world!".to_vec();
    let mut stream = DeviceStream::open();
    stream.write_all(&b"stale".to_vec());
    let r = round_trip(&mut stream, &payload);
    assert_eq!(r, Err(ClientError::Mismatch));
}

#[test]
fn read_back_mismatch_is_detected() {
    let payload: Vec<u8> = b"Hello, world!".to_vec();
    let first: Vec<u8> = b"Hexlo".to_vec();
    let rest: Vec<u8> = b", world!".to_vec();
    let r = check_read_back(&payload, &first, &rest);
    assert_eq!(r, Err(ClientError::Mismatch));
}

#[test]
fn byte_equality_is_exact() {
    assert!(bytes_equal(&b"abc".to_vec(), &b"abc".to_vec()));
    assert!(!bytes_equal(&b"abc".to_vec(), &b"abd".to_vec()));
    assert!(!bytes_equal(&b"abc".to_vec(), &b"ab".to_vec()));
    assert!(bytes_equal(&Vec::new(), &Vec::new()));
}

#[test]
fn reads_consume_writes_in_order() {
    let mut stream = DeviceStream::open();
    stream.write_all(&vec![1, 2, 3]);
    stream.write_all(&vec![4, 5, 6, 7]);
    let first = stream.read_exact(5).expect("seven bytes pending");
    assert_eq!(first, vec![1, 2, 3, 4, 5]);
    let rest = stream.read_to_end();
    assert_eq!(rest, vec![6, 7]);
}

#[test]
fn failed_exact_read_leaves_the_stream_unchanged() {
    let mut stream = DeviceStream::open();
    stream.write_all(&vec![1, 2, 3]);
    assert_eq!(stream.read_exact(5), None);
    assert_eq!(stream.read_to_end(), vec![1, 2, 3]);
}
