use git_odb::error::InflateError;
use git_odb::zlib::{Inflate, Move, Signal, Status, Step};
use miniz_oxide::deflate::compress_to_vec_zlib;

const TEXT: &[u8] = b"commit 5\0hello";

fn noise(count: usize) -> Vec<u8> {
    let mut state: u32 = 0x2545_f491;
    let mut bytes = Vec::with_capacity(count);
    for _ in 0..count {
        state = state.wrapping_mul(1_664_525).wrapping_add(1_013_904_223);
        bytes.push((state >> 24) as u8);
    }
    bytes
}

#[test]
fn once_inflates_a_short_stream_whole() {
    let compressed = compress_to_vec_zlib(TEXT, 6);
    let mut out = [0u8; 512];
    let mut engine = Inflate::new();
    assert!(!engine.is_done());
    let r = engine.once(&compressed, &mut out);
    assert_eq!(r, Ok((Status::StreamEnd, compressed.len(), TEXT.len())));
    assert_eq!(&out[..TEXT.len()], TEXT);
    assert!(out[TEXT.len()..].iter().all(|b| *b == 0));
    assert!(engine.is_done());
}

#[test]
fn once_stops_when_the_output_is_full() {
    let data = noise(2000);
    let compressed = compress_to_vec_zlib(&data, 6);
    let mut out = [0u8; 512];
    let mut engine = Inflate::new();
    let (status, consumed, written) = engine.once(&compressed, &mut out).unwrap();
    assert_eq!(status, Status::Running);
    assert!(consumed <= compressed.len());
    assert_eq!(written, 512);
    assert_eq!(&out[..], &data[..512]);
    assert!(!engine.is_done());
}

#[test]
fn once_takes_a_cut_stream_as_it_is() {
    let compressed = compress_to_vec_zlib(&noise(2000), 6);
    let mut out = [0u8; 512];
    let mut engine = Inflate::new();
    let (status, consumed, written) = engine.once(&compressed[..256], &mut out).unwrap();
    assert_eq!(status, Status::Running);
    assert_eq!(consumed, 256);
    assert!(written <= 512);
    assert!(!engine.is_done());
}

#[test]
fn once_fails_on_what_is_no_stream() {
    let mut out = [0u8; 64];
    let mut engine = Inflate::new();
    assert_eq!(engine.once(&[0xffu8; 32], &mut out), Err(InflateError::Data));
    assert!(!engine.is_done());
}

#[test]
fn all_till_done_fills_an_output_of_the_exact_size() {
    let data = noise(100_000);
    let compressed = compress_to_vec_zlib(&data, 6);
    let mut out = vec![0u8; data.len()];
    let mut engine = Inflate::new();
    assert_eq!(engine.all_till_done(&compressed, &mut out), Ok(data.len()));
    assert_eq!(out, data);
    assert!(engine.is_done());
}

#[test]
fn all_till_done_fills_an_output_of_one_window() {
    let data = noise(32_768);
    let compressed = compress_to_vec_zlib(&data, 1);
    let mut out = vec![0u8; data.len()];
    let mut engine = Inflate::new();
    assert_eq!(engine.all_till_done(&compressed, &mut out), Ok(data.len()));
    assert_eq!(out, data);
    assert!(engine.is_done());
}

#[test]
fn all_till_done_is_not_done_when_only_the_output_is_full() {
    let compressed = compress_to_vec_zlib(TEXT, 6);
    let mut out = [7u8; 10];
    let mut engine = Inflate::new();
    assert_eq!(engine.all_till_done(&compressed, &mut out), Ok(10));
    assert_eq!(&out[..], &TEXT[..10]);
    assert!(!engine.is_done());
}

#[test]
fn all_till_done_ends_with_the_stream_in_a_larger_output() {
    let compressed = compress_to_vec_zlib(TEXT, 6);
    let mut out = [7u8; 20];
    let mut engine = Inflate::new();
    assert_eq!(engine.all_till_done(&compressed, &mut out), Ok(TEXT.len()));
    assert_eq!(&out[..TEXT.len()], TEXT);
    assert_eq!(&out[TEXT.len()..], &[7u8; 6]);
    assert!(engine.is_done());
}

#[test]
fn all_till_done_fails_when_the_input_runs_out() {
    let data = noise(4000);
    let compressed = compress_to_vec_zlib(&data, 6);
    let mut out = vec![0u8; data.len()];
    let mut engine = Inflate::new();
    let half = compressed.len() / 2;
    assert_eq!(engine.all_till_done(&compressed[..half], &mut out), Err(InflateError::Incomplete));
    assert!(!engine.is_done());
}

#[test]
fn all_till_done_fails_on_no_input() {
    let mut out = [0u8; 4];
    let mut engine = Inflate::new();
    assert_eq!(engine.all_till_done(&[], &mut out), Err(InflateError::Incomplete));
}

#[test]
fn all_till_done_fails_on_what_is_no_stream() {
    let mut out = [0u8; 64];
    let mut engine = Inflate::new();
    assert_eq!(engine.all_till_done(&[0xffu8; 32], &mut out), Err(InflateError::Data));
    assert!(!engine.is_done());
}

#[test]
fn report_sorts_want_of_room_from_failure() {
    assert_eq!(Inflate::report(Signal::Running), Ok(Status::Running));
    assert_eq!(Inflate::report(Signal::StreamEnd), Ok(Status::StreamEnd));
    assert_eq!(Inflate::report(Signal::Buf), Ok(Status::BufError));
    assert_eq!(Inflate::report(Signal::NeedDict), Err(InflateError::NeedDict));
    assert_eq!(Inflate::report(Signal::Data), Err(InflateError::Data));
    assert_eq!(Inflate::report(Signal::Stream), Err(InflateError::Stream));
    assert_eq!(Inflate::report(Signal::Param), Err(InflateError::Param));
    assert_eq!(Inflate::report(Signal::Unknown), Err(InflateError::Unknown));
}

#[test]
fn next_move_goes_on_while_bytes_move() {
    let step = |consumed, written, signal| Step { consumed, written, signal };
    assert_eq!(Inflate::next_move(step(1, 0, Signal::Running), 0), Move::Again);
    assert_eq!(Inflate::next_move(step(0, 1, Signal::Running), 5), Move::Again);
    assert_eq!(Inflate::next_move(step(0, 0, Signal::Running), 0), Move::Full);
    assert_eq!(Inflate::next_move(step(0, 0, Signal::Running), 1), Move::Fail(InflateError::Incomplete));
    assert_eq!(Inflate::next_move(step(3, 3, Signal::Buf), 0), Move::Full);
    assert_eq!(Inflate::next_move(step(3, 3, Signal::Buf), 2), Move::Fail(InflateError::Incomplete));
    assert_eq!(Inflate::next_move(step(0, 0, Signal::StreamEnd), 9), Move::Ended);
    assert_eq!(Inflate::next_move(step(4, 4, Signal::Data), 0), Move::Fail(InflateError::Data));
}
