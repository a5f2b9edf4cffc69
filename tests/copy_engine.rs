use trav_proxy::copy::{CopyBuffer, CopyFault, Direction, Phase, Progress};
use trav_proxy::transfer::{join_directions, transfer_one_direction, TransferPoll, TransferState};

/// Feeds `chunks` to the pump (each read gets as much of the current chunk as
/// fits), lets the sink take at most `max_write` bytes per write, and returns
/// what the sink received.
fn drive(cb: &mut CopyBuffer, chunks: &[&[u8]], max_write: usize) -> Vec<u8> {
    let mut queue: Vec<Vec<u8>> = chunks.iter().map(|c| c.to_vec()).collect();
    let mut sink: Vec<u8> = Vec::new();
    for _ in 0..100_000 {
        match cb.phase() {
            Phase::Read | Phase::TopUp => {
                if queue.is_empty() {
                    cb.on_read(Progress::Ready(Vec::new()));
                } else {
                    let room = cb.free_space();
                    let head = &mut queue[0];
                    let n = room.min(head.len());
                    let part: Vec<u8> = head.drain(..n).collect();
                    if head.is_empty() {
                        queue.remove(0);
                    }
                    cb.on_read(Progress::Ready(part));
                }
            }
            Phase::Write => {
                let pending = cb.pending().to_vec();
                let n = pending.len().min(max_write);
                sink.extend_from_slice(&pending[..n]);
                cb.on_write(Progress::Ready(n));
            }
            Phase::IdleFlush | Phase::FinalFlush => cb.on_flush(Progress::Ready(())),
            Phase::Idle | Phase::Waiting => cb.resume(),
            Phase::Complete => return sink,
            Phase::Failed(f) => panic!("pump failed: {:?}", f),
        }
    }
    panic!("pump did not finish");
}

#[test]
fn new_buffer_starts_by_reading() {
    let cb = CopyBuffer::new(16, Direction::Request);
    assert_eq!(cb.phase(), Phase::Read);
    assert_eq!(cb.direction(), Direction::Request);
    assert_eq!(cb.amt(), 0);
    assert_eq!(cb.free_space(), 16);
    assert!(cb.captured().is_empty());
}

#[test]
fn copy_conserves_every_byte() {
    let input: Vec<u8> = (0..1000u32).map(|i| (i * 7 % 251) as u8).collect();
    let chunks: Vec<&[u8]> = input.chunks(37).collect();
    let mut cb = CopyBuffer::new(64, Direction::Response);
    let sink = drive(&mut cb, &chunks, 5);
    assert_eq!(sink, input);
    assert_eq!(cb.amt(), 1000);
    assert_eq!(cb.captured(), &input);
}

#[test]
fn copy_of_empty_source_finishes_with_zero() {
    let mut cb = CopyBuffer::new(8, Direction::Request);
    let sink = drive(&mut cb, &[], 8);
    assert!(sink.is_empty());
    assert_eq!(cb.amt(), 0);
    assert_eq!(cb.phase(), Phase::Complete);
}

#[test]
fn read_fills_then_writes() {
    let mut cb = CopyBuffer::new(8, Direction::Request);
    cb.on_read(Progress::Ready(b"abc".to_vec()));
    assert_eq!(cb.phase(), Phase::Write);
    assert_eq!(cb.pending(), b"abc");
    cb.on_write(Progress::Ready(2));
    assert_eq!(cb.phase(), Phase::Write);
    assert_eq!(cb.pending(), b"c");
    assert_eq!(cb.amt(), 2);
    cb.on_write(Progress::Ready(1));
    assert_eq!(cb.amt(), 3);
    assert_eq!(cb.phase(), Phase::Read);
    assert_eq!(cb.free_space(), 8);
}

#[test]
fn write_zero_is_a_fault() {
    let mut cb = CopyBuffer::new(8, Direction::Request);
    cb.on_read(Progress::Ready(b"abc".to_vec()));
    cb.on_write(Progress::Ready(0));
    assert_eq!(cb.phase(), Phase::Failed(CopyFault::WriteZero));
}

#[test]
fn write_longer_than_offered_is_a_fault() {
    let mut cb = CopyBuffer::new(8, Direction::Request);
    cb.on_read(Progress::Ready(b"abc".to_vec()));
    cb.on_write(Progress::Ready(4));
    assert_eq!(cb.phase(), Phase::Failed(CopyFault::WriteOverrun));
}

#[test]
fn read_longer_than_free_space_is_a_fault() {
    let mut cb = CopyBuffer::new(2, Direction::Request);
    cb.on_read(Progress::Ready(b"abc".to_vec()));
    assert_eq!(cb.phase(), Phase::Failed(CopyFault::ReadOverrun));
}

#[test]
fn source_and_sink_errors_stop_the_pump() {
    let mut cb = CopyBuffer::new(8, Direction::Request);
    cb.on_read(Progress::Failed);
    assert_eq!(cb.phase(), Phase::Failed(CopyFault::Source));

    let mut cb = CopyBuffer::new(8, Direction::Request);
    cb.on_read(Progress::Ready(b"x".to_vec()));
    cb.on_write(Progress::Failed);
    assert_eq!(cb.phase(), Phase::Failed(CopyFault::Sink));

    let mut cb = CopyBuffer::new(8, Direction::Request);
    cb.on_read(Progress::Ready(Vec::new()));
    assert_eq!(cb.phase(), Phase::FinalFlush);
    cb.on_flush(Progress::Failed);
    assert_eq!(cb.phase(), Phase::Failed(CopyFault::Sink));
}

#[test]
fn blocked_sink_tops_up_the_buffer() {
    let mut cb = CopyBuffer::new(8, Direction::Request);
    cb.on_read(Progress::Ready(b"ab".to_vec()));
    cb.on_write(Progress::Pending);
    assert_eq!(cb.phase(), Phase::TopUp);
    cb.on_read(Progress::Ready(b"cd".to_vec()));
    assert_eq!(cb.phase(), Phase::Waiting);
    cb.resume();
    assert_eq!(cb.phase(), Phase::Read);
    cb.on_read(Progress::Pending);
    assert_eq!(cb.phase(), Phase::Write);
    assert_eq!(cb.pending(), b"abcd");
}

#[test]
fn blocked_sink_with_full_buffer_waits() {
    let mut cb = CopyBuffer::new(2, Direction::Request);
    cb.on_read(Progress::Ready(b"ab".to_vec()));
    cb.on_write(Progress::Pending);
    assert_eq!(cb.phase(), Phase::Waiting);
}

#[test]
fn pending_source_with_unflushed_writes_flushes_first() {
    let mut cb = CopyBuffer::new(8, Direction::Request);
    cb.on_read(Progress::Ready(b"ab".to_vec()));
    cb.on_write(Progress::Ready(2));
    assert_eq!(cb.phase(), Phase::Read);
    cb.on_read(Progress::Pending);
    assert_eq!(cb.phase(), Phase::IdleFlush);
    cb.on_flush(Progress::Ready(()));
    assert_eq!(cb.phase(), Phase::Idle);
    cb.resume();
    cb.on_read(Progress::Pending);
    assert_eq!(cb.phase(), Phase::Idle);
}

/// The source answers only after the sink's reader has seen the earlier
/// bytes, and the sink shows written bytes to its reader only once flushed.
#[test]
fn coupled_pipe_completes_without_deadlock() {
    let mut cb = CopyBuffer::new(16, Direction::Request);
    let mut unflushed: Vec<u8> = Vec::new();
    let mut delivered: Vec<u8> = Vec::new();
    let mut stage = 0;
    for _ in 0..1000 {
        match cb.phase() {
            Phase::Read | Phase::TopUp => {
                let ready = match stage {
                    0 => Some(b"ping".to_vec()),
                    1 if delivered == b"ping" => Some(b"pong".to_vec()),
                    2 => Some(Vec::new()),
                    _ => None,
                };
                match ready {
                    Some(d) => {
                        stage += 1;
                        cb.on_read(Progress::Ready(d));
                    }
                    None => cb.on_read(Progress::Pending),
                }
            }
            Phase::Write => {
                let p = cb.pending().to_vec();
                unflushed.extend_from_slice(&p);
                cb.on_write(Progress::Ready(p.len()));
            }
            Phase::IdleFlush | Phase::FinalFlush => {
                delivered.append(&mut unflushed);
                cb.on_flush(Progress::Ready(()));
            }
            Phase::Idle => {
                assert!(unflushed.is_empty(), "parked on the source with unflushed bytes");
                cb.resume();
            }
            Phase::Waiting => cb.resume(),
            Phase::Complete => break,
            Phase::Failed(f) => panic!("pump failed: {:?}", f),
        }
    }
    assert_eq!(cb.phase(), Phase::Complete);
    assert_eq!(delivered, b"pingpong");
    assert_eq!(cb.amt(), 8);
}

fn finished_direction(input: &[u8]) -> TransferState {
    let mut state = TransferState::new(8, Direction::Request);
    if let TransferState::Running(cb) = &mut state {
        drive(cb, &[input], 3);
    }
    state
}

#[test]
fn transfer_moves_forward_and_done_is_stable() {
    let mut state = finished_direction(b"hello world");
    assert!(matches!(transfer_one_direction(&mut state), TransferPoll::Shutdown));
    match &state {
        TransferState::ShuttingDown(n, text) => {
            assert_eq!(*n, 11);
            assert_eq!(text, "hello world");
        }
        _ => panic!("expected ShuttingDown"),
    }
    assert!(matches!(transfer_one_direction(&mut state), TransferPoll::Shutdown));
    state.shutdown_complete();
    for _ in 0..3 {
        match transfer_one_direction(&mut state) {
            TransferPoll::Ready(n, text) => {
                assert_eq!(n, 11);
                assert_eq!(text, "hello world");
            }
            _ => panic!("expected Ready"),
        }
        state.shutdown_complete();
        assert!(matches!(state, TransferState::Done(11, _)));
    }
}

#[test]
fn running_transfer_asks_to_drive_the_copy() {
    let mut state = TransferState::new(8, Direction::Response);
    assert!(matches!(transfer_one_direction(&mut state), TransferPoll::DriveCopy));
    if let TransferState::Running(cb) = &mut state {
        cb.on_read(Progress::Failed);
    }
    assert!(matches!(
        transfer_one_direction(&mut state),
        TransferPoll::Failed(CopyFault::Source)
    ));
}

#[test]
fn captured_text_replaces_invalid_bytes() {
    let mut state = finished_direction(&[b'o', b'k', 0xff, b'!']);
    transfer_one_direction(&mut state);
    match &state {
        TransferState::ShuttingDown(n, text) => {
            assert_eq!(*n, 4);
            assert_eq!(text, "ok\u{fffd}!");
        }
        _ => panic!("expected ShuttingDown"),
    }
}

#[test]
fn join_waits_for_both_and_fails_on_either() {
    let a = || Progress::Ready((1u64, "a".to_string()));
    let b = || Progress::Ready((2u64, "b".to_string()));
    match join_directions(a(), b()) {
        Progress::Ready(((1, x), (2, y))) => {
            assert_eq!(x, "a");
            assert_eq!(y, "b");
        }
        _ => panic!("expected Ready"),
    }
    assert!(matches!(join_directions(a(), Progress::Pending), Progress::Pending));
    assert!(matches!(join_directions(Progress::Pending, b()), Progress::Pending));
    assert!(matches!(join_directions(Progress::Failed, b()), Progress::Failed));
    assert!(matches!(join_directions(Progress::Pending, Progress::Failed), Progress::Failed));
}
