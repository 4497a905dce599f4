use socket_proxy::stream::{
    pipe, Action, BiPipe, Event, Failure, Io, Polled, Progress, Side, StreamWithBuffer, Verdict,
    HALF_CLOSE_TIMEOUT_MS, PRIVATE_BUF_SIZE, SHARED_BUF_SIZE,
};

fn put(scratch: &mut [u8], data: &[u8]) -> Event {
    scratch[..data.len()].copy_from_slice(data);
    Event::Read(Polled::Ready(data.len()))
}

#[test]
fn sizes_and_times() {
    assert_eq!(SHARED_BUF_SIZE, 64 * 1024);
    assert_eq!(PRIVATE_BUF_SIZE, 8 * 1024);
    assert_eq!(HALF_CLOSE_TIMEOUT_MS, 60_000);
}

#[test]
fn a_new_direction_wants_to_read() {
    let stream = StreamWithBuffer::new();
    assert!(stream.is_empty());
    assert!(!stream.read_eof());
    assert!(!stream.done());
    assert_eq!(stream.wants(), Io::Read);
    assert_eq!(stream.unwritten(&[1, 2, 3]), &[] as &[u8]);
}

#[test]
fn what_was_read_is_written_in_pieces() {
    let mut scratch = vec![0u8; 16];
    let mut stream = StreamWithBuffer::new();
    scratch[..5].copy_from_slice(b"hello");
    assert_eq!(stream.poll_read_to_buffer(&scratch, Polled::Ready(5)), Polled::Ready(5));
    assert!(!stream.is_empty());
    assert_eq!(stream.wants(), Io::Write);
    assert_eq!(stream.unwritten(&scratch), b"hello");
    assert_eq!(stream.poll_write_buffer_to(&scratch, Polled::Ready(2)), Polled::Ready(2));
    assert_eq!(stream.unwritten(&scratch), b"llo");
    assert_eq!(stream.wants(), Io::Write);
    assert_eq!(stream.poll_write_buffer_to(&scratch, Polled::Ready(3)), Polled::Ready(3));
    assert!(stream.is_empty());
    assert_eq!(stream.wants(), Io::Read);
    assert_eq!(stream.unwritten(&scratch), b"");
}

#[test]
fn a_read_of_no_bytes_is_the_end_of_the_source() {
    let scratch = vec![0u8; 16];
    let mut stream = StreamWithBuffer::new();
    assert_eq!(stream.poll_read_to_buffer(&scratch, Polled::Ready(0)), Polled::Ready(0));
    assert!(stream.read_eof());
    assert!(stream.is_empty());
    assert!(!stream.done());
    assert_eq!(stream.wants(), Io::Shutdown);
    assert_eq!(stream.advance(&scratch, Event::Shutdown(Polled::Pending)), Progress::Blocked);
    assert!(!stream.done());
    assert_eq!(stream.wants(), Io::Shutdown);
    assert_eq!(stream.advance(&scratch, Event::Shutdown(Polled::Ready(0))), Progress::Finished);
    assert!(stream.done());
    assert_eq!(stream.wants(), Io::Nothing);
}

#[test]
fn a_shutdown_that_fails_finishes_the_direction_all_the_same() {
    let scratch = vec![0u8; 16];
    let mut stream = StreamWithBuffer::new();
    stream.poll_read_to_buffer(&scratch, Polled::Ready(0));
    assert_eq!(
        stream.advance(&scratch, Event::Shutdown(Polled::Failed(Failure::Io))),
        Progress::Finished
    );
    assert!(stream.done());
}

#[test]
fn a_read_that_blocks_or_fails_changes_nothing() {
    let scratch = vec![7u8; 16];
    let mut stream = StreamWithBuffer::new();
    assert_eq!(stream.poll_read_to_buffer(&scratch, Polled::Pending), Polled::Pending);
    assert!(stream.is_empty());
    assert!(!stream.read_eof());
    assert_eq!(stream.wants(), Io::Read);
    assert_eq!(
        stream.poll_read_to_buffer(&scratch, Polled::Failed(Failure::Io)),
        Polled::Failed(Failure::Io)
    );
    assert!(stream.is_empty());
    assert!(!stream.read_eof());
    assert_eq!(stream.advance(&scratch, Event::Read(Polled::Pending)), Progress::Blocked);
    assert_eq!(
        stream.advance(&scratch, Event::Read(Polled::Failed(Failure::Io))),
        Progress::Failed(Failure::Io)
    );
}

#[test]
fn a_write_that_takes_nothing_is_a_failure() {
    let mut scratch = vec![0u8; 16];
    let mut stream = StreamWithBuffer::new();
    scratch[..3].copy_from_slice(b"abc");
    stream.poll_read_to_buffer(&scratch, Polled::Ready(3));
    assert_eq!(
        stream.poll_write_buffer_to(&scratch, Polled::Ready(0)),
        Polled::Failed(Failure::WriteZero)
    );
    assert_eq!(stream.unwritten(&scratch), b"abc");
    assert_eq!(
        stream.advance(&scratch, Event::Write(Polled::Ready(0))),
        Progress::Failed(Failure::WriteZero)
    );
    assert_eq!(
        stream.advance(&scratch, Event::Write(Polled::Failed(Failure::Io))),
        Progress::Failed(Failure::Io)
    );
    assert_eq!(stream.unwritten(&scratch), b"abc");
}

#[test]
fn a_write_that_blocks_frees_the_scratch_buffer() {
    let mut scratch = vec![0u8; 32];
    let mut stream = StreamWithBuffer::new();
    scratch[..10].copy_from_slice(b"0123456789");
    stream.poll_read_to_buffer(&scratch, Polled::Ready(10));
    stream.poll_write_buffer_to(&scratch, Polled::Ready(4));
    assert_eq!(stream.private_len(), None);
    assert_eq!(stream.poll_write_buffer_to(&scratch, Polled::Pending), Polled::Pending);
    assert_eq!(stream.private_len(), Some(PRIVATE_BUF_SIZE));
    for byte in scratch.iter_mut() {
        *byte = b'x';
    }
    assert_eq!(stream.unwritten(&scratch), b"456789");
    assert_eq!(stream.wants(), Io::Write);
    assert_eq!(stream.poll_write_buffer_to(&scratch, Polled::Pending), Polled::Pending);
    assert_eq!(stream.unwritten(&scratch), b"456789");
    stream.poll_write_buffer_to(&scratch, Polled::Ready(5));
    assert_eq!(stream.unwritten(&scratch), b"9");
    stream.poll_write_buffer_to(&scratch, Polled::Ready(1));
    assert!(stream.is_empty());
    assert_eq!(stream.wants(), Io::Read);
}

#[test]
fn a_direction_with_its_own_buffer_keeps_what_it_reads_there() {
    let mut scratch = vec![0u8; 32];
    let mut stream = StreamWithBuffer::new();
    scratch[..4].copy_from_slice(b"abcd");
    stream.poll_read_to_buffer(&scratch, Polled::Ready(4));
    stream.poll_write_buffer_to(&scratch, Polled::Pending);
    stream.poll_write_buffer_to(&scratch, Polled::Ready(4));
    assert!(stream.is_empty());
    scratch[..6].copy_from_slice(b"uvwxyz");
    stream.poll_read_to_buffer(&scratch, Polled::Ready(6));
    for byte in scratch.iter_mut() {
        *byte = 0;
    }
    assert_eq!(stream.unwritten(&scratch), b"uvwxyz");
    stream.poll_write_buffer_to(&scratch, Polled::Ready(3));
    assert_eq!(stream.unwritten(&scratch), b"xyz");
}

#[test]
fn a_blocked_write_of_more_than_the_least_size_keeps_all_of_it() {
    let mut scratch = vec![0u8; SHARED_BUF_SIZE];
    for (i, byte) in scratch.iter_mut().enumerate() {
        *byte = (i % 251) as u8;
    }
    let expected = scratch.clone();
    let mut stream = StreamWithBuffer::new();
    stream.poll_read_to_buffer(&scratch, Polled::Ready(SHARED_BUF_SIZE));
    stream.poll_write_buffer_to(&scratch, Polled::Ready(100));
    stream.poll_write_buffer_to(&scratch, Polled::Pending);
    assert_eq!(stream.private_len(), Some(SHARED_BUF_SIZE - 100));
    for byte in scratch.iter_mut() {
        *byte = 0;
    }
    assert_eq!(stream.unwritten(&scratch), &expected[100..]);
}

#[test]
fn a_read_larger_than_the_own_buffer_is_kept_whole() {
    let mut scratch = vec![0u8; SHARED_BUF_SIZE];
    let mut stream = StreamWithBuffer::new();
    scratch[0] = 1;
    stream.poll_read_to_buffer(&scratch, Polled::Ready(1));
    stream.poll_write_buffer_to(&scratch, Polled::Pending);
    stream.poll_write_buffer_to(&scratch, Polled::Ready(1));
    for (i, byte) in scratch.iter_mut().enumerate() {
        *byte = (i % 241) as u8;
    }
    let expected = scratch.clone();
    let n = PRIVATE_BUF_SIZE + 1000;
    assert_eq!(stream.private_len(), Some(PRIVATE_BUF_SIZE));
    stream.poll_read_to_buffer(&scratch, Polled::Ready(n));
    assert_eq!(stream.private_len(), Some(n));
    for byte in scratch.iter_mut() {
        *byte = 0;
    }
    assert_eq!(stream.unwritten(&scratch), &expected[..n]);
}

#[test]
fn a_new_relay_starts_with_its_left_direction() {
    let relay = pipe();
    assert_eq!(relay.action(), Action::Io(Side::Left, Io::Read));
    assert_eq!(relay.deadline(), None);
}

#[test]
fn a_round_runs_left_then_right_then_decides() {
    let mut scratch = vec![0u8; 64];
    let mut relay = pipe();
    let read = put(&mut scratch, b"ping");
    assert_eq!(relay.poll_one_side(Side::Left, &scratch, read), Progress::Continue);
    assert_eq!(relay.action(), Action::Io(Side::Left, Io::Write));
    assert_eq!(relay.unwritten(Side::Left, &scratch), b"ping");
    assert_eq!(
        relay.poll_one_side(Side::Left, &scratch, Event::Write(Polled::Ready(4))),
        Progress::Continue
    );
    assert_eq!(relay.action(), Action::Io(Side::Left, Io::Read));
    assert_eq!(
        relay.poll_one_side(Side::Left, &scratch, Event::Read(Polled::Pending)),
        Progress::Blocked
    );
    assert_eq!(relay.action(), Action::Io(Side::Right, Io::Read));
    let read = put(&mut scratch, b"pong!");
    assert_eq!(relay.poll_one_side(Side::Right, &scratch, read), Progress::Continue);
    assert_eq!(relay.unwritten(Side::Right, &scratch), b"pong!");
    assert_eq!(relay.unwritten(Side::Left, &scratch), b"");
    assert_eq!(
        relay.poll_one_side(Side::Right, &scratch, Event::Write(Polled::Pending)),
        Progress::Blocked
    );
    assert_eq!(relay.action(), Action::Decide);
    assert_eq!(relay.poll(5), Verdict::Pending);
    assert_eq!(relay.deadline(), None);
    assert_eq!(relay.action(), Action::Io(Side::Left, Io::Read));
    let read = put(&mut scratch, b"again");
    relay.poll_one_side(Side::Left, &scratch, read);
    assert_eq!(relay.unwritten(Side::Left, &scratch), b"again");
    assert_eq!(relay.unwritten(Side::Right, &scratch), b"pong!");
}

#[test]
fn a_failure_closes_the_relay() {
    let mut scratch = vec![0u8; 64];
    let mut relay = pipe();
    let read = put(&mut scratch, b"ping");
    relay.poll_one_side(Side::Left, &scratch, read);
    assert_eq!(
        relay.poll_one_side(Side::Left, &scratch, Event::Write(Polled::Ready(0))),
        Progress::Failed(Failure::WriteZero)
    );
    assert_eq!(relay.action(), Action::Nothing);

    let mut relay = pipe();
    assert_eq!(
        relay.poll_one_side(Side::Left, &scratch, Event::Read(Polled::Failed(Failure::Io))),
        Progress::Failed(Failure::Io)
    );
    assert_eq!(relay.action(), Action::Nothing);
}

fn finish(relay: &mut BiPipe, side: Side, scratch: &[u8]) {
    assert_eq!(relay.poll_one_side(side, scratch, Event::Read(Polled::Ready(0))), Progress::Continue);
    assert_eq!(relay.action(), Action::Io(side, Io::Shutdown));
    assert_eq!(
        relay.poll_one_side(side, scratch, Event::Shutdown(Polled::Ready(0))),
        Progress::Finished
    );
}

fn block(relay: &mut BiPipe, side: Side, scratch: &[u8]) {
    assert_eq!(relay.poll_one_side(side, scratch, Event::Read(Polled::Pending)), Progress::Blocked);
}

#[test]
fn a_relay_with_both_directions_finished_completes() {
    let scratch = vec![0u8; 64];
    let mut relay = pipe();
    finish(&mut relay, Side::Left, &scratch);
    assert_eq!(relay.action(), Action::Io(Side::Right, Io::Read));
    finish(&mut relay, Side::Right, &scratch);
    assert_eq!(relay.action(), Action::Decide);
    assert_eq!(relay.poll(0), Verdict::Complete);
    assert_eq!(relay.action(), Action::Nothing);
    assert_eq!(relay.deadline(), None);
}

#[test]
fn a_half_closed_relay_waits_for_its_other_direction() {
    let scratch = vec![0u8; 64];
    let mut relay = pipe();
    finish(&mut relay, Side::Left, &scratch);
    block(&mut relay, Side::Right, &scratch);
    assert_eq!(relay.poll(1_000), Verdict::Pending);
    assert_eq!(relay.deadline(), Some(61_000));
    assert_eq!(relay.action(), Action::Io(Side::Right, Io::Read));
    block(&mut relay, Side::Right, &scratch);
    assert_eq!(relay.poll(60_999), Verdict::Pending);
    assert_eq!(relay.deadline(), Some(120_999));
    finish(&mut relay, Side::Right, &scratch);
    assert_eq!(relay.poll(61_000), Verdict::Complete);
    assert_eq!(relay.action(), Action::Nothing);
}

#[test]
fn a_half_closed_relay_gives_up_at_its_deadline() {
    let scratch = vec![0u8; 64];
    let mut relay = pipe();
    block(&mut relay, Side::Left, &scratch);
    finish(&mut relay, Side::Right, &scratch);
    assert_eq!(relay.poll(1_000), Verdict::Pending);
    assert_eq!(relay.deadline(), Some(61_000));
    assert_eq!(relay.action(), Action::Io(Side::Left, Io::Read));
    block(&mut relay, Side::Left, &scratch);
    assert_eq!(relay.action(), Action::Decide);
    assert_eq!(relay.poll(61_000), Verdict::Complete);
    assert_eq!(relay.action(), Action::Nothing);
}

#[test]
fn a_deadline_behind_the_last_moment_is_the_last_moment() {
    let scratch = vec![0u8; 64];
    let mut relay = pipe();
    finish(&mut relay, Side::Left, &scratch);
    block(&mut relay, Side::Right, &scratch);
    assert_eq!(relay.poll(u64::MAX - 5), Verdict::Pending);
    assert_eq!(relay.deadline(), Some(u64::MAX));
    block(&mut relay, Side::Right, &scratch);
    assert_eq!(relay.poll(u64::MAX - 1), Verdict::Pending);
    block(&mut relay, Side::Right, &scratch);
    assert_eq!(relay.poll(u64::MAX), Verdict::Complete);
}

#[test]
fn a_finished_direction_is_passed_over_in_later_rounds() {
    let mut scratch = vec![0u8; 64];
    let mut relay = pipe();
    finish(&mut relay, Side::Left, &scratch);
    block(&mut relay, Side::Right, &scratch);
    assert_eq!(relay.poll(0), Verdict::Pending);
    assert_eq!(relay.action(), Action::Io(Side::Right, Io::Read));
    let read = put(&mut scratch, b"late");
    relay.poll_one_side(Side::Right, &scratch, read);
    assert_eq!(relay.unwritten(Side::Right, &scratch), b"late");
    relay.poll_one_side(Side::Right, &scratch, Event::Write(Polled::Ready(4)));
    block(&mut relay, Side::Right, &scratch);
    assert_eq!(relay.action(), Action::Decide);
}

struct Rng(u64);

impl Rng {
    fn next(&mut self, below: usize) -> usize {
        self.0 = self.0.wrapping_mul(6364136223846793005).wrapping_add(1442695040888963407);
        ((self.0 >> 33) as usize) % below
    }
}

struct Wire {
    source: Vec<u8>,
    read: usize,
    sink: Vec<u8>,
}

fn answer(io: Io, side: Side, relay: &BiPipe, wire: &mut Wire, scratch: &mut [u8], rng: &mut Rng) -> Event {
    match io {
        Io::Read => {
            if rng.next(4) == 0 {
                return Event::Read(Polled::Pending);
            }
            let left = wire.source.len() - wire.read;
            let most = 1 + rng.next(scratch.len());
            let n = if left < most { left } else { most };
            scratch[..n].copy_from_slice(&wire.source[wire.read..wire.read + n]);
            wire.read += n;
            Event::Read(Polled::Ready(n))
        }
        Io::Write => {
            if rng.next(3) == 0 {
                return Event::Write(Polled::Pending);
            }
            let bytes = relay.unwritten(side, scratch);
            let n = 1 + rng.next(bytes.len());
            wire.sink.extend_from_slice(&bytes[..n]);
            Event::Write(Polled::Ready(n))
        }
        Io::Shutdown => {
            if rng.next(2) == 0 {
                Event::Shutdown(Polled::Pending)
            } else {
                Event::Shutdown(Polled::Ready(0))
            }
        }
        Io::Nothing => panic!("a finished direction was asked"),
    }
}

fn relay_all(seed: u64, left_len: usize, right_len: usize, scratch_len: usize) {
    let mut rng = Rng(seed);
    let mut left = Wire {
        source: (0..left_len).map(|i| (i * 7 + 1) as u8).collect(),
        read: 0,
        sink: Vec::new(),
    };
    let mut right = Wire {
        source: (0..right_len).map(|i| (i * 13 + 5) as u8).collect(),
        read: 0,
        sink: Vec::new(),
    };
    let mut scratch = vec![0u8; scratch_len];
    let mut relay = pipe();
    let mut now = 0u64;
    let mut rounds = 0;
    loop {
        match relay.action() {
            Action::Io(side, io) => {
                let wire = match side {
                    Side::Left => &mut left,
                    Side::Right => &mut right,
                };
                let event = answer(io, side, &relay, wire, &mut scratch, &mut rng);
                let progress = relay.poll_one_side(side, &scratch, event);
                assert!(!matches!(progress, Progress::Failed(_)));
                if matches!(progress, Progress::Blocked | Progress::Finished) {
                    for byte in scratch.iter_mut() {
                        *byte = 0xee;
                    }
                }
            }
            Action::Decide => {
                now += 1;
                rounds += 1;
                assert!(rounds < 1_000_000);
                if relay.poll(now) == Verdict::Complete {
                    break;
                }
            }
            Action::Nothing => panic!("closed before it completed"),
        }
    }
    assert_eq!(left.sink, left.source);
    assert_eq!(right.sink, right.source);
}

#[test]
fn every_byte_arrives_once_and_in_order() {
    for seed in 0..40u64 {
        relay_all(seed, 5_000, 3_000, 64);
        relay_all(seed + 100, 0, 700, 7);
        relay_all(seed + 200, 1, 1, 1);
    }
    relay_all(7, 200_000, 150_000, SHARED_BUF_SIZE);
    relay_all(8, 100_000, 0, PRIVATE_BUF_SIZE + 1);
}
