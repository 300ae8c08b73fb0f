use radafi::{Action, Event, Outcome, Phase, Recording, RecordingError};

/// Drives a recording against a simulated source that yields one chunk every
/// `chunk_ms` milliseconds and ends after `chunks` chunks (never, if `None`).
/// Returns the recording and the simulated milliseconds at which it stopped.
fn simulate(deadline: u64, chunk_ms: u64, chunks: Option<u64>) -> (Recording, u64) {
    let mut r = Recording::new(deadline);
    let mut now_ms: u64 = 0;
    let mut start_ms: u64 = 0;
    let mut sent: u64 = 0;
    let mut action = r.next_action();
    let mut steps = 0;
    while action != Action::Stop {
        steps += 1;
        assert!(steps < 100_000);
        let event = match action {
            Action::Request => Event::Responded,
            Action::CreateFile => {
                start_ms = now_ms;
                Event::FileCreated
            }
            Action::CheckClock => Event::Clock((now_ms - start_ms) / 1000),
            Action::ReadChunk => {
                if chunks == Some(sent) {
                    Event::EndOfData
                } else {
                    now_ms += chunk_ms;
                    sent += 1;
                    Event::Chunk
                }
            }
            Action::WriteChunk => Event::Written,
            Action::Stop => unreachable!(),
        };
        action = r.step(event);
    }
    (r, now_ms - start_ms)
}

#[test]
fn deadline_bounds_an_endless_stream() {
    let (r, elapsed) = simulate(2, 100, None);
    assert_eq!(r.outcome(), Some(Outcome::DeadlineReached));
    assert!(r.chunks_written() >= 18 && r.chunks_written() <= 22);
    assert_eq!(r.chunks_written(), 20);
    assert!(elapsed >= 2000 && elapsed <= 2100);
}

#[test]
fn deadline_overshoot_is_at_most_one_chunk() {
    for chunk_ms in [1u64, 70, 300, 999, 1500, 4000] {
        let (r, elapsed) = simulate(3, chunk_ms, None);
        assert_eq!(r.outcome(), Some(Outcome::DeadlineReached));
        assert!(elapsed >= 3000);
        assert!(elapsed < 3000 + chunk_ms);
    }
}

#[test]
fn end_of_data_stops_before_deadline() {
    let (r, elapsed) = simulate(60, 100, Some(3));
    assert_eq!(r.outcome(), Some(Outcome::EndOfStream));
    assert_eq!(r.chunks_written(), 3);
    assert_eq!(elapsed, 300);
    assert_eq!(Outcome::EndOfStream.error(), None);
}

#[test]
fn empty_stream_gives_empty_recording() {
    let (r, _) = simulate(5, 100, Some(0));
    assert_eq!(r.outcome(), Some(Outcome::EndOfStream));
    assert_eq!(r.chunks_written(), 0);
}

#[test]
fn zero_deadline_reads_nothing() {
    let (r, elapsed) = simulate(0, 100, None);
    assert_eq!(r.outcome(), Some(Outcome::DeadlineReached));
    assert_eq!(r.chunks_written(), 0);
    assert_eq!(elapsed, 0);
}

#[test]
fn failed_request_creates_no_file() {
    let mut r = Recording::new(10);
    assert_eq!(r.next_action(), Action::Request);
    assert_eq!(r.step(Event::RequestFailed), Action::Stop);
    assert_eq!(r.outcome(), Some(Outcome::RequestFailed));
    assert_eq!(Outcome::RequestFailed.error(), Some(RecordingError::Network));
    for e in [Event::Responded, Event::FileCreated, Event::Chunk, Event::Written] {
        assert_eq!(r.step(e), Action::Stop);
    }
    assert_eq!(r.phase(), Phase::Done(Outcome::RequestFailed));
    assert_eq!(r.chunks_written(), 0);
}

#[test]
fn failed_file_creation_is_an_io_error() {
    let mut r = Recording::new(10);
    assert_eq!(r.step(Event::Responded), Action::CreateFile);
    assert_eq!(r.step(Event::CreateFailed), Action::Stop);
    assert_eq!(r.outcome(), Some(Outcome::CreateFailed));
    assert_eq!(Outcome::CreateFailed.error(), Some(RecordingError::Io));
}

#[test]
fn failed_read_and_write_stop_the_loop() {
    let mut r = Recording::new(10);
    r.step(Event::Responded);
    assert_eq!(r.step(Event::FileCreated), Action::CheckClock);
    assert_eq!(r.step(Event::Clock(0)), Action::ReadChunk);
    assert_eq!(r.step(Event::ReadFailed), Action::Stop);
    assert_eq!(r.outcome(), Some(Outcome::ReadFailed));
    assert_eq!(Outcome::ReadFailed.error(), Some(RecordingError::Network));

    let mut w = Recording::new(10);
    w.step(Event::Responded);
    w.step(Event::FileCreated);
    w.step(Event::Clock(1));
    assert_eq!(w.step(Event::Chunk), Action::WriteChunk);
    assert_eq!(w.step(Event::Written), Action::CheckClock);
    assert_eq!(w.chunks_written(), 1);
    w.step(Event::Clock(2));
    w.step(Event::Chunk);
    assert_eq!(w.step(Event::WriteFailed), Action::Stop);
    assert_eq!(w.outcome(), Some(Outcome::WriteFailed));
    assert_eq!(w.chunks_written(), 1);
    assert_eq!(Outcome::WriteFailed.error(), Some(RecordingError::Io));
    assert_eq!(Outcome::DeadlineReached.error(), None);
}

#[test]
fn unexpected_event_repeats_the_action() {
    let mut r = Recording::new(10);
    assert_eq!(r.step(Event::Chunk), Action::Request);
    assert_eq!(r.phase(), Phase::Requesting);
    assert_eq!(r.deadline_secs(), 10);
    assert_eq!(r.outcome(), None);
}
