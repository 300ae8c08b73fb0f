//! The decisions of one recording task: a time-bounded copy of a network
//! stream into a file, read chunk by chunk.
//!
//! The task is a state machine. Its driver performs the action it is given
//! (send the request, create the file, read the clock, read or write a chunk)
//! and reports what happened as an event; the machine answers with the next
//! action, until it answers `Stop`. The deadline is checked before each read,
//! so a recording overshoots it by at most one chunk.
use vstd::prelude::*;

verus! {

/// The kinds of failure that a recording can meet.
#[derive(PartialEq, Eq, Structural, Debug, Clone, Copy)]
pub enum RecordingError {
    /// The request or a read from the stream failed.
    Network,
    /// The output file could not be created or written.
    Io,
    /// The payload could not be decoded.
    Decode,
}

/// Why a recording stopped.
#[derive(PartialEq, Eq, Structural, Debug, Clone, Copy)]
pub enum Outcome {
    /// The deadline passed while the stream was still sending.
    DeadlineReached,
    /// The stream ended its data before the deadline.
    EndOfStream,
    /// The request for the stream failed; no file was created.
    RequestFailed,
    /// The output file could not be created.
    CreateFailed,
    /// Reading a chunk failed; what was written stays.
    ReadFailed,
    /// Writing a chunk failed; what was written stays.
    WriteFailed,
}

/// What the driver reports after performing an action.
#[derive(PartialEq, Eq, Structural, Debug, Clone, Copy)]
pub enum Event {
    /// The request for the stream was answered.
    Responded,
    /// The request for the stream failed.
    RequestFailed,
    /// The output file was created; the clock starts now.
    FileCreated,
    /// The output file could not be created.
    CreateFailed,
    /// Whole seconds elapsed since the file was created.
    Clock(u64),
    /// A chunk of the body was read.
    Chunk,
    /// The body has no more data.
    EndOfData,
    /// Reading the body failed.
    ReadFailed,
    /// The chunk just read was appended to the file.
    Written,
    /// Appending the chunk failed.
    WriteFailed,
}

/// What the driver is to do next.
#[derive(PartialEq, Eq, Structural, Debug, Clone, Copy)]
pub enum Action {
    /// Send the request for the stream.
    Request,
    /// Create (or truncate) the output file and start the clock.
    CreateFile,
    /// Report the seconds elapsed since the file was created.
    CheckClock,
    /// Read the next chunk of the body.
    ReadChunk,
    /// Append the chunk just read to the file.
    WriteChunk,
    /// The recording is over.
    Stop,
}

/// Where a recording stands.
#[derive(PartialEq, Eq, Structural, Debug, Clone, Copy)]
pub enum Phase {
    Requesting,
    Creating,
    Timing,
    Reading,
    Writing,
    Done(Outcome),
}

/// The action that each phase asks for.
pub open spec fn action_of(p: Phase) -> Action {
    match p {
        Phase::Requesting => Action::Request,
        Phase::Creating => Action::CreateFile,
        Phase::Timing => Action::CheckClock,
        Phase::Reading => Action::ReadChunk,
        Phase::Writing => Action::WriteChunk,
        Phase::Done(_) => Action::Stop,
    }
}

/// The phase after event `e` in phase `p`, with a deadline of `deadline`
/// seconds. An event that does not answer the phase's action leaves the phase
/// as it is, so the action is asked for again; a finished recording stays
/// finished.
pub open spec fn next_phase(p: Phase, deadline: u64, e: Event) -> Phase {
    match (p, e) {
        (Phase::Requesting, Event::Responded) => Phase::Creating,
        (Phase::Requesting, Event::RequestFailed) => Phase::Done(Outcome::RequestFailed),
        (Phase::Creating, Event::FileCreated) => Phase::Timing,
        (Phase::Creating, Event::CreateFailed) => Phase::Done(Outcome::CreateFailed),
        (Phase::Timing, Event::Clock(secs)) => if secs >= deadline {
            Phase::Done(Outcome::DeadlineReached)
        } else {
            Phase::Reading
        },
        (Phase::Reading, Event::Chunk) => Phase::Writing,
        (Phase::Reading, Event::EndOfData) => Phase::Done(Outcome::EndOfStream),
        (Phase::Reading, Event::ReadFailed) => Phase::Done(Outcome::ReadFailed),
        (Phase::Writing, Event::Written) => Phase::Timing,
        (Phase::Writing, Event::WriteFailed) => Phase::Done(Outcome::WriteFailed),
        _ => p,
    }
}

/// The phase after a sequence of events.
pub open spec fn run(p: Phase, deadline: u64, es: Seq<Event>) -> Phase
    decreases es.len(),
{
    if es.len() == 0 {
        p
    } else {
        run(next_phase(p, deadline, es[0]), deadline, es.drop_first())
    }
}

/// The error kind that an outcome reports, if it is a failure.
pub open spec fn spec_error_of(o: Outcome) -> Option<RecordingError> {
    match o {
        Outcome::DeadlineReached => None,
        Outcome::EndOfStream => None,
        Outcome::RequestFailed => Some(RecordingError::Network),
        Outcome::ReadFailed => Some(RecordingError::Network),
        Outcome::CreateFailed => Some(RecordingError::Io),
        Outcome::WriteFailed => Some(RecordingError::Io),
    }
}

impl Outcome {
    /// The error that this outcome reports; `None` for a recording that ran
    /// to its deadline or to the end of the stream.
    pub fn error(&self) -> (r: Option<RecordingError>)
        ensures
            r == spec_error_of(*self),
    {
        match self {
            Outcome::DeadlineReached => None,
            Outcome::EndOfStream => None,
            Outcome::RequestFailed => Some(RecordingError::Network),
            Outcome::ReadFailed => Some(RecordingError::Network),
            Outcome::CreateFailed => Some(RecordingError::Io),
            Outcome::WriteFailed => Some(RecordingError::Io),
        }
    }
}

/// The state of one recording task.
pub struct Recording {
    deadline_secs: u64,
    phase: Phase,
    chunks: u64,
}

impl Recording {
    pub closed spec fn deadline(&self) -> u64 {
        self.deadline_secs
    }

    pub closed spec fn spec_phase(&self) -> Phase {
        self.phase
    }

    /// The number of chunks appended to the file.
    pub closed spec fn spec_chunks(&self) -> nat {
        self.chunks as nat
    }

    /// A recording of `deadline_secs` seconds that has not started.
    pub fn new(deadline_secs: u64) -> (r: Self)
        ensures
            r.deadline() == deadline_secs,
            r.spec_phase() == Phase::Requesting,
            r.spec_chunks() == 0,
    {
        Recording { deadline_secs, phase: Phase::Requesting, chunks: 0 }
    }

    /// The length of the recording in seconds.
    pub fn deadline_secs(&self) -> (r: u64)
        ensures
            r == self.deadline(),
    {
        self.deadline_secs
    }

    /// Where the recording stands.
    pub fn phase(&self) -> (r: Phase)
        ensures
            r == self.spec_phase(),
    {
        self.phase
    }

    /// The number of chunks appended to the file so far (saturating).
    pub fn chunks_written(&self) -> (r: u64)
        ensures
            r == self.spec_chunks(),
    {
        self.chunks
    }

    /// The action the driver is to perform now.
    pub fn next_action(&self) -> (r: Action)
        ensures
            r == action_of(self.spec_phase()),
    {
        match self.phase {
            Phase::Requesting => Action::Request,
            Phase::Creating => Action::CreateFile,
            Phase::Timing => Action::CheckClock,
            Phase::Reading => Action::ReadChunk,
            Phase::Writing => Action::WriteChunk,
            Phase::Done(_) => Action::Stop,
        }
    }

    /// Why the recording stopped, once it has.
    pub fn outcome(&self) -> (r: Option<Outcome>)
        ensures
            r == (match self.spec_phase() {
                Phase::Done(o) => Some(o),
                _ => None,
            }),
    {
        match self.phase {
            Phase::Done(o) => Some(o),
            _ => None,
        }
    }

    /// Takes in what happened and answers with the next action.
    pub fn step(&mut self, event: Event) -> (r: Action)
        ensures
            final(self).deadline() == old(self).deadline(),
            final(self).spec_phase() == next_phase(old(self).spec_phase(), old(self).deadline(), event),
            r == action_of(final(self).spec_phase()),
            final(self).spec_chunks() == if old(self).spec_phase() == Phase::Writing && event
                == Event::Written && old(self).spec_chunks() < u64::MAX {
                old(self).spec_chunks() + 1
            } else {
                old(self).spec_chunks()
            },
    {
        let next = match (self.phase, event) {
            (Phase::Requesting, Event::Responded) => Phase::Creating,
            (Phase::Requesting, Event::RequestFailed) => Phase::Done(Outcome::RequestFailed),
            (Phase::Creating, Event::FileCreated) => Phase::Timing,
            (Phase::Creating, Event::CreateFailed) => Phase::Done(Outcome::CreateFailed),
            (Phase::Timing, Event::Clock(secs)) => if secs >= self.deadline_secs {
                Phase::Done(Outcome::DeadlineReached)
            } else {
                Phase::Reading
            },
            (Phase::Reading, Event::Chunk) => Phase::Writing,
            (Phase::Reading, Event::EndOfData) => Phase::Done(Outcome::EndOfStream),
            (Phase::Reading, Event::ReadFailed) => Phase::Done(Outcome::ReadFailed),
            (Phase::Writing, Event::Written) => {
                if self.chunks < u64::MAX {
                    self.chunks = self.chunks + 1;
                }
                Phase::Timing
            },
            (Phase::Writing, Event::WriteFailed) => Phase::Done(Outcome::WriteFailed),
            (p, _) => p,
        };
        self.phase = next;
        self.next_action()
    }
}

proof fn lemma_run_first(p: Phase, deadline: u64, e: Event, es: Seq<Event>)
    ensures
        run(p, deadline, seq![e] + es) == run(next_phase(p, deadline, e), deadline, es),
{
    assert((seq![e] + es).drop_first() =~= es);
}

/// A finished recording stays finished, whatever is reported after.
pub proof fn lemma_done_is_final(o: Outcome, deadline: u64, es: Seq<Event>)
    ensures
        run(Phase::Done(o), deadline, es) == Phase::Done(o),
    decreases es.len(),
{
    if es.len() > 0 {
        lemma_done_is_final(o, deadline, es.drop_first());
    }
}

/// A clock reading at or past the deadline, taken before a read, ends the
/// recording: after it no chunk is read or written, whatever the stream does.
pub proof fn lemma_deadline_stops(deadline: u64, secs: u64, es: Seq<Event>)
    requires
        secs >= deadline,
    ensures
        next_phase(Phase::Timing, deadline, Event::Clock(secs)) == Phase::Done(
            Outcome::DeadlineReached,
        ),
        forall|k: int|
            0 <= k <= es.len() ==> #[trigger] run(
                Phase::Timing,
                deadline,
                seq![Event::Clock(secs)] + es.take(k),
            ) == Phase::Done(Outcome::DeadlineReached),
{
    assert forall|k: int| 0 <= k <= es.len() implies #[trigger] run(
        Phase::Timing,
        deadline,
        seq![Event::Clock(secs)] + es.take(k),
    ) == Phase::Done(Outcome::DeadlineReached) by {
        lemma_run_first(Phase::Timing, deadline, Event::Clock(secs), es.take(k));
        lemma_done_is_final(Outcome::DeadlineReached, deadline, es.take(k));
    }
}

/// A chunk is read only right after a clock reading below the deadline (or
/// when a read is asked for again).
pub proof fn lemma_read_only_before_deadline(p: Phase, deadline: u64, e: Event)
    requires
        next_phase(p, deadline, e) == Phase::Reading,
    ensures
        p == Phase::Reading || (p == Phase::Timing && (e matches Event::Clock(secs)
            && secs < deadline)),
{
}

/// The end of the stream's data ends the recording at once, as a success,
/// whatever the clock says and whatever is reported after.
pub proof fn lemma_end_of_data_stops(deadline: u64, es: Seq<Event>)
    ensures
        forall|k: int|
            0 <= k <= es.len() ==> #[trigger] run(
                Phase::Reading,
                deadline,
                seq![Event::EndOfData] + es.take(k),
            ) == Phase::Done(Outcome::EndOfStream),
        spec_error_of(Outcome::EndOfStream) is None,
{
    assert forall|k: int| 0 <= k <= es.len() implies #[trigger] run(
        Phase::Reading,
        deadline,
        seq![Event::EndOfData] + es.take(k),
    ) == Phase::Done(Outcome::EndOfStream) by {
        lemma_run_first(Phase::Reading, deadline, Event::EndOfData, es.take(k));
        lemma_done_is_final(Outcome::EndOfStream, deadline, es.take(k));
    }
}

/// A failed request ends the recording with a network error, and the file
/// is never asked to be created.
pub proof fn lemma_request_failure_creates_no_file(deadline: u64, es: Seq<Event>)
    ensures
        forall|k: int|
            0 <= k <= es.len() ==> #[trigger] run(
                Phase::Requesting,
                deadline,
                seq![Event::RequestFailed] + es.take(k),
            ) == Phase::Done(Outcome::RequestFailed),
        forall|k: int|
            0 <= k <= es.len() ==> action_of(
                #[trigger] run(Phase::Requesting, deadline, seq![Event::RequestFailed] + es.take(k)),
            ) != Action::CreateFile,
        spec_error_of(Outcome::RequestFailed) == Some(RecordingError::Network),
{
    assert forall|k: int| 0 <= k <= es.len() implies #[trigger] run(
        Phase::Requesting,
        deadline,
        seq![Event::RequestFailed] + es.take(k),
    ) == Phase::Done(Outcome::RequestFailed) by {
        lemma_run_first(Phase::Requesting, deadline, Event::RequestFailed, es.take(k));
        lemma_done_is_final(Outcome::RequestFailed, deadline, es.take(k));
    }
}

} // verus!
