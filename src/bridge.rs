use vstd::prelude::*;

verus! {

/// Size of the scratch buffer that each forwarding loop reads into.
pub const BUFFER_SIZE: usize = 512;

pub const EXIT_SUCCESS: i32 = 0;

pub const EXIT_FATAL: i32 = 1;

/// Which way a forwarding loop copies bytes. The serial side reads with a
/// timeout; the TCP side reads without one.
#[derive(Clone, Copy, Debug, PartialEq, Eq, Structural)]
pub enum Direction {
    SerialToTcp,
    TcpToSerial,
}

/// What one read on the source side of a loop came back with.
/// `Data(0)` is an end of stream.
#[derive(Clone, Copy, Debug, PartialEq, Eq, Structural)]
pub enum ReadOutcome {
    Data(usize),
    TimedOut,
    Failed,
}

/// How a forwarding loop ended.
#[derive(Clone, Copy, Debug, PartialEq, Eq, Structural)]
pub enum LoopEnd {
    Clean,
    Fatal,
}

/// What a forwarding loop does next.
#[derive(Clone, Debug)]
pub enum LoopAction {
    /// Write all of these bytes to the other side.
    Forward(Vec<u8>),
    /// Read from the source side again.
    ReadAgain,
    /// Leave the loop.
    Stop(LoopEnd),
}

/// A read as the model sees it: the bytes it delivered (none at an end of
/// stream), a timeout, or a failure.
pub enum ReadEvent {
    Got(Seq<u8>),
    TimedOut,
    Failed,
}

/// The model of a [`LoopAction`].
pub enum Step {
    Forward(Seq<u8>),
    ReadAgain,
    Stop(LoopEnd),
}

impl View for LoopAction {
    type V = Step;

    open spec fn view(&self) -> Step {
        match self {
            LoopAction::Forward(v) => Step::Forward(v@),
            LoopAction::ReadAgain => Step::ReadAgain,
            LoopAction::Stop(e) => Step::Stop(*e),
        }
    }
}

/// The read event that an outcome stands for, given the buffer read into.
pub open spec fn read_event(outcome: ReadOutcome, buf: Seq<u8>) -> ReadEvent {
    match outcome {
        ReadOutcome::Data(n) => ReadEvent::Got(buf.subrange(0, n as int)),
        ReadOutcome::TimedOut => ReadEvent::TimedOut,
        ReadOutcome::Failed => ReadEvent::Failed,
    }
}

/// What a loop does after a read: bytes are forwarded as they came, an empty
/// read ends the loop cleanly, a serial timeout is no data yet, and any other
/// failure ends the loop as fatal.
pub open spec fn step_spec(dir: Direction, ev: ReadEvent) -> Step {
    match ev {
        ReadEvent::Got(b) => if b.len() == 0 {
            Step::Stop(LoopEnd::Clean)
        } else {
            Step::Forward(b)
        },
        ReadEvent::TimedOut => match dir {
            Direction::SerialToTcp => Step::ReadAgain,
            Direction::TcpToSerial => Step::Stop(LoopEnd::Fatal),
        },
        ReadEvent::Failed => Step::Stop(LoopEnd::Fatal),
    }
}

/// Decides what a loop running in direction `dir` does after a read into
/// `buf` came back with `outcome`.
pub fn after_read(dir: Direction, outcome: ReadOutcome, buf: &[u8]) -> (r: LoopAction)
    requires
        outcome matches ReadOutcome::Data(n) ==> n <= buf@.len(),
    ensures
        r@ == step_spec(dir, read_event(outcome, buf@)),
{
    match outcome {
        ReadOutcome::Data(n) => {
            if n == 0 {
                LoopAction::Stop(LoopEnd::Clean)
            } else {
                let mut out: Vec<u8> = Vec::with_capacity(n);
                let mut i: usize = 0;
                while i < n
                    invariant
                        n <= buf@.len(),
                        i <= n,
                        out@ == buf@.subrange(0, i as int),
                    decreases n - i,
                {
                    out.push(buf[i]);
                    i = i + 1;
                    assert(out@ =~= buf@.subrange(0, i as int));
                }
                LoopAction::Forward(out)
            }
        },
        ReadOutcome::TimedOut => match dir {
            Direction::SerialToTcp => LoopAction::ReadAgain,
            Direction::TcpToSerial => LoopAction::Stop(LoopEnd::Fatal),
        },
        ReadOutcome::Failed => LoopAction::Stop(LoopEnd::Fatal),
    }
}

/// Decides what a loop does once a forwarding write has returned: read
/// again if the whole chunk went out, else stop as fatal.
pub fn after_write(written: bool) -> (r: LoopAction)
    ensures
        written ==> r@ == Step::ReadAgain,
        !written ==> r@ == Step::Stop(LoopEnd::Fatal),
{
    if written {
        LoopAction::ReadAgain
    } else {
        LoopAction::Stop(LoopEnd::Fatal)
    }
}

/// What becomes of the process when a forwarding loop ends.
#[derive(Clone, Copy, Debug, PartialEq, Eq, Structural)]
pub enum ProcessFate {
    /// The process goes on; the other loop keeps the bridge.
    KeepRunning,
    /// The process ends with this exit status.
    Exit(i32),
}

/// The first loop to stop ends the bridge, except for a clean close on the
/// TCP side, which ends only its own loop. A fatal end exits with status 1
/// whichever loop it happened in, without waiting for the other loop.
pub open spec fn fate_spec(dir: Direction, end: LoopEnd) -> ProcessFate {
    match (dir, end) {
        (Direction::TcpToSerial, LoopEnd::Clean) => ProcessFate::KeepRunning,
        (_, LoopEnd::Clean) => ProcessFate::Exit(EXIT_SUCCESS),
        (_, LoopEnd::Fatal) => ProcessFate::Exit(EXIT_FATAL),
    }
}

/// Decides what the process does when the loop in direction `dir` ends.
pub fn on_loop_end(dir: Direction, end: LoopEnd) -> (r: ProcessFate)
    ensures
        r == fate_spec(dir, end),
{
    match end {
        LoopEnd::Clean => match dir {
            Direction::TcpToSerial => ProcessFate::KeepRunning,
            Direction::SerialToTcp => ProcessFate::Exit(EXIT_SUCCESS),
        },
        LoopEnd::Fatal => ProcessFate::Exit(EXIT_FATAL),
    }
}

/// The bytes a loop writes to its target side over a run of reads, each
/// write succeeding, up to the read that stops it.
pub open spec fn forwarded(dir: Direction, evs: Seq<ReadEvent>) -> Seq<u8>
    decreases evs.len(),
{
    if evs.len() == 0 {
        Seq::empty()
    } else {
        match step_spec(dir, evs[0]) {
            Step::Forward(b) => b + forwarded(dir, evs.drop_first()),
            Step::ReadAgain => forwarded(dir, evs.drop_first()),
            Step::Stop(_) => Seq::empty(),
        }
    }
}

/// The bytes the source side delivered over a run of reads before an end of
/// stream, a failure, or (on the TCP side) a timeout.
pub open spec fn received(dir: Direction, evs: Seq<ReadEvent>) -> Seq<u8>
    decreases evs.len(),
{
    if evs.len() == 0 {
        Seq::empty()
    } else {
        match evs[0] {
            ReadEvent::Got(b) => if b.len() == 0 {
                Seq::empty()
            } else {
                b + received(dir, evs.drop_first())
            },
            ReadEvent::TimedOut => if dir == Direction::SerialToTcp {
                received(dir, evs.drop_first())
            } else {
                Seq::empty()
            },
            ReadEvent::Failed => Seq::empty(),
        }
    }
}

/// Every byte read from one side reaches the other side exactly once and in
/// the order it was read, in either direction, as long as the writes succeed.
pub proof fn lemma_bytes_forwarded_exactly(dir: Direction, evs: Seq<ReadEvent>)
    ensures
        forwarded(dir, evs) == received(dir, evs),
    decreases evs.len(),
{
    if evs.len() > 0 {
        lemma_bytes_forwarded_exactly(dir, evs.drop_first());
    }
}

/// A serial read that times out never ends the serial to TCP loop: it forwards
/// nothing and the loop goes on as if the timeout had not happened.
pub proof fn lemma_serial_timeout_continues(evs: Seq<ReadEvent>)
    ensures
        step_spec(Direction::SerialToTcp, ReadEvent::TimedOut) == Step::ReadAgain,
        forwarded(Direction::SerialToTcp, seq![ReadEvent::TimedOut] + evs) == forwarded(
            Direction::SerialToTcp,
            evs,
        ),
{
    assert((seq![ReadEvent::TimedOut] + evs).drop_first() =~= evs);
}

/// An empty TCP read ends the TCP to serial loop cleanly and leaves the
/// process, and so the serial to TCP loop, running.
pub proof fn lemma_tcp_close_is_local()
    ensures
        step_spec(Direction::TcpToSerial, ReadEvent::Got(Seq::empty())) == Step::Stop(
            LoopEnd::Clean,
        ),
        fate_spec(Direction::TcpToSerial, LoopEnd::Clean) == ProcessFate::KeepRunning,
{
}

/// A fatal end of the TCP to serial loop, from a failed read or a failed
/// write, exits the process with a non-zero status by itself, whatever state
/// the serial to TCP loop is in.
pub proof fn lemma_tcp_fault_exits()
    ensures
        fate_spec(Direction::TcpToSerial, LoopEnd::Fatal) matches ProcessFate::Exit(c) && c != 0,
{
}

} // verus!
