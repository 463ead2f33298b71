//! One TCP data stream: the signals from its controller, and the counters
//! that its measurement loop keeps.
use vstd::prelude::*;

use crate::messages_handler::StreamData;

verus! {

/// A signal from the controller to a data stream.
#[derive(Debug, Clone, Copy, PartialEq, Eq, Structural)]
pub enum StreamMessage {
    StartTest,
    Terminate,
}

} // verus!

verus! {

/// Whether the first signal a stream waits for lets it start measuring: only
/// `StartTest` does; any other signal, or a closed channel, is an error.
pub fn is_start_signal(signal: &Option<StreamMessage>) -> (start: bool)
    ensures
        start <==> (*signal == Some(StreamMessage::StartTest)),
{
    match signal {
        Some(StreamMessage::StartTest) => true,
        _ => false,
    }
}

/// What a stream does with a signal that arrives while it measures.
#[derive(Debug, Clone, Copy, PartialEq, Eq, Structural)]
pub enum ControlStep {
    /// Stop measuring.
    Stop,
    /// A second `StartTest`: report it and go on.
    DuplicateStart,
    /// Nothing arrived: go on.
    Proceed,
}

/// The step for the signal that a stream found waiting, if any.
pub fn control_step(signal: &Option<StreamMessage>) -> (step: ControlStep)
    ensures
        step == (match *signal {
            Some(StreamMessage::Terminate) => ControlStep::Stop,
            Some(StreamMessage::StartTest) => ControlStep::DuplicateStart,
            None => ControlStep::Proceed,
        }),
{
    match signal {
        Some(StreamMessage::Terminate) => ControlStep::Stop,
        Some(StreamMessage::StartTest) => ControlStep::DuplicateStart,
        None => ControlStep::Proceed,
    }
}

/// How one read or write of a data stream ended.
#[derive(Debug, Clone, Copy, PartialEq, Eq, Structural)]
pub enum IoOutcome {
    /// The call moved this many bytes; zero means the peer closed.
    Transferred(usize),
    /// The call took longer than its time limit.
    TimedOut,
    /// The call failed.
    Failed,
}

/// The counters of one data stream: totals, and the part of them that falls
/// into the current reporting interval.
#[derive(Debug, Clone, Copy, PartialEq, Eq, Structural)]
pub struct Meter {
    pub bytes_transferred: usize,
    pub syscalls: usize,
    pub interval_bytes: usize,
    pub interval_syscalls: usize,
}

impl Meter {
    /// The interval's counts are part of the totals.
    pub open spec fn wf(&self) -> bool {
        &&& self.interval_bytes <= self.bytes_transferred
        &&& self.interval_syscalls <= self.syscalls
    }

    /// Whether one more transfer of `n` bytes fits the counters.
    pub open spec fn can_record(&self, n: usize) -> bool {
        &&& self.bytes_transferred + n <= usize::MAX
        &&& self.syscalls + 1 <= usize::MAX
    }

    /// All counters at zero.
    pub fn new() -> (m: Meter)
        ensures
            m.wf(),
            m == (Meter { bytes_transferred: 0, syscalls: 0, interval_bytes: 0, interval_syscalls: 0 }),
    {
        Meter { bytes_transferred: 0, syscalls: 0, interval_bytes: 0, interval_syscalls: 0 }
    }

    /// Counts the outcome of one read or write, and says whether measuring
    /// goes on: it stops only when the peer closed the stream. A transfer of
    /// `n > 0` bytes adds `n` bytes and one call to both the totals and the
    /// interval; a time-out or a failure counts nothing.
    pub fn record(&mut self, outcome: IoOutcome) -> (go_on: bool)
        requires
            old(self).wf(),
            outcome matches IoOutcome::Transferred(n) ==> old(self).can_record(n),
        ensures
            final(self).wf(),
            go_on <==> !(outcome == IoOutcome::Transferred(0)),
            *final(self) == (match outcome {
                IoOutcome::Transferred(n) => if n == 0 {
                    *old(self)
                } else {
                    Meter {
                        bytes_transferred: (old(self).bytes_transferred + n) as usize,
                        syscalls: (old(self).syscalls + 1) as usize,
                        interval_bytes: (old(self).interval_bytes + n) as usize,
                        interval_syscalls: (old(self).interval_syscalls + 1) as usize,
                    }
                },
                _ => *old(self),
            }),
    {
        match outcome {
            IoOutcome::Transferred(n) => {
                if n == 0 {
                    return false;
                }
                self.bytes_transferred = self.bytes_transferred + n;
                self.interval_bytes = self.interval_bytes + n;
                self.syscalls = self.syscalls + 1;
                self.interval_syscalls = self.interval_syscalls + 1;
                true
            },
            IoOutcome::TimedOut => true,
            IoOutcome::Failed => true,
        }
    }

    /// Closes the current interval: returns its bytes and calls and starts
    /// the next one at zero; the totals stay.
    pub fn take_interval(&mut self) -> (counts: (usize, usize))
        requires
            old(self).wf(),
        ensures
            final(self).wf(),
            counts == (old(self).interval_bytes, old(self).interval_syscalls),
            final(self).bytes_transferred == old(self).bytes_transferred,
            final(self).syscalls == old(self).syscalls,
            final(self).interval_bytes == 0,
            final(self).interval_syscalls == 0,
    {
        let counts = (self.interval_bytes, self.interval_syscalls);
        self.interval_bytes = 0;
        self.interval_syscalls = 0;
        counts
    }

    /// The statistics that a stream reports when it ends.
    pub fn stream_data(&self, sender: bool, duration_millis: u64) -> (data: StreamData)
        ensures
            data == (StreamData {
                sender,
                duration_millis,
                bytes_transferred: self.bytes_transferred,
                syscalls: self.syscalls,
            }),
    {
        StreamData {
            sender,
            duration_millis,
            bytes_transferred: self.bytes_transferred,
            syscalls: self.syscalls,
        }
    }
}

/// The socket buffer size to set for a requested size: the request where it
/// fits a `u32`, else `u32::MAX`.
pub fn socket_buffer_size(requested: usize) -> (size: u32)
    ensures
        size == (if requested <= u32::MAX { requested as u32 } else { u32::MAX }),
{
    if requested <= 4294967295usize {
        requested as u32
    } else {
        4294967295u32
    }
}

} // verus!
