//! Acquisition side of the pipeline: the composite sample type, the
//! bounded single-producer/single-consumer sample queue with its
//! back-pressure discipline, and the two-state sampling mode machine that
//! decides which hardware action the surrounding device layer must
//! perform. Register access itself stays outside this library.

use vstd::prelude::*;

verus! {

/// Timer compare value used when periodic sampling starts.
pub const INTERRUPT_SAMPLER_TIMER_CC: u16 = 1000;

/// Communication queue capacity.
pub const PIEZO_SENSOR_QUEUE_CAPACITY: usize = 32;

/// One synchronized reading from all four channels: left edge, left
/// center, right center and right edge, as raw unsigned conversions.
#[derive(Clone, Copy, Debug, PartialEq, Eq, Structural)]
pub struct PiezoSample {
    pub le: u16,
    pub lc: u16,
    pub rc: u16,
    pub re: u16,
}

impl PiezoSample {
    /// The four raw readings in channel order.
    pub open spec fn channels(self) -> Seq<u16> {
        seq![self.le, self.lc, self.rc, self.re]
    }

    /// Reads one channel by index.
    pub fn channel(&self, i: usize) -> (r: u16)
        requires
            i < 4,
        ensures
            r == self.channels()[i as int],
    {
        if i == 0 {
            self.le
        } else if i == 1 {
            self.lc
        } else if i == 2 {
            self.rc
        } else {
            self.re
        }
    }
}

/// Defines the sampling mode of the acquisition state machine.
///
/// The two modes trade power for latency: no sampling happens until any
/// channel shows activity, and from then on a hardware timer paces one
/// synchronized conversion per firing.
#[derive(Clone, Copy, Debug, PartialEq, Eq, Structural)]
pub enum PiezoSensorSampleMode {
    /// Periodic sampling is suspended; the analog watchdog is armed to
    /// fire on the first activity seen on any channel.
    Halt,
    /// A hardware timer triggers one synchronized conversion of all four
    /// channels each time it reaches the given compare value.
    Timer(u16),
}

/// Hardware action that the device layer must perform to realize a mode
/// switch decided by the state machine.
#[derive(Clone, Copy, Debug, PartialEq, Eq, Structural)]
pub enum ModeCommand {
    /// Stop the pacing timer and arm the analog watchdog.
    ArmWatchdog,
    /// Disarm the watchdog and start the pacing timer with this compare
    /// value.
    StartTimer(u16),
}

/// Outcome of handing one completed sample to the queue.
#[derive(Clone, Copy, Debug, PartialEq, Eq, Structural)]
pub enum SendOutcome {
    /// The conversion had not completed; the tick is skipped and no
    /// sample is produced.
    NotReady,
    /// The sample was appended to the queue.
    Stored,
    /// The queue was full: the sample is dropped and the producer is
    /// paused (its triggering interrupt is to be masked) until the
    /// consumer makes room.
    DroppedFull,
    /// Nobody is draining the queue: the sample is dropped, and
    /// production continues since there is nothing to stop.
    DroppedNoReceiver,
}

/// Bounded single-producer/single-consumer queue of composite samples,
/// together with the back-pressure state it induces on the producer.
///
/// Delivery order is strictly production order: new samples are appended
/// at the tail and the consumer takes from the head.
pub struct SampleQueue {
    /// Queued samples, oldest first.
    pub items: Vec<PiezoSample>,
    /// Fixed capacity; `items` never grows beyond it.
    pub capacity: usize,
    /// Whether a consumer is attached to the queue.
    pub receiver_present: bool,
    /// Back-pressure flag: true after an overflow dropped a sample, false
    /// again once the consumer makes room. While true, the producer's
    /// triggering interrupt stays masked.
    pub producer_paused: bool,
}

impl SampleQueue {
    /// Queue invariant: never holds more than `capacity` samples.
    pub open spec fn wf(self) -> bool {
        self.items@.len() <= self.capacity
    }

    /// Creates an empty queue of the given capacity with a live consumer.
    pub fn new(capacity: usize) -> (q: SampleQueue)
        ensures
            q.wf(),
            q.items@ == Seq::<PiezoSample>::empty(),
            q.capacity == capacity,
            q.receiver_present,
            !q.producer_paused,
    {
        SampleQueue {
            items: Vec::new(),
            capacity,
            receiver_present: true,
            producer_paused: false,
        }
    }

    /// Appends one sample, or drops it when no consumer is listening or
    /// the queue is full; a full queue additionally pauses the producer.
    pub fn push(&mut self, sample: PiezoSample) -> (r: SendOutcome)
        requires
            old(self).wf(),
        ensures
            final(self).wf(),
            final(self).capacity == old(self).capacity,
            final(self).receiver_present == old(self).receiver_present,
            !old(self).receiver_present ==> r == SendOutcome::DroppedNoReceiver
                && *final(self) == *old(self),
            old(self).receiver_present && old(self).items@.len() == old(self).capacity ==> r
                == SendOutcome::DroppedFull && final(self).items@ == old(self).items@
                && final(self).producer_paused,
            old(self).receiver_present && old(self).items@.len() < old(self).capacity ==> r
                == SendOutcome::Stored && final(self).items@ == old(self).items@.push(sample)
                && final(self).producer_paused == old(self).producer_paused,
    {
        if !self.receiver_present {
            SendOutcome::DroppedNoReceiver
        } else if self.items.len() >= self.capacity {
            self.producer_paused = true;
            SendOutcome::DroppedFull
        } else {
            self.items.push(sample);
            SendOutcome::Stored
        }
    }

    /// Takes the oldest sample, if any; making room lifts the producer's
    /// back-pressure pause.
    pub fn pop(&mut self) -> (r: Option<PiezoSample>)
        requires
            old(self).wf(),
        ensures
            final(self).wf(),
            final(self).capacity == old(self).capacity,
            final(self).receiver_present == old(self).receiver_present,
            old(self).items@.len() == 0 ==> r is None && *final(self) == *old(self),
            old(self).items@.len() > 0 ==> r == Some(old(self).items@[0]) && final(self).items@
                == old(self).items@.drop_first() && !final(self).producer_paused,
    {
        if self.items.len() == 0 {
            None
        } else {
            let s = self.items.remove(0);
            self.producer_paused = false;
            proof {
                assert(self.items@ =~= old(self).items@.drop_first());
            }
            Some(s)
        }
    }

    /// Number of queued samples.
    pub fn len(&self) -> (r: usize)
        ensures
            r == self.items@.len(),
    {
        self.items.len()
    }
}

/// Acquisition state machine.
///
/// Drives the analog conversion hardware through its two sampling modes
/// and hands completed composite samples to the queue. The transition out
/// of `Halt` happens once, on the first watchdog-detected activity; the
/// machine never returns to `Halt` on its own — a known gap of the
/// current design, kept as such rather than papered over here.
pub struct PiezoSensorHandler {
    /// Currently used sample mode.
    pub mode: PiezoSensorSampleMode,
}

impl PiezoSensorHandler {
    /// Creates the handler in its initial halted state, watchdog armed.
    pub fn new() -> (h: (PiezoSensorHandler, ModeCommand))
        ensures
            h.0.mode == PiezoSensorSampleMode::Halt,
            h.1 == ModeCommand::ArmWatchdog,
    {
        (PiezoSensorHandler { mode: PiezoSensorSampleMode::Halt }, ModeCommand::ArmWatchdog)
    }

    /// Switches between sampling modes; switching to the mode already in
    /// force asks for no hardware action.
    pub fn set_interrupt_mode(&mut self, mode: PiezoSensorSampleMode) -> (r: Option<ModeCommand>)
        ensures
            final(self).mode == mode,
            old(self).mode == mode ==> r is None,
            old(self).mode != mode ==> r == Some(
                match mode {
                    PiezoSensorSampleMode::Halt => ModeCommand::ArmWatchdog,
                    PiezoSensorSampleMode::Timer(cc) => ModeCommand::StartTimer(cc),
                },
            ),
    {
        if self.mode == mode {
            return None;
        }
        self.mode = mode;
        match mode {
            PiezoSensorSampleMode::Halt => Some(ModeCommand::ArmWatchdog),
            PiezoSensorSampleMode::Timer(cc) => Some(ModeCommand::StartTimer(cc)),
        }
    }

    /// Reaction to the first watchdog-detected activity: a halted machine
    /// starts periodic sampling at the fixed cadence; a machine already
    /// pacing keeps its timer.
    pub fn on_activity(&mut self) -> (r: Option<ModeCommand>)
        ensures
            old(self).mode == PiezoSensorSampleMode::Halt ==> final(self).mode
                == PiezoSensorSampleMode::Timer(INTERRUPT_SAMPLER_TIMER_CC) && r == Some(
                ModeCommand::StartTimer(INTERRUPT_SAMPLER_TIMER_CC),
            ),
            old(self).mode is Timer ==> *final(self) == *old(self) && r is None,
    {
        match self.mode {
            PiezoSensorSampleMode::Halt => self.set_interrupt_mode(
                PiezoSensorSampleMode::Timer(INTERRUPT_SAMPLER_TIMER_CC),
            ),
            PiezoSensorSampleMode::Timer(_) => None,
        }
    }

    /// Sends the next completed sample over the communication queue.
    ///
    /// `ready` reports whether the conversion has completed; a tick that
    /// arrives early is skipped without producing a sample.
    pub fn send(&self, ready: bool, sample: PiezoSample, queue: &mut SampleQueue) -> (r:
        SendOutcome)
        requires
            old(queue).wf(),
        ensures
            final(queue).wf(),
            !ready ==> r == SendOutcome::NotReady && *final(queue) == *old(queue),
            ready && !old(queue).receiver_present ==> r == SendOutcome::DroppedNoReceiver
                && *final(queue) == *old(queue),
            ready && old(queue).receiver_present && old(queue).items@.len() == old(
                queue,
            ).capacity ==> r == SendOutcome::DroppedFull && final(queue).items@ == old(
                queue,
            ).items@ && final(queue).producer_paused,
            ready && old(queue).receiver_present && old(queue).items@.len() < old(
                queue,
            ).capacity ==> r == SendOutcome::Stored && final(queue).items@ == old(
                queue,
            ).items@.push(sample),
    {
        if !ready {
            return SendOutcome::NotReady;
        }
        queue.push(sample)
    }
}

} // verus!
