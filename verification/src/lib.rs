//! Core hit-detection pipeline for a four-sensor percussion controller:
//! per-channel sliding statistic windows, an adaptive-threshold detector,
//! and a cross-correlation disambiguator for sensor crosstalk.

use vstd::prelude::*;

pub mod cfg;
pub mod prog;
pub mod version;
pub mod cross_correlation;
pub mod hid;
pub mod parser;
pub mod piezo;
pub mod window;

verus! {

/// True when `n` is a power of two.
pub open spec fn is_pow2(n: nat) -> bool
    decreases n,
{
    if n == 0 {
        false
    } else if n == 1 {
        true
    } else {
        n % 2 == 0 && is_pow2(n / 2)
    }
}

/// Builds the hit-detection pipeline in its start-up state: a detector
/// with freshly filled windows and all channels quiet, an empty bounded
/// sample queue with a live consumer, and the acquisition state machine
/// halted with its watchdog armed (the returned command asks the device
/// layer to arm it).
pub fn init() -> (r: (parser::Parser, piezo::SampleQueue, piezo::PiezoSensorHandler, piezo::ModeCommand))
    ensures
        r.0.wf(),
        r.0.window_len() == parser::WINDOW_SIZE,
        r.0.cursor() == 0,
        r.0.states@ == seq![false, false, false, false],
        r.1.wf(),
        r.1.items@ == Seq::<piezo::PiezoSample>::empty(),
        r.1.capacity == piezo::PIEZO_SENSOR_QUEUE_CAPACITY,
        r.1.receiver_present,
        !r.1.producer_paused,
        r.2.mode == piezo::PiezoSensorSampleMode::Halt,
        r.3 == piezo::ModeCommand::ArmWatchdog,
{
    let detector = parser::Parser::default();
    let queue = piezo::SampleQueue::new(piezo::PIEZO_SENSOR_QUEUE_CAPACITY);
    let (handler, command) = piezo::PiezoSensorHandler::new();
    (detector, queue, handler, command)
}

} // verus!
