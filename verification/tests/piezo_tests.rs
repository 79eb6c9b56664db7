use taiko_hid::piezo::{
    ModeCommand, PiezoSample, PiezoSensorHandler, PiezoSensorSampleMode, SampleQueue, SendOutcome,
    INTERRUPT_SAMPLER_TIMER_CC, PIEZO_SENSOR_QUEUE_CAPACITY,
};

fn sample(tag: u16) -> PiezoSample {
    PiezoSample {
        le: tag,
        lc: tag.wrapping_add(1),
        rc: tag.wrapping_add(2),
        re: tag.wrapping_add(3),
    }
}

#[test]
fn backpressure_drops_thirty_third_sample() {
    // Queue capacity 32; the producer pushes 33 samples with no draining.
    let (_, mut queue, handler, _) = taiko_hid::init();
    assert_eq!(queue.capacity, 32);
    for k in 0..32u16 {
        assert_eq!(handler.send(true, sample(k), &mut queue), SendOutcome::Stored);
        assert!(!queue.producer_paused);
    }
    assert_eq!(
        handler.send(true, sample(32), &mut queue),
        SendOutcome::DroppedFull
    );
    // Exactly 32 samples are retained, the producer is paused.
    assert_eq!(queue.len(), 32);
    assert!(queue.producer_paused);
    // FIFO order is preserved, the 33rd sample is gone.
    for k in 0..32u16 {
        let got = queue.pop().expect("queue should hold 32 samples");
        assert_eq!(got, sample(k));
        // The consumer making room lifts the pause.
        assert!(!queue.producer_paused);
    }
    assert_eq!(queue.pop(), None);
}

#[test]
fn queue_capacity_constant_matches() {
    assert_eq!(PIEZO_SENSOR_QUEUE_CAPACITY, 32);
}

#[test]
fn not_ready_tick_is_skipped() {
    let mut queue = SampleQueue::new(4);
    let (handler, _) = PiezoSensorHandler::new();
    assert_eq!(handler.send(false, sample(1), &mut queue), SendOutcome::NotReady);
    assert_eq!(queue.len(), 0);
}

#[test]
fn send_without_receiver_drops_and_continues() {
    let mut queue = SampleQueue::new(4);
    queue.receiver_present = false;
    let (handler, _) = PiezoSensorHandler::new();
    assert_eq!(
        handler.send(true, sample(1), &mut queue),
        SendOutcome::DroppedNoReceiver
    );
    assert_eq!(queue.len(), 0);
    assert!(!queue.producer_paused);
}

#[test]
fn halt_to_timer_on_first_activity() {
    let (mut handler, arm) = PiezoSensorHandler::new();
    assert_eq!(arm, ModeCommand::ArmWatchdog);
    assert_eq!(handler.mode, PiezoSensorSampleMode::Halt);
    // The first watchdog activity starts periodic sampling.
    assert_eq!(
        handler.on_activity(),
        Some(ModeCommand::StartTimer(INTERRUPT_SAMPLER_TIMER_CC))
    );
    assert_eq!(
        handler.mode,
        PiezoSensorSampleMode::Timer(INTERRUPT_SAMPLER_TIMER_CC)
    );
    // The transition is one-directional: further activity changes nothing.
    assert_eq!(handler.on_activity(), None);
    assert_eq!(
        handler.mode,
        PiezoSensorSampleMode::Timer(INTERRUPT_SAMPLER_TIMER_CC)
    );
}

#[test]
fn setting_same_mode_asks_no_action() {
    let (mut handler, _) = PiezoSensorHandler::new();
    assert_eq!(handler.set_interrupt_mode(PiezoSensorSampleMode::Halt), None);
    assert_eq!(
        handler.set_interrupt_mode(PiezoSensorSampleMode::Timer(77)),
        Some(ModeCommand::StartTimer(77))
    );
    assert_eq!(
        handler.set_interrupt_mode(PiezoSensorSampleMode::Timer(77)),
        None
    );
    assert_eq!(
        handler.set_interrupt_mode(PiezoSensorSampleMode::Halt),
        Some(ModeCommand::ArmWatchdog)
    );
}

#[test]
fn channel_order() {
    let s = PiezoSample { le: 10, lc: 20, rc: 30, re: 40 };
    assert_eq!(s.channel(0), 10);
    assert_eq!(s.channel(1), 20);
    assert_eq!(s.channel(2), 30);
    assert_eq!(s.channel(3), 40);
}
