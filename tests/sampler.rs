use commandant::sample::SampleFormat;
use commandant::sampler::{Sampler, SamplerAction, SamplerEvent, SamplerPhase, StopReason};

fn sampler() -> Sampler {
    Sampler::new(SampleFormat { min_tokens: 3, owner: 0, cpu: 1, memory: 2, command: 3 }, 2000, "cpu_stats".to_string())
}

#[test]
fn one_round_stores_each_sample_then_sleeps() {
    let mut s = sampler();
    assert_eq!(s.step(SamplerEvent::Begin, false), SamplerAction::TakeSnapshot);
    let text = "alice 1.2 3.4 /bin/x\nbob 0.1 0.2 /bin/y\n".to_string();
    match s.step(SamplerEvent::SnapshotTaken(Ok(text)), false) {
        SamplerAction::Store { key, sample } => {
            assert_eq!(key, "cpu_stats:0");
            assert_eq!(sample.owner, "alice");
        }
        other => panic!("unexpected {:?}", other),
    }
    match s.step(SamplerEvent::Stored(Ok(())), false) {
        SamplerAction::Store { key, sample } => {
            assert_eq!(key, "cpu_stats:1");
            assert_eq!(sample.owner, "bob");
        }
        other => panic!("unexpected {:?}", other),
    }
    assert_eq!(s.step(SamplerEvent::Stored(Ok(())), false), SamplerAction::Sleep { millis: 2000 });
    assert_eq!(s.step(SamplerEvent::Slept, false), SamplerAction::TakeSnapshot);
}

#[test]
fn cancellation_during_sleep_stops_before_next_round() {
    let mut s = sampler();
    s.step(SamplerEvent::Begin, false);
    assert_eq!(s.step(SamplerEvent::SnapshotTaken(Ok(String::new())), false), SamplerAction::Sleep { millis: 2000 });
    assert_eq!(s.step(SamplerEvent::Slept, true), SamplerAction::Stop);
    assert_eq!(s.phase, SamplerPhase::Stopped(StopReason::Cancelled));
    assert_eq!(s.step(SamplerEvent::Slept, false), SamplerAction::Stop);
    assert!(s.is_stopped());
}

#[test]
fn cancellation_finishes_batch_then_stops_without_sleep() {
    let mut s = sampler();
    s.step(SamplerEvent::Begin, false);
    let first = s.step(SamplerEvent::SnapshotTaken(Ok("a 1 1\nb 2 2\n".to_string())), true);
    assert!(matches!(first, SamplerAction::Store { .. }));
    assert!(matches!(s.step(SamplerEvent::Stored(Ok(())), true), SamplerAction::Store { .. }));
    assert_eq!(s.step(SamplerEvent::Stored(Ok(())), true), SamplerAction::Stop);
    assert_eq!(s.phase, SamplerPhase::Stopped(StopReason::Cancelled));
}

#[test]
fn cancelled_before_start_takes_no_snapshot() {
    let mut s = sampler();
    assert_eq!(s.step(SamplerEvent::Begin, true), SamplerAction::Stop);
    assert!(s.is_stopped());
}

#[test]
fn no_round_starts_after_cancellation() {
    let mut s = sampler();
    let mut action = s.step(SamplerEvent::Begin, false);
    let mut steps = 0;
    let mut rounds_started_after_cancel = 0;
    while action != SamplerAction::Stop && steps < 50 {
        steps += 1;
        let cancelled = steps >= 7;
        action = match action {
            SamplerAction::TakeSnapshot => s.step(SamplerEvent::SnapshotTaken(Ok("u 1 1 c\nv 2 2 d\n".to_string())), cancelled),
            SamplerAction::Store { .. } => s.step(SamplerEvent::Stored(Ok(())), cancelled),
            SamplerAction::Sleep { .. } => s.step(SamplerEvent::Slept, cancelled),
            SamplerAction::Stop => break,
        };
        if cancelled && matches!(action, SamplerAction::TakeSnapshot | SamplerAction::Sleep { .. }) {
            rounds_started_after_cancel += 1;
        }
    }
    assert_eq!(rounds_started_after_cancel, 0);
    assert!(s.is_stopped());
    assert_eq!(s.phase, SamplerPhase::Stopped(StopReason::Cancelled));
}

#[test]
fn snapshot_failure_stops() {
    let mut s = sampler();
    s.step(SamplerEvent::Begin, false);
    assert_eq!(s.step(SamplerEvent::SnapshotTaken(Err("no ps".to_string())), false), SamplerAction::Stop);
    assert_eq!(s.phase, SamplerPhase::Stopped(StopReason::SnapshotFailed("no ps".to_string())));
}

#[test]
fn storage_failure_stops_and_drops_rest_of_batch() {
    let mut s = sampler();
    s.step(SamplerEvent::Begin, false);
    s.step(SamplerEvent::SnapshotTaken(Ok("a 1 1\nb 2 2\n".to_string())), false);
    assert_eq!(s.step(SamplerEvent::Stored(Err("locked".to_string())), false), SamplerAction::Stop);
    assert_eq!(s.phase, SamplerPhase::Stopped(StopReason::StorageFailed("locked".to_string())));
    assert!(s.pending.is_empty() || s.is_stopped());
}

#[test]
fn event_out_of_order_stops() {
    let mut s = sampler();
    assert_eq!(s.step(SamplerEvent::Slept, false), SamplerAction::Stop);
    assert_eq!(s.phase, SamplerPhase::Stopped(StopReason::OutOfOrder));
}
