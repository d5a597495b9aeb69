//! The sampling loop: take a process snapshot, store each of its samples,
//! sleep, and again, until told to stop or until something fails.
//!
//! A [`Sampler`] decides; its driver runs the snapshot command, talks to the
//! storage, sleeps, and hands each result to [`Sampler::step`] together with
//! whether the shutdown signal has fired. The signal is looked at when a
//! round would begin (first, and after each sleep) and when a sleep would
//! begin, so a sampler told to stop starts no further round, and sleeps no
//! more, once its current batch is stored.
use vstd::prelude::*;
use vstd::string::*;
use crate::sample::{Sample, SampleView, SampleFormat, parse_samples, parse_spec};
use crate::text::{decimal_digits, push_decimal};

verus! {

/// Why a sampler stopped.
#[derive(Debug, Clone, PartialEq, Eq)]
pub enum StopReason {
    /// The shutdown signal fired.
    Cancelled,
    /// The snapshot command failed; it is not retried.
    SnapshotFailed(String),
    /// Storing a sample failed; the rest of the batch is dropped.
    StorageFailed(String),
    /// An event came that answers no pending action.
    OutOfOrder,
}

/// Where a sampler stands.
#[derive(Debug, Clone, PartialEq, Eq)]
pub enum SamplerPhase {
    /// Created; waits for `Begin`.
    Idle,
    /// Waits for the snapshot.
    AwaitingSnapshot,
    /// Waits for the store of a sample.
    Storing,
    /// Waits for the end of a sleep.
    Sleeping,
    /// Done for good.
    Stopped(StopReason),
}

/// What the driver reports.
#[derive(Debug, PartialEq, Eq)]
pub enum SamplerEvent {
    /// The loop is entered.
    Begin,
    /// The snapshot command ran: its standard output, or why it failed.
    SnapshotTaken(Result<String, String>),
    /// A store was tried.
    Stored(Result<(), String>),
    /// A sleep ended.
    Slept,
}

/// What the driver is asked to do.
#[derive(Debug, Clone, PartialEq, Eq)]
pub enum SamplerAction {
    /// Run the snapshot command.
    TakeSnapshot,
    /// Store this sample under this key.
    Store { key: String, sample: Sample },
    /// Sleep this long.
    Sleep { millis: u64 },
    /// Stop the loop.
    Stop,
}

/// What a `SamplerAction` asks, as values.
pub enum ActionView {
    TakeSnapshot,
    Store { key: Seq<char>, sample: SampleView },
    Sleep { millis: u64 },
    Stop,
}

impl View for SamplerAction {
    type V = ActionView;

    open spec fn view(&self) -> ActionView {
        match self {
            SamplerAction::TakeSnapshot => ActionView::TakeSnapshot,
            SamplerAction::Store { key, sample } => ActionView::Store { key: key@, sample: sample@ },
            SamplerAction::Sleep { millis } => ActionView::Sleep { millis: *millis },
            SamplerAction::Stop => ActionView::Stop,
        }
    }
}

/// A sampling loop: how snapshot lines are read, how long to sleep between
/// rounds, the prefix of the storage keys, where it stands, and the samples of
/// the current round still to store, each with its key.
#[derive(Debug)]
pub struct Sampler {
    pub format: SampleFormat,
    pub interval_ms: u64,
    pub key_prefix: String,
    pub phase: SamplerPhase,
    pub pending: Vec<(String, Sample)>,
}

/// What a `Sampler` holds, as values.
pub struct SamplerView {
    pub format: SampleFormat,
    pub interval_ms: u64,
    pub key_prefix: Seq<char>,
    pub phase: SamplerPhase,
    pub pending: Seq<(Seq<char>, SampleView)>,
}

impl View for Sampler {
    type V = SamplerView;

    open spec fn view(&self) -> SamplerView {
        SamplerView {
            format: self.format,
            interval_ms: self.interval_ms,
            key_prefix: self.key_prefix@,
            phase: self.phase,
            pending: keyed_view(self.pending@),
        }
    }
}

/// Keyed samples as values.
pub open spec fn keyed_view(v: Seq<(String, Sample)>) -> Seq<(Seq<char>, SampleView)> {
    v.map_values(|p: (String, Sample)| (p.0@, p.1@))
}

/// The storage key of the `i`-th sample of a round: the prefix, a colon, and `i`.
pub open spec fn sample_key(prefix: Seq<char>, i: nat) -> Seq<char> {
    prefix + ":"@ + decimal_digits(i)
}

/// The samples of a round, each with its key, in order.
pub open spec fn keyed(prefix: Seq<char>, samples: Seq<SampleView>) -> Seq<(Seq<char>, SampleView)> {
    Seq::new(samples.len(), |i: int| (sample_key(prefix, i as nat), samples[i]))
}

pub open spec fn stopped(s: SamplerView, reason: StopReason) -> (SamplerView, ActionView) {
    (SamplerView { phase: SamplerPhase::Stopped(reason), ..s }, ActionView::Stop)
}

/// The sampler with the samples of snapshot `text`, keyed, to store.
pub open spec fn with_round(s: SamplerView, text: Seq<char>) -> SamplerView {
    SamplerView { pending: keyed(s.key_prefix, parse_spec(s.format, text)), ..s }
}

/// Once a sample is stored (or a round read): store the next one, or, the
/// round done, stop if the signal fired and sleep otherwise.
pub open spec fn continue_round(s: SamplerView, cancelled: bool) -> (SamplerView, ActionView) {
    if s.pending.len() > 0 {
        (
            SamplerView { phase: SamplerPhase::Storing, pending: s.pending.drop_first(), ..s },
            ActionView::Store { key: s.pending[0].0, sample: s.pending[0].1 },
        )
    } else if cancelled {
        stopped(s, StopReason::Cancelled)
    } else {
        (SamplerView { phase: SamplerPhase::Sleeping, ..s }, ActionView::Sleep { millis: s.interval_ms })
    }
}

/// The sampler after `event`, handed over while the signal is `cancelled`, and
/// the action it asks for.
pub open spec fn step_spec(s: SamplerView, event: SamplerEvent, cancelled: bool) -> (SamplerView, ActionView) {
    match (s.phase, event) {
        (SamplerPhase::Stopped(_), _) => (s, ActionView::Stop),
        (SamplerPhase::Idle, SamplerEvent::Begin) | (SamplerPhase::Sleeping, SamplerEvent::Slept) => {
            if cancelled {
                stopped(s, StopReason::Cancelled)
            } else {
                (SamplerView { phase: SamplerPhase::AwaitingSnapshot, ..s }, ActionView::TakeSnapshot)
            }
        },
        (SamplerPhase::AwaitingSnapshot, SamplerEvent::SnapshotTaken(Ok(text))) => continue_round(
            with_round(s, text@),
            cancelled,
        ),
        (SamplerPhase::AwaitingSnapshot, SamplerEvent::SnapshotTaken(Err(e))) => stopped(s, StopReason::SnapshotFailed(e)),
        (SamplerPhase::Storing, SamplerEvent::Stored(Ok(()))) => continue_round(s, cancelled),
        (SamplerPhase::Storing, SamplerEvent::Stored(Err(e))) => stopped(s, StopReason::StorageFailed(e)),
        _ => stopped(s, StopReason::OutOfOrder),
    }
}

impl Sampler {
    /// A sampler that reads snapshot lines as `format`, sleeps `interval_ms`
    /// between rounds and stores the `i`-th sample of a round under
    /// `key_prefix:i`; the driver starts it with `Begin`.
    pub fn new(format: SampleFormat, interval_ms: u64, key_prefix: String) -> (r: Sampler)
        ensures
            r.format == format,
            r.interval_ms == interval_ms,
            r.key_prefix == key_prefix,
            r.phase == SamplerPhase::Idle,
            r.pending@.len() == 0,
    {
        Sampler { format, interval_ms, key_prefix, phase: SamplerPhase::Idle, pending: Vec::new() }
    }

    /// Whether the sampler has stopped for good.
    pub fn is_stopped(&self) -> (r: bool)
        ensures
            r == (self.phase is Stopped),
    {
        match self.phase {
            SamplerPhase::Stopped(_) => true,
            _ => false,
        }
    }

    fn key_for(&self, i: usize) -> (r: String)
        ensures
            r@ == sample_key(self.key_prefix@, i as nat),
    {
        let mut key = self.key_prefix.clone();
        key.append(":");
        push_decimal(&mut key, i as u64);
        key
    }

    fn stop(&mut self, reason: StopReason) -> (r: SamplerAction)
        ensures
            final(self)@ == stopped(old(self)@, reason).0,
            r@ == stopped(old(self)@, reason).1,
    {
        self.phase = SamplerPhase::Stopped(reason);
        SamplerAction::Stop
    }

    fn continue_round(&mut self, cancelled: bool) -> (r: SamplerAction)
        ensures
            final(self)@ == continue_round(old(self)@, cancelled).0,
            r@ == continue_round(old(self)@, cancelled).1,
    {
        if self.pending.len() > 0 {
            let (key, sample) = self.pending.remove(0);
            self.phase = SamplerPhase::Storing;
            assert(self@.pending =~= old(self)@.pending.drop_first());
            SamplerAction::Store { key, sample }
        } else if cancelled {
            self.stop(StopReason::Cancelled)
        } else {
            self.phase = SamplerPhase::Sleeping;
            SamplerAction::Sleep { millis: self.interval_ms }
        }
    }

    fn start_round(&mut self, text: &str, cancelled: bool) -> (r: SamplerAction)
        ensures
            final(self)@ == continue_round(with_round(old(self)@, text@), cancelled).0,
            r@ == continue_round(with_round(old(self)@, text@), cancelled).1,
    {
        let mut samples = parse_samples(text, self.format);
        let ghost all = parse_spec(self.format, text@);
        let ghost want = keyed(self.key_prefix@, all);
        let n = samples.len();
        let mut batch: Vec<(String, Sample)> = Vec::new();
        let mut i: usize = 0;
        while i < n
            invariant
                i <= n,
                n == all.len(),
                samples.len() == n - i,
                batch.len() == i,
                samples@.map_values(|x: Sample| x@) == all.skip(i as int),
                keyed_view(batch@) == want.take(i as int),
                want == keyed(self.key_prefix@, all),
            decreases n - i,
        {
            assert(samples@.map_values(|x: Sample| x@)[0] == all[i as int]);
            let ghost before = samples@;
            let sample = samples.remove(0);
            assert forall|j: int| 0 <= j < samples.len() implies samples@[j]@ == all[i + 1 + j] by {
                assert(samples@[j] == before[j + 1]);
                assert(before.map_values(|x: Sample| x@)[j + 1] == all.skip(i as int)[j + 1]);
            }
            assert(sample@ == before.map_values(|x: Sample| x@)[0]);
            let key = self.key_for(i);
            let ghost old_batch = batch@;
            batch.push((key, sample));
            assert(batch@ == old_batch.push((key, sample)));
            assert(want[i as int] == (key@, sample@));
            assert(old_batch.len() == i);
            assert forall|j: int| 0 <= j <= i implies #[trigger] keyed_view(batch@)[j] == want.take(i + 1)[j] by {
                if j < i {
                    assert(batch@[j] == old_batch[j]);
                    assert(keyed_view(old_batch)[j] == want.take(i as int)[j]);
                }
            }
            assert(keyed_view(batch@) =~= want.take(i + 1));
            i = i + 1;
            assert(samples@.map_values(|x: Sample| x@) =~= all.skip(i as int));
        }
        assert(want.take(n as int) =~= want);
        self.pending = batch;
        self.continue_round(cancelled)
    }

    /// Takes what the driver reports, with whether the shutdown signal has
    /// fired, and says what to do next. A stopped sampler stays stopped.
    pub fn step(&mut self, event: SamplerEvent, cancelled: bool) -> (r: SamplerAction)
        ensures
            final(self)@ == step_spec(old(self)@, event, cancelled).0,
            r@ == step_spec(old(self)@, event, cancelled).1,
            cancelled ==> !(r is TakeSnapshot) && !(r is Sleep),
            old(self).phase is Stopped ==> r is Stop && final(self).phase == old(self).phase,
    {
        proof {
            lemma_cancelled_sampler_starts_nothing(self@, event);
        }
        match (&self.phase, event) {
            (SamplerPhase::Stopped(_), _) => SamplerAction::Stop,
            (SamplerPhase::Idle, SamplerEvent::Begin) | (SamplerPhase::Sleeping, SamplerEvent::Slept) => {
                if cancelled {
                    self.stop(StopReason::Cancelled)
                } else {
                    self.phase = SamplerPhase::AwaitingSnapshot;
                    SamplerAction::TakeSnapshot
                }
            },
            (SamplerPhase::AwaitingSnapshot, SamplerEvent::SnapshotTaken(Ok(text))) => self.start_round(text.as_str(), cancelled),
            (SamplerPhase::AwaitingSnapshot, SamplerEvent::SnapshotTaken(Err(e))) => self.stop(StopReason::SnapshotFailed(e)),
            (SamplerPhase::Storing, SamplerEvent::Stored(Ok(()))) => self.continue_round(cancelled),
            (SamplerPhase::Storing, SamplerEvent::Stored(Err(e))) => self.stop(StopReason::StorageFailed(e)),
            _ => self.stop(StopReason::OutOfOrder),
        }
    }
}

/// Once the shutdown signal has fired, a sampler neither starts a round (no
/// snapshot is taken) nor sleeps: whatever it is told, it at most stores what
/// is left of the round under way and then stops. A stopped sampler stays
/// stopped, with its reason, whatever it is told.
pub proof fn lemma_cancelled_sampler_starts_nothing(s: SamplerView, event: SamplerEvent)
    ensures
        !(step_spec(s, event, true).1 is TakeSnapshot),
        !(step_spec(s, event, true).1 is Sleep),
        s.phase is Stopped ==> forall|cancelled: bool| #![auto]
            step_spec(s, event, cancelled).1 is Stop && step_spec(s, event, cancelled).0 == s,
{
}

} // verus!
