//! The feature pipeline: events flow into a bounded FIFO window; the
//! whole window is aggregated and encoded as one fixed-dimension vector.

use vstd::prelude::*;
use crate::behavioral::{
    encode_features, padded, stats_of, window_model, BehavioralStats,
};
use crate::config::FeaturesConfig;
use crate::events::{now_millis, Event};

verus! {

/// Fixed-size numeric vector for model input, in micro-units.
#[derive(Clone, Debug)]
pub struct FeatureVector {
    pub dim: usize,
    pub values: Vec<u64>,
    /// Id of the most recent event folded in
    pub event_id: String,
    /// Vector creation time, wall-clock milliseconds
    pub ts: i64,
}

impl FeatureVector {
    /// The first `dim` values; all of them whenever the length invariant
    /// holds.
    pub fn as_slice(&self) -> (r: &[u64])
        ensures
            r@ == self.values@.take(vstd::math::min(self.dim as int, self.values@.len() as int)),
    {
        let m: usize = if self.dim < self.values.len() {
            self.dim
        } else {
            self.values.len()
        };
        let r: &[u64] = &self.values.as_slice()[0..m];
        proof {
            assert(r@ =~= self.values@.take(
                vstd::math::min(self.dim as int, self.values@.len() as int),
            ));
        }
        r
    }
}

/// What remains of pushing `es` one by one onto `w` with capacity `cap`,
/// evicting from the front after each insertion: the last `cap` elements
/// of the concatenation, or all of them if no more than `cap` arrived.
pub open spec fn evicted(all: Seq<Event>, cap: nat) -> Seq<Event> {
    if all.len() <= cap {
        all
    } else {
        all.skip(all.len() - cap)
    }
}

/// The window after a push is the most recent events of the
/// concatenation and nothing else: its length is the smaller of `cap`
/// and what arrived, and element `i` is the element of `all` that many
/// places from its end. Strict FIFO: whatever is evicted is the oldest.
pub proof fn lemma_evicted_is_bounded_suffix(all: Seq<Event>, cap: nat)
    ensures
        evicted(all, cap).len() == vstd::math::min(all.len() as int, cap as int),
        forall|i: int|
            0 <= i < evicted(all, cap).len() ==> #[trigger] evicted(all, cap)[i] == all[all.len()
                - evicted(all, cap).len() + i],
{
}

/// The vector a window encodes to: its aggregate statistics in the fixed
/// order, padded or truncated to `dim` slots.
pub open spec fn window_vector(w: Seq<Event>, dim: nat) -> Seq<u64> {
    padded(encode_features(stats_of(window_model(w))), dim)
}

/// Owns the bounded sliding window and turns batches of events into
/// feature vectors.
pub struct FeatureExtractor {
    config: FeaturesConfig,
    window: Vec<Event>,
}

impl FeatureExtractor {
    /// The window's contents, oldest first.
    pub closed spec fn window(&self) -> Seq<Event> {
        self.window@
    }

    /// The parameters this extractor was built with.
    pub closed spec fn spec_config(&self) -> FeaturesConfig {
        self.config
    }

    /// The window never holds more than its configured capacity.
    pub open spec fn wf(&self) -> bool {
        self.window().len() <= self.spec_config().window_events
    }

    pub fn new(config: FeaturesConfig) -> (e: Self)
        ensures
            e.wf(),
            e.spec_config() == config,
            e.window() == Seq::<Event>::empty(),
    {
        let e = FeatureExtractor { config, window: Vec::new() };
        proof {
            assert(e.window() =~= Seq::<Event>::empty());
        }
        e
    }

    /// What a non-empty window encodes to, stamped with the given time
    /// and the id of the window's most recent event.
    fn encode_window(&self, now: i64) -> (fv: FeatureVector)
        requires
            self.window().len() > 0,
            self.window().len() <= u32::MAX,
        ensures
            fv.dim == self.spec_config().feature_dim,
            fv.values@ == window_vector(self.window(), self.spec_config().feature_dim as nat),
            fv.event_id@ == self.window().last().id@,
            fv.ts == now,
    {
        let stats = BehavioralStats::from_events(&self.window);
        let values = stats.to_vector(self.config.feature_dim);
        let event_id = self.window[self.window.len() - 1].id.clone();
        FeatureVector { dim: self.config.feature_dim, values, event_id, ts: now }
    }

    /// Append `events` in arrival order, evicting the oldest elements
    /// whenever the window exceeds its capacity; then, if the window is
    /// non-empty, encode the whole current window as one vector stamped
    /// with time `now`. An empty window yields an empty batch.
    pub fn push_at(&mut self, events: Vec<Event>, now: i64) -> (r: Vec<FeatureVector>)
        requires
            old(self).wf(),
            old(self).window().len() + events@.len() <= u32::MAX,
        ensures
            final(self).wf(),
            final(self).spec_config() == old(self).spec_config(),
            final(self).window() == evicted(
                old(self).window() + events@,
                old(self).spec_config().window_events as nat,
            ),
            final(self).window().len() <= final(self).spec_config().window_events,
            r@.len() == (if final(self).window().len() == 0 { 0int } else { 1int }),
            final(self).window().len() > 0 ==> {
                let fv = r@[0];
                &&& fv.dim == final(self).spec_config().feature_dim
                &&& fv.values@ == window_vector(
                    final(self).window(),
                    final(self).spec_config().feature_dim as nat,
                )
                &&& fv.values@.len() == final(self).spec_config().feature_dim
                &&& fv.event_id@ == final(self).window().last().id@
                &&& fv.ts == now
            },
    {
        let ghost es0 = events@;
        let ghost cap = self.config.window_events as nat;
        let mut events = events;
        let ghost mut i: int = 0;
        while events.len() > 0
            invariant
                0 <= i <= es0.len(),
                events@ == es0.skip(i),
                self.config == old(self).config,
                cap == self.config.window_events as nat,
                old(self).window@.len() + es0.len() <= u32::MAX,
                old(self).window@.len() <= cap,
                self.window@ == evicted(old(self).window@ + es0.take(i), cap),
            decreases events@.len(),
        {
            let e = events.remove(0);
            proof {
                assert(e == es0[i]);
                assert(events@ =~= es0.skip(i + 1));
            }
            self.window.push(e);
            proof {
                assert(self.window@ =~= evicted(old(self).window@ + es0.take(i + 1), cap + 1));
            }
            while self.window.len() > self.config.window_events
                invariant
                    self.config == old(self).config,
                    cap == self.config.window_events as nat,
                    self.window@.len() <= cap + 1,
                    self.window@ == evicted(old(self).window@ + es0.take(i + 1), cap) || (
                    self.window@.len() == cap + 1 && self.window@ == evicted(
                        old(self).window@ + es0.take(i + 1),
                        cap + 1,
                    )),
                decreases self.window@.len(),
            {
                self.window.remove(0);
                proof {
                    assert(self.window@ =~= evicted(old(self).window@ + es0.take(i + 1), cap));
                }
            }
            proof {
                i = i + 1;
            }
        }
        proof {
            assert(es0.skip(i).len() == 0);
            assert(i == es0.len());
            assert(es0.take(es0.len() as int) =~= es0);
        }
        if self.window.len() == 0 {
            Vec::new()
        } else {
            let fv = self.encode_window(now);
            let mut r: Vec<FeatureVector> = Vec::new();
            r.push(fv);
            r
        }
    }

    /// [`Self::push_at`] stamped with the current wall-clock time; the
    /// produced vector's `ts` is whatever the clock read.
    pub fn push(&mut self, events: Vec<Event>) -> (r: Vec<FeatureVector>)
        requires
            old(self).wf(),
            old(self).window().len() + events@.len() <= u32::MAX,
        ensures
            final(self).wf(),
            final(self).spec_config() == old(self).spec_config(),
            final(self).window() == evicted(
                old(self).window() + events@,
                old(self).spec_config().window_events as nat,
            ),
            r@.len() == (if final(self).window().len() == 0 { 0int } else { 1int }),
            final(self).window().len() > 0 ==> {
                let fv = r@[0];
                &&& fv.dim == final(self).spec_config().feature_dim
                &&& fv.values@ == window_vector(
                    final(self).window(),
                    final(self).spec_config().feature_dim as nat,
                )
                &&& fv.values@.len() == final(self).spec_config().feature_dim
                &&& fv.event_id@ == final(self).window().last().id@
            },
    {
        let now = now_millis();
        self.push_at(events, now)
    }

    /// Encode the current window without mutating it: the same vector a
    /// push of no events would produce, or nothing if the window is
    /// empty.
    pub fn flush_at(&self, now: i64) -> (r: Option<FeatureVector>)
        requires
            self.window().len() <= u32::MAX,
        ensures
            (r is Some) <==> self.window().len() > 0,
            r matches Some(fv) ==> {
                &&& fv.dim == self.spec_config().feature_dim
                &&& fv.values@ == window_vector(
                    self.window(),
                    self.spec_config().feature_dim as nat,
                )
                &&& fv.values@.len() == self.spec_config().feature_dim
                &&& fv.event_id@ == self.window().last().id@
                &&& fv.ts == now
            },
    {
        if self.window.len() == 0 {
            None
        } else {
            Some(self.encode_window(now))
        }
    }

    /// [`Self::flush_at`] stamped with the current wall-clock time.
    pub fn flush(&self) -> (r: Option<FeatureVector>)
        requires
            self.window().len() <= u32::MAX,
        ensures
            (r is Some) <==> self.window().len() > 0,
            r matches Some(fv) ==> {
                &&& fv.dim == self.spec_config().feature_dim
                &&& fv.values@ == window_vector(
                    self.window(),
                    self.spec_config().feature_dim as nat,
                )
                &&& fv.values@.len() == self.spec_config().feature_dim
                &&& fv.event_id@ == self.window().last().id@
            },
    {
        let now = now_millis();
        self.flush_at(now)
    }
}

} // verus!
