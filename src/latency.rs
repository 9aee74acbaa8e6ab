use crate::relay::prime;
use crate::ring::{ring_capacity, ring_contents, silence, SampleRing};
use vstd::prelude::*;

verus! {

/// The number of frames in `latency_ms` milliseconds at `sample_rate` Hz,
/// rounded to the nearest frame (halves round up).
pub open spec fn frames_for(latency_ms: nat, sample_rate: nat) -> nat {
    (latency_ms * sample_rate + 500) / 1000
}

/// How a latency budget sizes and pre-fills the ring between the streams.
#[derive(Clone, Copy, Debug, PartialEq, Eq, Structural)]
pub struct LatencyPlan {
    pub latency_frames: u64,
    pub latency_samples: usize,
    pub capacity: usize,
}

impl LatencyPlan {
    /// The plan primes a non-empty latency window into a ring twice its size.
    pub open spec fn wf(self) -> bool {
        &&& self.latency_samples > 0
        &&& self.capacity == 2 * self.latency_samples
    }
}

/// The number of frames in a latency budget of `latency_ms` milliseconds.
pub fn latency_frames(latency_ms: u32, sample_rate: u32) -> (r: u64)
    ensures
        r as nat == frames_for(latency_ms as nat, sample_rate as nat),
{
    proof {
        assert((latency_ms as nat) * (sample_rate as nat) <= 0xffff_ffffnat * 0xffff_ffffnat)
            by (nonlinear_arith);
    }
    let product: u64 = latency_ms as u64 * sample_rate as u64;
    (product + 500) / 1000
}

/// Sizes the ring for a latency budget: `latency_samples` is the number of
/// frames times `channel_count`, and the capacity is twice that. `None` when
/// the window holds no sample or the capacity does not fit in `usize`.
pub fn plan_latency(latency_ms: u32, sample_rate: u32, channel_count: u16) -> (r: Option<
    LatencyPlan,
>)
    ensures
        ({
            let samples = frames_for(latency_ms as nat, sample_rate as nat) * channel_count;
            match r {
                Some(p) => {
                    &&& p.wf()
                    &&& p.latency_frames as nat == frames_for(
                        latency_ms as nat,
                        sample_rate as nat,
                    )
                    &&& p.latency_samples as nat == samples
                    &&& p.capacity as nat == 2 * samples
                },
                None => samples == 0 || 2 * samples > usize::MAX,
            }
        }),
{
    let frames = latency_frames(latency_ms, sample_rate);
    let samples = match frames.checked_mul(channel_count as u64) {
        Some(s) => s,
        None => {
            proof {
                assert(frames as nat * channel_count as nat > usize::MAX);
            }
            return None;
        },
    };
    if samples == 0 {
        return None;
    }
    let capacity = match samples.checked_mul(2) {
        Some(c) => c,
        None => return None,
    };
    if capacity > usize::MAX as u64 {
        return None;
    }
    Some(LatencyPlan { latency_frames: frames, latency_samples: samples as usize, capacity: capacity as usize })
}

/// A ring of the plan's capacity, holding `latency_samples` silent samples.
pub fn primed_ring(plan: &LatencyPlan) -> (r: SampleRing)
    requires
        plan.wf(),
    ensures
        r.wf(),
        ring_capacity(r) == plan.capacity as nat,
        ring_contents(r) == silence(plan.latency_samples as nat),
{
    let mut ring = SampleRing::allocate(plan.capacity);
    prime(&mut ring, plan.latency_samples);
    assert(Seq::<u32>::empty() + silence(plan.latency_samples as nat) =~= silence(
        plan.latency_samples as nat,
    ));
    ring
}

} // verus!
