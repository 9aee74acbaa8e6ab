use crate::ring::{after_pop, after_push, popped, ring_capacity, ring_contents, silence, SampleRing};
use vstd::prelude::*;

verus! {

/// Pushes `count` silent samples, which the ring must have room for.
pub fn prime(ring: &mut SampleRing, count: usize)
    requires
        old(ring).wf(),
        ring_contents(*old(ring)).len() + count <= ring_capacity(*old(ring)),
    ensures
        final(ring).wf(),
        ring_capacity(*final(ring)) == ring_capacity(*old(ring)),
        ring_contents(*final(ring)) == ring_contents(*old(ring)) + silence(count as nat),
{
    let ghost q0 = ring_contents(*ring);
    let mut i: usize = 0;
    while i < count
        invariant
            i <= count,
            q0.len() + count <= ring_capacity(*old(ring)),
            ring_capacity(*ring) == ring_capacity(*old(ring)),
            ring_contents(*ring) == q0 + silence(i as nat),
        decreases count - i,
    {
        let ok = ring.try_push(0);
        assert(ok);
        assert((q0 + silence(i as nat)).push(0u32) =~= q0 + silence((i + 1) as nat));
        i = i + 1;
    }
}

/// Capture side: offers each sample of `data` to the ring in order. Samples
/// that find the ring full are dropped. Returns whether any was dropped, that
/// is whether the render side fell behind.
pub fn capture_block(ring: &mut SampleRing, data: &[u32]) -> (fell_behind: bool)
    requires
        old(ring).wf(),
    ensures
        final(ring).wf(),
        ring_capacity(*final(ring)) == ring_capacity(*old(ring)),
        ring_contents(*final(ring)) == after_push(
            ring_contents(*old(ring)),
            ring_capacity(*old(ring)),
            data@,
        ),
        fell_behind == (ring_contents(*old(ring)).len() + data@.len() > ring_capacity(*old(ring))),
{
    let ghost q0 = ring_contents(*ring);
    let ghost cap = ring_capacity(*ring);
    let mut fell_behind = false;
    let mut i: usize = 0;
    while i < data.len()
        invariant
            i <= data@.len(),
            q0.len() <= cap,
            ring_capacity(*ring) == cap,
            ring_contents(*ring) == after_push(q0, cap, data@.take(i as int)),
            fell_behind == (q0.len() + i > cap),
        decreases data@.len() - i,
    {
        let ghost before = ring_contents(*ring);
        let ok = ring.try_push(data[i]);
        if !ok {
            fell_behind = true;
        }
        proof {
            assert(data@.take(i as int).push(data@[i as int]) =~= data@.take(i + 1));
            if q0.len() + i < cap {
                assert(after_push(q0, cap, data@.take(i + 1)) =~= before.push(data@[i as int]));
            } else {
                assert(data@.take(i + 1).take(cap - q0.len()) =~= data@.take(i as int).take(
                    cap - q0.len(),
                ));
            }
        }
        i = i + 1;
    }
    assert(data@.take(data@.len() as int) =~= data@);
    fell_behind
}

/// Render side: fills each slot of `out` with the ring's oldest sample, or
/// with silence where the ring is empty. Returns whether any slot was
/// silenced, that is whether the capture side fell behind.
pub fn render_block(ring: &mut SampleRing, out: &mut [u32]) -> (fell_behind: bool)
    requires
        old(ring).wf(),
    ensures
        final(ring).wf(),
        ring_capacity(*final(ring)) == ring_capacity(*old(ring)),
        final(out)@ == popped(ring_contents(*old(ring)), old(out)@.len()),
        ring_contents(*final(ring)) == after_pop(ring_contents(*old(ring)), old(out)@.len()),
        fell_behind == (old(out)@.len() > ring_contents(*old(ring)).len()),
{
    let ghost q0 = ring_contents(*ring);
    let ghost cap = ring_capacity(*ring);
    let n = out.len();
    let mut fell_behind = false;
    let mut i: usize = 0;
    while i < n
        invariant
            n == out@.len(),
            n == old(out)@.len(),
            i <= n,
            q0.len() <= cap,
            ring_capacity(*ring) == cap,
            ring_contents(*ring) == after_pop(q0, i as nat),
            out@.take(i as int) == popped(q0, i as nat),
            fell_behind == (i > q0.len()),
        decreases n - i,
    {
        let ghost prefix = out@.take(i as int);
        let sample = match ring.try_pop() {
            Some(s) => s,
            None => {
                fell_behind = true;
                0
            },
        };
        out[i] = sample;
        proof {
            assert(out@.take(i + 1) =~= prefix.push(sample));
            if i < q0.len() {
                assert(after_pop(q0, (i + 1) as nat) =~= after_pop(q0, i as nat).drop_first());
                assert(q0.take(i + 1) =~= q0.take(i as int).push(q0[i as int]));
            } else {
                assert(popped(q0, (i + 1) as nat) =~= popped(q0, i as nat).push(0u32));
            }
        }
        i = i + 1;
    }
    assert(out@.take(n as int) =~= out@);
    fell_behind
}

} // verus!
