use loopback::latency::{latency_frames, plan_latency, primed_ring, LatencyPlan};
use loopback::relay::{capture_block, prime, render_block};
use loopback::ring::SampleRing;

fn bits(v: &[f32]) -> Vec<u32> {
    v.iter().map(|x| x.to_bits()).collect()
}

#[test]
fn fifo_order_round_trip() {
    let mut ring = SampleRing::new(8).unwrap();
    let input = bits(&[0.5, -0.25, 1.0, 0.125, -1.0]);
    assert!(!capture_block(&mut ring, &input));
    let mut out = vec![0u32; 5];
    assert!(!render_block(&mut ring, &mut out));
    assert_eq!(out, input);
    assert_eq!(ring.pop(), None);
}

#[test]
fn full_ring_rejects_until_pop() {
    let mut ring = SampleRing::new(3).unwrap();
    assert!(ring.push(1));
    assert!(ring.push(2));
    assert!(ring.push(3));
    assert!(!ring.push(4));
    assert!(!ring.push(5));
    assert_eq!(ring.pop(), Some(1));
    assert!(ring.push(6));
    assert!(!ring.push(7));
    assert_eq!(ring.pop(), Some(2));
    assert_eq!(ring.pop(), Some(3));
    assert_eq!(ring.pop(), Some(6));
    assert_eq!(ring.pop(), None);
}

#[test]
fn priming_at_default_latency() {
    assert_eq!(latency_frames(150, 48000), 7200);
    let plan = plan_latency(150, 48000, 2).unwrap();
    assert_eq!(
        plan,
        LatencyPlan { latency_frames: 7200, latency_samples: 14400, capacity: 28800 }
    );
    let mut ring = primed_ring(&plan);
    let mut out = vec![7u32; 14400];
    assert!(!render_block(&mut ring, &mut out));
    assert!(out.iter().all(|&s| s == 0));
    assert_eq!(ring.pop(), None);
}

#[test]
fn latency_frames_round_to_nearest() {
    assert_eq!(latency_frames(10, 44100), 441);
    assert_eq!(latency_frames(1, 44100), 44);
    assert_eq!(latency_frames(1, 500), 1);
    assert_eq!(latency_frames(1, 499), 0);
    assert_eq!(latency_frames(0, 48000), 0);
    assert_eq!(latency_frames(u32::MAX, u32::MAX), 18446744065119617);
}

#[test]
fn plan_rejects_empty_window() {
    assert_eq!(plan_latency(0, 48000, 2), None);
    assert_eq!(plan_latency(150, 48000, 0), None);
    assert_eq!(plan_latency(1, 400, 2), None);
}

#[test]
fn plan_rejects_capacity_overflow() {
    assert_eq!(plan_latency(u32::MAX, u32::MAX, u16::MAX), None);
}

#[test]
fn plan_mono_small() {
    assert_eq!(
        plan_latency(20, 44100, 1),
        Some(LatencyPlan { latency_frames: 882, latency_samples: 882, capacity: 1764 })
    );
}

#[test]
fn underrun_fills_silence() {
    let mut ring = SampleRing::new(4).unwrap();
    assert!(!capture_block(&mut ring, &bits(&[0.5, 0.75])));
    let mut out = vec![9u32; 5];
    assert!(render_block(&mut ring, &mut out));
    let mut expected = bits(&[0.5, 0.75]);
    expected.extend([0u32, 0, 0]);
    assert_eq!(out, expected);
    let mut again = vec![9u32; 3];
    assert!(render_block(&mut ring, &mut again));
    assert_eq!(again, vec![0u32; 3]);
}

#[test]
fn overflow_keeps_earliest_window() {
    let mut ring = SampleRing::new(4).unwrap();
    assert!(!capture_block(&mut ring, &[1]));
    assert!(capture_block(&mut ring, &[2, 3, 4, 5, 6]));
    let mut out = vec![0u32; 6];
    assert!(render_block(&mut ring, &mut out));
    assert_eq!(out, vec![1, 2, 3, 4, 0, 0]);
}

#[test]
fn capture_exactly_fills_ring() {
    let mut ring = SampleRing::new(3).unwrap();
    assert!(!capture_block(&mut ring, &[1, 2, 3]));
    assert!(capture_block(&mut ring, &[4]));
    assert!(!capture_block(&mut ring, &[]));
}

#[test]
fn end_to_end_primed_relay() {
    let mut ring = SampleRing::new(20).unwrap();
    prime(&mut ring, 10);
    assert!(!capture_block(&mut ring, &bits(&[1.0, 2.0, 3.0, 4.0, 5.0])));
    let mut got = Vec::new();
    for _ in 0..12 {
        got.push(f32::from_bits(ring.pop().unwrap()));
    }
    assert_eq!(got, vec![0.0, 0.0, 0.0, 0.0, 0.0, 0.0, 0.0, 0.0, 0.0, 0.0, 1.0, 2.0]);
    assert_eq!(ring.pop().map(f32::from_bits), Some(3.0));
    assert_eq!(ring.pop().map(f32::from_bits), Some(4.0));
    assert_eq!(ring.pop().map(f32::from_bits), Some(5.0));
    assert_eq!(ring.pop(), None);
}

#[test]
fn zero_capacity_ring_is_refused() {
    assert!(SampleRing::new(0).is_none());
    assert!(SampleRing::new(1).is_some());
}

#[test]
fn prime_appends_silence_after_held_samples() {
    let mut ring = SampleRing::new(5).unwrap();
    assert!(ring.push(8));
    prime(&mut ring, 3);
    let mut out = vec![1u32; 5];
    assert!(render_block(&mut ring, &mut out));
    assert_eq!(out, vec![8, 0, 0, 0, 0]);
}
