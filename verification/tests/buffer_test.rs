use lumawave::audio::PcmRingBuffer;

#[test]
fn write_then_read_roundtrip() {
    let mut ring = PcmRingBuffer::new(16);
    let written = ring.write(&[1.0, 2.0, 3.0]);
    assert_eq!(written, 3);
    let mut out = [0.0f32; 8];
    assert_eq!(ring.read_into(&mut out), 3);
    assert_eq!(&out[..3], &[1.0, 2.0, 3.0]);
    assert_eq!(ring.available(), 0);
}

#[test]
fn capacity_rounds_up_to_power_of_two() {
    assert_eq!(PcmRingBuffer::<f32>::new(1).capacity(), 4);
    assert_eq!(PcmRingBuffer::<f32>::new(100).capacity(), 128);
    assert_eq!(PcmRingBuffer::<f32>::new(16384).capacity(), 16384);
}

#[test]
fn drops_samples_when_full() {
    let mut ring = PcmRingBuffer::new(8);
    let data = [0.5f32; 12];
    let accepted = ring.write(&data);
    assert_eq!(accepted, 8);
    let mut out = [0.0f32; 16];
    assert_eq!(ring.read_into(&mut out), 8);
    assert!(out[..8].iter().all(|&v| v == 0.5));
}

#[test]
fn wraps_around_correctly() {
    let mut ring = PcmRingBuffer::new(4);
    let mut expected = 1.0f32;
    for _ in 0..10 {
        let n = ring.write(&[expected, expected + 1.0]);
        assert_eq!(n, 2);
        let mut out = [0.0f32; 2];
        assert_eq!(ring.read_into(&mut out), 2);
        assert_eq!(out[0], expected);
        assert_eq!(out[1], expected + 1.0);
        expected += 2.0;
    }
}

#[test]
fn clear_drops_pending_data() {
    let mut ring = PcmRingBuffer::new(16);
    ring.write(&[9.0, 9.0]);
    ring.clear();
    assert_eq!(ring.available(), 0);
    let mut out = [0.0f32; 4];
    assert_eq!(ring.read_into(&mut out), 0);
}

#[test]
fn fifo_order_survives_partial_reads() {
    let mut ring = PcmRingBuffer::new(8);
    assert_eq!(ring.write(&[1u32, 2, 3, 4, 5]), 5);
    let mut out = [0u32; 2];
    assert_eq!(ring.read_into(&mut out), 2);
    assert_eq!(out, [1, 2]);
    assert_eq!(ring.write(&[6, 7, 8, 9, 10, 11]), 5);
    assert_eq!(ring.available(), 8);
    let mut rest = [0u32; 10];
    assert_eq!(ring.read_into(&mut rest), 8);
    assert_eq!(rest, [3, 4, 5, 6, 7, 8, 9, 10, 0, 0]);
}

#[test]
fn full_buffer_accepts_nothing_and_keeps_contents() {
    let mut ring = PcmRingBuffer::new(4);
    assert_eq!(ring.write(&[1u8, 2, 3, 4]), 4);
    assert_eq!(ring.write(&[7u8, 7]), 0);
    let mut out = [0u8; 4];
    assert_eq!(ring.read_into(&mut out), 4);
    assert_eq!(out, [1, 2, 3, 4]);
}

#[test]
fn read_leaves_untouched_tail_of_destination() {
    let mut ring = PcmRingBuffer::new(4);
    ring.write(&[5i16]);
    let mut out = [9i16; 3];
    assert_eq!(ring.read_into(&mut out), 1);
    assert_eq!(out, [5, 9, 9]);
}

#[test]
fn capacity_never_changes_and_bounds_contents() {
    let mut ring = PcmRingBuffer::new(5);
    assert_eq!(ring.capacity(), 8);
    for round in 0..20u32 {
        ring.write(&[round; 3]);
        assert!(ring.available() <= ring.capacity());
        assert_eq!(ring.capacity(), 8);
        let mut out = [0u32; 1];
        ring.read_into(&mut out);
    }
}
