use airwire::jitter::JitterBuffer;
use airwire::AudioConfig;

#[test]
fn push_then_pop_returns_the_samples() {
    let mut buffer: JitterBuffer<f32> = JitterBuffer::new(16, false, 0.0);
    let samples = [0.25f32, -0.5, 0.75, 1.0, -1.0];
    assert_eq!(buffer.push(&samples), 0);
    assert_eq!(buffer.len(), 5);
    let mut out = [9.0f32; 5];
    assert_eq!(buffer.pop_into(&mut out), 5);
    assert_eq!(out, samples);
    assert_eq!(buffer.len(), 0);
}

#[test]
fn pop_on_empty_is_silence() {
    let mut buffer: JitterBuffer<f32> = JitterBuffer::new(16, false, 0.0);
    let mut out = [9.0f32; 7];
    assert_eq!(buffer.pop_into(&mut out), 0);
    assert_eq!(out, [0.0f32; 7]);
    let mut nothing: [f32; 0] = [];
    assert_eq!(buffer.pop_into(&mut nothing), 0);
}

#[test]
fn order_is_kept_across_pushes_and_pops() {
    let mut buffer: JitterBuffer<i16> = JitterBuffer::new(100, false, 0);
    assert_eq!(buffer.push(&[1, 2, 3]), 0);
    assert_eq!(buffer.push(&[4, 5]), 0);
    let mut first = [0i16; 2];
    assert_eq!(buffer.pop_into(&mut first), 2);
    assert_eq!(first, [1, 2]);
    assert_eq!(buffer.push(&[6]), 0);
    let mut rest = [0i16; 4];
    assert_eq!(buffer.pop_into(&mut rest), 4);
    assert_eq!(rest, [3, 4, 5, 6]);
}

#[test]
fn underrun_is_filled_with_silence() {
    let mut buffer: JitterBuffer<i16> = JitterBuffer::new(100, false, -7);
    buffer.push(&[1, 2, 3]);
    let mut out = [99i16; 5];
    assert_eq!(buffer.pop_into(&mut out), 3);
    assert_eq!(out, [1, 2, 3, -7, -7]);
    assert_eq!(buffer.len(), 0);
}

#[test]
fn swap_exchanges_each_pair() {
    let mut buffer: JitterBuffer<i16> = JitterBuffer::new(100, true, 0);
    buffer.push(&[1, 2, 3, 4, 5, 6]);
    let mut out = [0i16; 6];
    assert_eq!(buffer.pop_into(&mut out), 6);
    assert_eq!(out, [2, 1, 4, 3, 6, 5]);
}

#[test]
fn swap_keeps_a_sample_without_partner() {
    let mut buffer: JitterBuffer<i16> = JitterBuffer::new(100, true, 0);
    buffer.push(&[1, 2, 3]);
    let mut out = [0i16; 3];
    assert_eq!(buffer.pop_into(&mut out), 3);
    assert_eq!(out, [2, 1, 3]);
}

#[test]
fn overflow_drops_the_oldest() {
    let mut buffer: JitterBuffer<i16> = JitterBuffer::new(4, false, 0);
    assert_eq!(buffer.push(&[1, 2, 3]), 0);
    assert_eq!(buffer.push(&[4, 5, 6]), 2);
    assert_eq!(buffer.len(), 4);
    assert_eq!(buffer.limit(), 4);
    let mut out = [0i16; 4];
    assert_eq!(buffer.pop_into(&mut out), 4);
    assert_eq!(out, [3, 4, 5, 6]);
}

#[test]
fn oversized_push_keeps_the_newest() {
    let mut buffer: JitterBuffer<i16> = JitterBuffer::new(3, false, 0);
    buffer.push(&[1, 2]);
    assert_eq!(buffer.push(&[3, 4, 5, 6, 7]), 4);
    let mut out = [0i16; 4];
    assert_eq!(buffer.pop_into(&mut out), 3);
    assert_eq!(out, [5, 6, 7, 0]);
}

#[test]
fn oversized_push_with_swap() {
    let mut buffer: JitterBuffer<i16> = JitterBuffer::new(3, true, 0);
    assert_eq!(buffer.push(&[1, 2, 3, 4, 5, 6]), 3);
    let mut out = [0i16; 3];
    assert_eq!(buffer.pop_into(&mut out), 3);
    assert_eq!(out, [3, 6, 5]);
}

#[test]
fn zero_capacity_holds_nothing() {
    let mut buffer: JitterBuffer<i16> = JitterBuffer::new(0, false, 0);
    assert_eq!(buffer.push(&[1, 2]), 2);
    assert_eq!(buffer.len(), 0);
}

#[test]
fn buffer_from_configuration() {
    let mut config = AudioConfig::default();
    config.stereo_swap = true;
    let mut buffer: JitterBuffer<f32> = JitterBuffer::from_config(&config, 0.0);
    assert_eq!(buffer.limit(), 48 * 480 * 2);
    buffer.push(&[0.1, 0.2]);
    let mut out = [0.0f32; 2];
    buffer.pop_into(&mut out);
    assert_eq!(out, [0.2, 0.1]);
    config.channels = 1;
    let mut mono: JitterBuffer<f32> = JitterBuffer::from_config(&config, 0.0);
    assert_eq!(mono.limit(), 48 * 480);
    mono.push(&[0.1, 0.2]);
    mono.pop_into(&mut out);
    assert_eq!(out, [0.1, 0.2]);
}
