use std::sync::{Arc, Mutex};

use airwire::audio::{CodecError, Decoder, Encoder, PCMCodec};
use airwire::jitter::JitterBuffer;
use airwire::monitor::BufferMonitor;
use airwire::receive::{ReceiveOutcome, ReceivePipeline};
use airwire::transmit::{FrameOutcome, TransmitPipeline};
use airwire::AudioConfig;

struct FloatPcm {
    inner: PCMCodec,
    quantized: Vec<i16>,
}

impl FloatPcm {
    fn new(config: &AudioConfig) -> Self {
        FloatPcm { inner: PCMCodec::new(config), quantized: Vec::new() }
    }
}

impl Encoder<f32> for FloatPcm {
    fn encode(&mut self, input: &[f32], output: &mut Vec<u8>) -> Result<(), CodecError> {
        self.quantized.clear();
        self.quantized
            .extend(input.iter().map(|s| (s.max(-1.0).min(1.0) * 32767.0) as i16));
        self.inner.encode(&self.quantized, output)
    }
}

impl Decoder<f32> for FloatPcm {
    fn decode(&mut self, input: &[u8], output: &mut Vec<f32>) -> Result<(), CodecError> {
        self.inner.decode(input, &mut self.quantized)?;
        output.clear();
        output.extend(self.quantized.iter().map(|s| (*s as f32 / 32767.0).min(1.0).max(-1.0)));
        Ok(())
    }
}

fn run_as_callback<F: FnMut(&[f32]) -> Vec<Vec<u8>> + Send + 'static>(
    mut capture: F,
    batches: Vec<Vec<f32>>,
) -> Vec<Vec<Vec<u8>>> {
    batches.iter().map(|batch| capture(batch)).collect()
}

#[test]
fn float_stream_from_capture_to_playback() {
    let config = AudioConfig::default();
    let mut sender: TransmitPipeline<f32> = TransmitPipeline::from_config(&config, 0.0).unwrap();
    let mut encoder = FloatPcm::new(&config);
    let samples: Vec<f32> = (0..960).map(|i| ((i as f32) / 480.0) - 1.0).collect();
    let batches: Vec<Vec<f32>> = samples.chunks(320).map(|c| c.to_vec()).collect();

    let sent = run_as_callback(
        move |data: &[f32]| {
            sender
                .feed(data, &mut encoder)
                .into_iter()
                .map(|outcome| match outcome {
                    FrameOutcome::Send { packet, copies } => {
                        assert_eq!(copies, 1);
                        packet
                    },
                    FrameOutcome::Dropped(e) => panic!("dropped: {:?}", e),
                })
                .collect()
        },
        batches,
    );
    assert_eq!(sent.iter().map(|p| p.len()).collect::<Vec<usize>>(), vec![0, 0, 1]);
    let packet = &sent[2][0];
    assert_eq!(packet.len(), 2 + 2 * 960);

    let queue: Arc<Mutex<JitterBuffer<f32>>> =
        Arc::new(Mutex::new(JitterBuffer::from_config(&config, 0.0)));
    let network_side = queue.clone();
    let datagram = packet.clone();
    let mut receiver: ReceivePipeline<f32> = ReceivePipeline::from_config(&config);
    let mut decoder = FloatPcm::new(&config);
    assert_eq!(receiver.receive(&datagram, &mut decoder), ReceiveOutcome::Decoded);
    assert_eq!(receiver.deliver(&mut network_side.lock().unwrap()), 0);

    let mut monitor = BufferMonitor::new(1000, 48000, 2);
    let mut played = vec![9.0f32; 1000];
    let mut guard = queue.lock().unwrap();
    let filled = guard.pop_into(&mut played[..]);
    assert_eq!(filled, 960);
    let report = monitor.record(played.len(), filled, guard.len()).unwrap();
    assert_eq!((report.requested, report.filled, report.queued), (1000, 960, 0));
    assert_eq!(report.requested_ms, Some(10));
    for (sample, out) in samples.iter().zip(played.iter()) {
        assert!((sample - out).abs() <= 1.0 / 32767.0, "{} came back as {}", sample, out);
    }
    assert!(played[960..].iter().all(|s| *s == 0.0));
}
