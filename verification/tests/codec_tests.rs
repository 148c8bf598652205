use audio_capture::normalize::{interleave_planar, packet_samples, words_from_le_bytes};
use audio_capture::sample::quantize_sample;
use audio_capture::{
    extract_audio_samples, samples_to_wav, start_capture, stop_capture, AudioCaptureState,
    BackendKind, StartAction, StartEvent,
};
use base64::Engine;

fn bits(values: &[f32]) -> Vec<u32> {
    values.iter().map(|v| v.to_bits()).collect()
}

#[test]
fn quantize_full_scale_boundaries() {
    assert_eq!(quantize_sample(1.0f32.to_bits()), 32767);
    assert_eq!(quantize_sample((-1.0f32).to_bits()), -32767);
    // Out-of-range input clamps to the same output as full scale.
    assert_eq!(quantize_sample(1.5f32.to_bits()), 32767);
    assert_eq!(quantize_sample((-1.5f32).to_bits()), -32767);
    assert_eq!(
        quantize_sample(1.5f32.to_bits()),
        quantize_sample(1.0f32.to_bits())
    );
}

#[test]
fn quantize_ordinary_values() {
    assert_eq!(quantize_sample(0.0f32.to_bits()), 0);
    assert_eq!(quantize_sample((-0.0f32).to_bits()), 0);
    assert_eq!(quantize_sample(0.5f32.to_bits()), 16383);
    assert_eq!(quantize_sample((-0.5f32).to_bits()), -16383);
    assert_eq!(quantize_sample(f32::INFINITY.to_bits()), 32767);
    assert_eq!(quantize_sample(f32::NEG_INFINITY.to_bits()), -32767);
    assert_eq!(quantize_sample(f32::NAN.to_bits()), 0);
    // A subnormal is far below one quantization step.
    assert_eq!(quantize_sample(1u32), 0);
}

#[test]
fn quantize_tracks_float_scaling_within_one_step() {
    let probes = [0.1f32, 0.25, 0.33333, 0.7071, 0.9, 0.99997, -0.1, -0.6, -0.99997];
    for &v in probes.iter() {
        let expected = (v.clamp(-1.0, 1.0) * 32767.0) as i16;
        let got = quantize_sample(v.to_bits());
        assert!(
            (got as i32 - expected as i32).abs() <= 1,
            "value {} quantized to {}, float scaling gives {}",
            v,
            got,
            expected
        );
    }
}

#[test]
fn planar_equal_lengths_interleave() {
    let channels = vec![bits(&[1.0, 2.0, 3.0]), bits(&[10.0, 20.0, 30.0])];
    let r = interleave_planar(&channels);
    assert_eq!(r, bits(&[1.0, 10.0, 2.0, 20.0, 3.0, 30.0]));
}

#[test]
fn planar_mismatched_lengths_pad_with_silence() {
    let channels = vec![bits(&[1.0, 2.0, 3.0]), bits(&[10.0, 20.0])];
    let r = interleave_planar(&channels);
    assert_eq!(r, bits(&[1.0, 10.0, 2.0, 20.0, 3.0, 0.0]));
}

#[test]
fn words_decode_little_endian() {
    let one = 1.0f32.to_bits().to_le_bytes();
    let half = 0.5f32.to_bits().to_le_bytes();
    let mut buffer: Vec<u8> = Vec::new();
    buffer.extend_from_slice(&one);
    buffer.extend_from_slice(&half);
    let words = words_from_le_bytes(&buffer);
    assert_eq!(words, bits(&[1.0, 0.5]));
    // A trailing fragment shorter than one sample is dropped.
    buffer.push(0x7f);
    assert_eq!(words_from_le_bytes(&buffer), bits(&[1.0, 0.5]));
}

#[test]
fn extract_single_buffer_passes_through() {
    let mut buffer: Vec<u8> = Vec::new();
    for v in [0.5f32, -0.5, 1.0, -1.0] {
        buffer.extend_from_slice(&v.to_bits().to_le_bytes());
    }
    let r = extract_audio_samples(&vec![buffer]);
    assert_eq!(r, bits(&[0.5, -0.5, 1.0, -1.0]));
}

#[test]
fn extract_planar_buffers_interleaves() {
    let left: Vec<u8> = [1.0f32, 2.0, 3.0]
        .iter()
        .flat_map(|v| v.to_bits().to_le_bytes())
        .collect();
    let right: Vec<u8> = [10.0f32, 20.0]
        .iter()
        .flat_map(|v| v.to_bits().to_le_bytes())
        .collect();
    let r = extract_audio_samples(&vec![left, right]);
    assert_eq!(r, bits(&[1.0, 10.0, 2.0, 20.0, 3.0, 0.0]));
    assert!(extract_audio_samples(&Vec::new()).is_empty());
}

#[test]
fn wav_layout_is_canonical() {
    let samples = bits(&[1.0, -1.0, 0.5, 0.0]);
    let wav = samples_to_wav(&samples, 48000, 2).expect("whole frames must encode");

    assert_eq!(wav.len(), 44 + 2 * samples.len());
    assert_eq!(&wav[0..4], b"RIFF");
    assert_eq!(u32::from_le_bytes(wav[4..8].try_into().unwrap()), 36 + 8);
    assert_eq!(&wav[8..12], b"WAVE");
    assert_eq!(&wav[12..16], b"fmt ");
    assert_eq!(u32::from_le_bytes(wav[16..20].try_into().unwrap()), 16);
    assert_eq!(u16::from_le_bytes(wav[20..22].try_into().unwrap()), 1);
    assert_eq!(u16::from_le_bytes(wav[22..24].try_into().unwrap()), 2);
    assert_eq!(u32::from_le_bytes(wav[24..28].try_into().unwrap()), 48000);
    assert_eq!(
        u32::from_le_bytes(wav[28..32].try_into().unwrap()),
        48000 * 2 * 2
    );
    assert_eq!(u16::from_le_bytes(wav[32..34].try_into().unwrap()), 4);
    assert_eq!(u16::from_le_bytes(wav[34..36].try_into().unwrap()), 16);
    assert_eq!(&wav[36..40], b"data");
    assert_eq!(u32::from_le_bytes(wav[40..44].try_into().unwrap()), 8);
    assert_eq!(i16::from_le_bytes(wav[44..46].try_into().unwrap()), 32767);
    assert_eq!(i16::from_le_bytes(wav[46..48].try_into().unwrap()), -32767);
    assert_eq!(i16::from_le_bytes(wav[48..50].try_into().unwrap()), 16383);
    assert_eq!(i16::from_le_bytes(wav[50..52].try_into().unwrap()), 0);
}

#[test]
fn unfinished_frame_is_an_encoder_error() {
    // Three samples cannot fill whole stereo frames.
    let samples = bits(&[0.1, 0.2, 0.3]);
    assert!(samples_to_wav(&samples, 48000, 2).is_err());
    assert!(samples_to_wav(&samples, 48000, 1).is_ok());
}

#[test]
fn capture_round_trip_reproduces_format_and_samples() {
    let input = [0.5f32, -0.25, 1.0, -1.0, 0.0, 0.125];

    let mut state = AudioCaptureState::new();
    state.set_backend(BackendKind::EventDriven);
    let action = start_capture(&mut state, 5, 0).expect("start must succeed");
    assert!(matches!(action, StartAction::BeginBackend));
    state
        .confirm_start(StartEvent::Ready {
            sample_rate: 48000,
            channels: 2,
        })
        .expect("format must be accepted");
    state.append_samples(&bits(&input));

    let encoded = stop_capture(&mut state).expect("a non-empty capture must encode");

    let wav_bytes = base64::engine::general_purpose::STANDARD
        .decode(&encoded)
        .expect("the result must be valid standard base64");
    assert!(!wav_bytes.is_empty());

    let mut reader = hound::WavReader::new(std::io::Cursor::new(&wav_bytes))
        .expect("the result must be a readable container");
    assert_eq!(reader.spec().sample_rate, 48000);
    assert_eq!(reader.spec().channels, 2);
    assert_eq!(reader.spec().bits_per_sample, 16);
    assert_eq!(reader.spec().sample_format, hound::SampleFormat::Int);

    let decoded: Vec<i16> = reader.samples::<i16>().map(|s| s.unwrap()).collect();
    assert_eq!(decoded.len(), input.len());
    for (v, d) in input.iter().zip(decoded.iter()) {
        let expected = (v.clamp(-1.0, 1.0) * 32767.0) as i16;
        assert!(
            (*d as i32 - expected as i32).abs() <= 1,
            "sample {} decoded to {}, expected about {}",
            v,
            d,
            expected
        );
    }
}

#[test]
fn encoded_text_is_standard_base64_of_the_container() {
    let input = bits(&[0.25f32, -0.75]);

    let mut state = AudioCaptureState::new();
    state.set_backend(BackendKind::PollLoop);
    start_capture(&mut state, 5, 0).expect("start must succeed");
    state
        .confirm_start(StartEvent::Ready {
            sample_rate: 44100,
            channels: 1,
        })
        .expect("format must be accepted");
    state.append_samples(&input);
    let encoded = stop_capture(&mut state).expect("a non-empty capture must encode");

    let container = samples_to_wav(&input, 44100, 1).expect("whole frames must encode");
    assert_eq!(
        encoded,
        base64::engine::general_purpose::STANDARD.encode(&container)
    );
    // Padded tail: 48 container bytes make 64 base64 digits, no line breaks.
    assert_eq!(encoded.len(), 64);
    assert!(!encoded.contains('\n'));
}

#[test]
fn packet_takes_only_reported_frames() {
    let mut buffer: Vec<u8> = Vec::new();
    for v in [0.1f32, 0.2, 0.3, 0.4] {
        buffer.extend_from_slice(&v.to_bits().to_le_bytes());
    }
    // One stereo frame reported: two samples, the rest of the buffer ignored.
    assert_eq!(packet_samples(&buffer, 1, 2), bits(&[0.1, 0.2]));
    // A frame count past the end of the buffer never reads past it.
    assert_eq!(packet_samples(&buffer, 100, 2), bits(&[0.1, 0.2, 0.3, 0.4]));
    assert_eq!(packet_samples(&buffer, 0, 2), bits(&[]));
}
