use speech_capture::buffer::{
    detect_speech, sum_of_squares, AudioBuffer, FULL_SCALE, MAX_SAMPLES, MIN_SPEECH_DURATION_MS,
    SAMPLE_RATE, TRAILING_SILENCE_STEPS,
};

fn pcm(amplitude: f32) -> i16 {
    (amplitude.max(-1.0).min(1.0) * 32767.0).round() as i16
}

fn pcm_chunk(amplitudes: &[f32]) -> Vec<i16> {
    amplitudes.iter().map(|&a| pcm(a)).collect()
}

#[test]
fn test_audio_buffer_push() {
    let mut buffer = AudioBuffer::new();
    let samples = pcm_chunk(&[0.1, 0.2, 0.3]);
    buffer.push_samples(&samples);
    assert_eq!(buffer.len(), 3);
}

#[test]
fn test_vad_detection() {
    let buffer = AudioBuffer::new();

    // Silence
    let silence = pcm_chunk(&vec![0.0; 100]);
    assert!(!buffer.has_speech(&silence));

    // Speech
    let speech = pcm_chunk(&vec![0.1; 100]);
    assert!(buffer.has_speech(&speech));
}

#[test]
fn test_buffer_max_capacity() {
    let mut buffer = AudioBuffer::new();
    let max_samples = buffer.capacity();

    // Fill beyond capacity
    let samples = pcm_chunk(&vec![0.1; max_samples + 1000]);
    buffer.push_samples(&samples);

    // Should not exceed max
    assert_eq!(buffer.len(), max_samples);
}

#[test]
fn constants_have_their_values() {
    assert_eq!(SAMPLE_RATE, 16000);
    assert_eq!(MAX_SAMPLES, 480000);
    assert_eq!(MIN_SPEECH_DURATION_MS, 500);
    assert_eq!(TRAILING_SILENCE_STEPS, 16000);
    assert_eq!(FULL_SCALE, 32767);
    assert_eq!(AudioBuffer::new().capacity(), SAMPLE_RATE * 30);
}

#[test]
fn new_buffer_is_empty_and_idle() {
    let buffer = AudioBuffer::new();
    assert_eq!(buffer.len(), 0);
    assert_eq!(buffer.duration_ms(), 0);
    assert!(!buffer.should_transcribe());
    let other = AudioBuffer::default();
    assert_eq!(other.len(), 0);
}

#[test]
fn push_of_nothing_changes_nothing() {
    let mut buffer = AudioBuffer::new();
    buffer.push_samples(&[1, 2, 3]);
    buffer.push_samples(&[]);
    assert_eq!(buffer.extract_for_transcription(), vec![1, 2, 3]);
}

#[test]
fn pushes_keep_order() {
    let mut buffer = AudioBuffer::new();
    buffer.push_samples(&[1, 2]);
    buffer.push_samples(&[3]);
    buffer.push_samples(&[4, 5, 6]);
    assert_eq!(buffer.len(), 6);
    assert_eq!(buffer.extract_for_transcription(), vec![1, 2, 3, 4, 5, 6]);
}

#[test]
fn overflow_drops_the_oldest_samples() {
    let mut buffer = AudioBuffer::new();
    let total = MAX_SAMPLES + 1234;
    let input: Vec<i16> = (0..total).map(|i| (i % 30011) as i16).collect();
    buffer.push_samples(&input[..100_000]);
    buffer.push_samples(&input[100_000..total - 7]);
    buffer.push_samples(&input[total - 7..]);
    assert_eq!(buffer.len(), MAX_SAMPLES);
    let kept = buffer.extract_for_transcription();
    assert_eq!(kept.len(), MAX_SAMPLES);
    assert_eq!(kept[0], input[1234]);
    assert_eq!(kept[MAX_SAMPLES - 1], input[total - 1]);
    assert!(kept == input[1234..]);
}

#[test]
fn exactly_full_buffer_drops_nothing() {
    let mut buffer = AudioBuffer::new();
    let input: Vec<i16> = (0..MAX_SAMPLES).map(|i| (i % 1000) as i16).collect();
    buffer.push_samples(&input);
    assert_eq!(buffer.len(), MAX_SAMPLES);
    buffer.push_samples(&[-5]);
    assert_eq!(buffer.len(), MAX_SAMPLES);
    let kept = buffer.extract_for_transcription();
    assert_eq!(kept[0], input[1]);
    assert_eq!(kept[MAX_SAMPLES - 1], -5);
}

#[test]
fn sum_of_squares_is_exact() {
    assert_eq!(sum_of_squares(&[]), 0);
    assert_eq!(sum_of_squares(&[3, -4]), 25);
    assert_eq!(sum_of_squares(&[i16::MIN, i16::MAX]), 1073741824 + 1073676289);
}

#[test]
fn silence_is_never_speech() {
    assert!(!detect_speech(&[]));
    assert!(!detect_speech(&[0]));
    assert!(!detect_speech(&vec![0; 32000]));
}

#[test]
fn threshold_is_strict_and_symmetric() {
    // 0.02 of full scale is 655.34
    assert!(!detect_speech(&vec![655; 10]));
    assert!(detect_speech(&vec![656; 10]));
    assert!(!detect_speech(&vec![-655; 10]));
    assert!(detect_speech(&vec![-656; 10]));
    assert!(detect_speech(&[656]));
    assert!(detect_speech(&vec![i16::MIN; 3]));
}

#[test]
fn energy_is_averaged_over_the_chunk() {
    // one loud sample among silence: mean square 3276^2 / n
    let mut chunk = vec![0i16; 24];
    chunk[0] = 3276;
    // 2500 * 3276^2 = 26_830_440_000 against n * 1_073_676_289
    assert!(detect_speech(&chunk));
    chunk.push(0);
    assert!(!detect_speech(&chunk));
}

#[test]
fn detection_ignores_buffer_contents() {
    let mut buffer = AudioBuffer::new();
    buffer.push_samples(&vec![20000; 1000]);
    assert!(!buffer.has_speech(&vec![0; 100]));
    assert!(buffer.has_speech(&vec![1000; 100]));
}

#[test]
fn speech_start_is_taken_before_the_chunk() {
    let mut buffer = AudioBuffer::new();
    buffer.push_samples(&vec![0; 100]);
    buffer.update_speech_state(true);
    buffer.push_samples(&vec![1000; 7999]);
    for _ in 0..TRAILING_SILENCE_STEPS {
        buffer.update_speech_state(false);
    }
    // 7999 samples since the start: 499 ms
    assert!(!buffer.should_transcribe());
    buffer.push_samples(&[0]);
    // 8000 samples since the start: 500 ms
    assert!(buffer.should_transcribe());
}

#[test]
fn ready_needs_the_full_silence_count() {
    let mut buffer = AudioBuffer::new();
    buffer.update_speech_state(true);
    buffer.push_samples(&vec![1000; 9600]);
    assert!(!buffer.should_transcribe());
    for _ in 0..TRAILING_SILENCE_STEPS - 1 {
        buffer.update_speech_state(false);
    }
    assert!(!buffer.should_transcribe());
    buffer.update_speech_state(false);
    assert!(buffer.should_transcribe());
    // asking again changes nothing
    assert!(buffer.should_transcribe());
    buffer.update_speech_state(false);
    assert!(buffer.should_transcribe());
}

#[test]
fn speech_resets_the_silence_count() {
    let mut buffer = AudioBuffer::new();
    buffer.update_speech_state(true);
    buffer.push_samples(&vec![1000; 9600]);
    for _ in 0..TRAILING_SILENCE_STEPS - 1 {
        buffer.update_speech_state(false);
    }
    buffer.update_speech_state(true);
    buffer.update_speech_state(false);
    assert!(!buffer.should_transcribe());
    for _ in 0..TRAILING_SILENCE_STEPS - 1 {
        buffer.update_speech_state(false);
    }
    assert!(buffer.should_transcribe());
}

#[test]
fn silence_alone_is_never_ready() {
    let mut buffer = AudioBuffer::new();
    buffer.push_samples(&vec![0; 32000]);
    for _ in 0..2 * TRAILING_SILENCE_STEPS {
        buffer.update_speech_state(false);
    }
    assert!(!buffer.should_transcribe());
}

#[test]
fn extract_returns_everything_and_resets() {
    let mut buffer = AudioBuffer::new();
    buffer.push_samples(&[7, 8]);
    buffer.update_speech_state(true);
    buffer.push_samples(&vec![1000; 9600]);
    for _ in 0..TRAILING_SILENCE_STEPS {
        buffer.update_speech_state(false);
    }
    assert!(buffer.should_transcribe());
    let audio = buffer.extract_for_transcription();
    assert!(audio.len() <= MAX_SAMPLES);
    assert_eq!(audio.len(), 9602);
    assert_eq!(&audio[..3], &[7, 8, 1000]);
    assert_eq!(buffer.len(), 0);
    assert!(!buffer.should_transcribe());
    // the silence count starts over as well
    buffer.update_speech_state(true);
    buffer.push_samples(&vec![1000; 9600]);
    assert!(!buffer.should_transcribe());
    assert_eq!(buffer.extract_for_transcription().len(), 9600);
    assert!(buffer.extract_for_transcription().is_empty());
}

#[test]
fn clear_resets_like_extract() {
    let mut buffer = AudioBuffer::new();
    buffer.update_speech_state(true);
    buffer.push_samples(&vec![1000; 9600]);
    for _ in 0..TRAILING_SILENCE_STEPS {
        buffer.update_speech_state(false);
    }
    buffer.clear();
    assert_eq!(buffer.len(), 0);
    assert!(!buffer.should_transcribe());
    for _ in 0..TRAILING_SILENCE_STEPS {
        buffer.update_speech_state(false);
    }
    assert!(!buffer.should_transcribe());
}

#[test]
fn duration_is_in_whole_milliseconds() {
    let mut buffer = AudioBuffer::new();
    buffer.push_samples(&vec![0; 15]);
    assert_eq!(buffer.duration_ms(), 0);
    buffer.push_samples(&[0]);
    assert_eq!(buffer.duration_ms(), 1);
    buffer.push_samples(&vec![0; 16000 - 16]);
    assert_eq!(buffer.duration_ms(), 1000);
    buffer.push_samples(&vec![0; MAX_SAMPLES]);
    assert_eq!(buffer.duration_ms(), 30000);
}
