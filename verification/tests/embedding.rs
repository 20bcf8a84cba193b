use meetily::embedding::{
    active_frames, check_audio_length, frame_mask, padded_waveform, prepare_embedding_input,
    EMBEDDING_DIM, MASK_LEN, SAMPLE_RATE, WAVEFORM_LEN,
};

#[test]
fn model_dimensions() {
    assert_eq!(WAVEFORM_LEN, 160_000);
    assert_eq!(MASK_LEN, 589);
    assert_eq!(EMBEDDING_DIM, 256);
    assert_eq!(SAMPLE_RATE, 16_000);
}

#[test]
fn short_audio_is_refused() {
    assert_eq!(check_audio_length(7_999, 16_000), Err("Audio too short for embedding (need at least 0.5s)".to_string()));
    assert_eq!(check_audio_length(0, 16_000).is_err(), true);
    assert_eq!(check_audio_length(8_000, 16_000), Ok(8_000));
    assert_eq!(check_audio_length(200_000, 16_000), Ok(160_000));
    assert_eq!(check_audio_length(0, 1), Ok(0));
}

#[test]
fn active_frames_round_up() {
    assert_eq!(active_frames(0), 1);
    assert_eq!(active_frames(1), 1);
    assert_eq!(active_frames(8_000), 30);
    assert_eq!(active_frames(80_000), 295);
    assert_eq!(active_frames(159_999), 589);
    assert_eq!(active_frames(160_000), 589);
    for len in [8_000usize, 12_345, 99_999, 160_000] {
        let ratio = len as f64 / WAVEFORM_LEN as f64;
        let expected = ((ratio * MASK_LEN as f64).ceil() as usize).clamp(1, MASK_LEN);
        assert_eq!(active_frames(len), expected);
    }
}

#[test]
fn waveform_is_padded_and_cut() {
    let short: Vec<i32> = (1..=5).collect();
    let w = padded_waveform(&short, 0);
    assert_eq!(w.len(), WAVEFORM_LEN);
    assert_eq!(&w[..5], &[1, 2, 3, 4, 5]);
    assert!(w[5..].iter().all(|&x| x == 0));
    let long: Vec<u32> = (0..200_000u32).collect();
    let w = padded_waveform(&long, 7);
    assert_eq!(w.len(), WAVEFORM_LEN);
    assert_eq!(w[WAVEFORM_LEN - 1], 159_999);
}

#[test]
fn mask_marks_active_frames() {
    let m = frame_mask(3, 1u8, 0u8);
    assert_eq!(m.len(), MASK_LEN);
    assert_eq!(&m[..4], &[1, 1, 1, 0]);
    assert_eq!(m.iter().filter(|&&x| x == 1).count(), 3);
}

#[test]
fn embedding_input_for_float_audio() {
    let audio = vec![0.5f32; 16_000];
    let input = prepare_embedding_input(&audio, 16_000, 0.0f32, 1.0f32).unwrap();
    assert_eq!(input.waveform.len(), 160_000);
    assert_eq!(input.waveform[15_999], 0.5);
    assert_eq!(input.waveform[16_000], 0.0);
    assert_eq!(input.mask.len(), 589);
    let ones = input.mask.iter().filter(|&&x| x == 1.0).count();
    assert_eq!(ones, 59);
    assert_eq!(input.mask[58], 1.0);
    assert_eq!(input.mask[59], 0.0);
}

#[test]
fn embedding_input_refuses_short_clip() {
    let audio = vec![0.1f32; 100];
    let err = prepare_embedding_input(&audio, 16_000, 0.0f32, 1.0f32).unwrap_err();
    assert_eq!(err, "Audio too short for embedding (need at least 0.5s)");
}

#[test]
fn active_frames_grow_and_cover_audio() {
    let mut previous = 0;
    for len in (1..=WAVEFORM_LEN).step_by(997) {
        let f = active_frames(len);
        assert!(f >= previous);
        assert!((1..=MASK_LEN).contains(&f));
        assert!(f * WAVEFORM_LEN >= len * MASK_LEN);
        assert!((f - 1) * WAVEFORM_LEN < len * MASK_LEN);
        previous = f;
    }
}
