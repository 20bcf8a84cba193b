//! Input preparation for the speaker-embedding model: the model takes a
//! fixed window of audio samples and a frame mask that marks which of its
//! frames hold audio. The samples themselves are of any copyable type, so
//! the arithmetic on them stays with the caller.

use vstd::prelude::*;

verus! {

/// Samples in the model's fixed window (10 s at 16 kHz).
pub const WAVEFORM_LEN: usize = 160000;

/// Frames in the model's mask.
pub const MASK_LEN: usize = 589;

/// Length of the embedding the model produces.
pub const EMBEDDING_DIM: usize = 256;

/// Sample rate, in Hz, of the audio the model takes.
pub const SAMPLE_RATE: u32 = 16000;

/// The smallest integer not below `a / b`, for `b > 0`.
pub open spec fn ceil_div(a: int, b: int) -> int {
    (a + b - 1) / b
}

/// `x` limited to the range `lo ..= hi`.
pub open spec fn clamp(x: int, lo: int, hi: int) -> int {
    if x < lo {
        lo
    } else if x > hi {
        hi
    } else {
        x
    }
}

/// The smaller of two integers.
pub open spec fn min(a: int, b: int) -> int {
    if a <= b {
        a
    } else {
        b
    }
}

/// Number of mask frames marked active when `copy_len` samples of the
/// window hold audio: the same share of the mask as of the window, rounded
/// up, and at least one frame.
pub open spec fn spec_active_frames(copy_len: int) -> int {
    clamp(ceil_div(copy_len * MASK_LEN, WAVEFORM_LEN as int), 1, MASK_LEN as int)
}

/// The shortest clip the model accepts: half a second at `sample_rate`.
pub open spec fn min_audio_len(sample_rate: u32) -> int {
    sample_rate as int / 2
}

/// Checks that a clip of `audio_len` samples is long enough, and returns
/// how many of its samples fit in the model's window.
pub fn check_audio_length(audio_len: usize, sample_rate: u32) -> (copy_len: Result<usize, String>)
    ensures
        match copy_len {
            Ok(c) => audio_len >= min_audio_len(sample_rate) && c == min(
                audio_len as int,
                WAVEFORM_LEN as int,
            ),
            Err(msg) => audio_len < min_audio_len(sample_rate) && msg@
                == "Audio too short for embedding (need at least 0.5s)"@,
        },
{
    if audio_len < (sample_rate as usize / 2) {
        return Err(String::from_str("Audio too short for embedding (need at least 0.5s)"));
    }
    if audio_len < WAVEFORM_LEN {
        Ok(audio_len)
    } else {
        Ok(WAVEFORM_LEN)
    }
}

/// Number of active mask frames for `copy_len` samples of audio.
pub fn active_frames(copy_len: usize) -> (frames: usize)
    requires
        copy_len <= WAVEFORM_LEN,
    ensures
        frames == spec_active_frames(copy_len as int),
{
    assert(copy_len * MASK_LEN <= WAVEFORM_LEN * MASK_LEN) by (nonlinear_arith)
        requires
            copy_len <= WAVEFORM_LEN,
    ;
    let frames = (copy_len * MASK_LEN + WAVEFORM_LEN - 1) / WAVEFORM_LEN;
    if frames < 1 {
        1
    } else if frames > MASK_LEN {
        MASK_LEN
    } else {
        frames
    }
}

/// The model's window: the clip's first samples, cut at the window length
/// and padded with `silence` after the clip.
pub fn padded_waveform<T: Copy>(audio: &[T], silence: T) -> (window: Vec<T>)
    ensures
        window@.len() == WAVEFORM_LEN,
        forall|i: int|
            0 <= i < min(audio@.len() as int, WAVEFORM_LEN as int) ==> #[trigger] window@[i]
                == audio@[i],
        forall|i: int|
            min(audio@.len() as int, WAVEFORM_LEN as int) <= i < WAVEFORM_LEN ==> #[trigger] window@[i]
                == silence,
{
    let mut window: Vec<T> = Vec::new();
    let n = audio.len();
    let mut i: usize = 0;
    while i < WAVEFORM_LEN
        invariant
            n == audio@.len(),
            i <= WAVEFORM_LEN,
            window@.len() == i,
            forall|j: int|
                0 <= j < i && j < n ==> #[trigger] window@[j] == audio@[j],
            forall|j: int| 0 <= j < i && j >= n ==> #[trigger] window@[j] == silence,
        decreases WAVEFORM_LEN - i,
    {
        if i < n {
            window.push(audio[i]);
        } else {
            window.push(silence);
        }
        i += 1;
    }
    window
}

/// The model's mask: the first `active` frames hold `on`, the rest `off`.
pub fn frame_mask<T: Copy>(active: usize, on: T, off: T) -> (mask: Vec<T>)
    requires
        active <= MASK_LEN,
    ensures
        mask@.len() == MASK_LEN,
        forall|i: int| 0 <= i < active ==> #[trigger] mask@[i] == on,
        forall|i: int| active <= i < MASK_LEN ==> #[trigger] mask@[i] == off,
{
    let mut mask: Vec<T> = Vec::new();
    let mut i: usize = 0;
    while i < MASK_LEN
        invariant
            active <= MASK_LEN,
            i <= MASK_LEN,
            mask@.len() == i,
            forall|j: int| 0 <= j < i && j < active ==> #[trigger] mask@[j] == on,
            forall|j: int| 0 <= j < i && j >= active ==> #[trigger] mask@[j] == off,
        decreases MASK_LEN - i,
    {
        if i < active {
            mask.push(on);
        } else {
            mask.push(off);
        }
        i += 1;
    }
    mask
}

/// The two inputs of one model run.
#[derive(Debug)]
pub struct EmbeddingInput<T> {
    pub waveform: Vec<T>,
    pub mask: Vec<T>,
}

/// Prepares the model inputs for a clip sampled at `sample_rate`: clips
/// shorter than half a second are refused; otherwise the window holds the
/// clip, cut or padded with `silence`, and the mask marks with `active` the
/// share of frames that hold audio (rounded up) and with `silence` the rest.
pub fn prepare_embedding_input<T: Copy>(audio: &[T], sample_rate: u32, silence: T, active: T) -> (input: Result<EmbeddingInput<T>, String>)
    ensures
        match input {
            Ok(inp) => {
                let copy_len = min(audio@.len() as int, WAVEFORM_LEN as int);
                &&& audio@.len() >= min_audio_len(sample_rate)
                &&& inp.waveform@.len() == WAVEFORM_LEN
                &&& forall|i: int| 0 <= i < copy_len ==> #[trigger] inp.waveform@[i] == audio@[i]
                &&& forall|i: int|
                    copy_len <= i < WAVEFORM_LEN ==> #[trigger] inp.waveform@[i] == silence
                &&& inp.mask@.len() == MASK_LEN
                &&& forall|i: int|
                    0 <= i < spec_active_frames(copy_len) ==> #[trigger] inp.mask@[i] == active
                &&& forall|i: int|
                    spec_active_frames(copy_len) <= i < MASK_LEN ==> #[trigger] inp.mask@[i]
                        == silence
            },
            Err(msg) => audio@.len() < min_audio_len(sample_rate) && msg@
                == "Audio too short for embedding (need at least 0.5s)"@,
        },
{
    let copy_len = match check_audio_length(audio.len(), sample_rate) {
        Ok(c) => c,
        Err(msg) => return Err(msg),
    };
    let frames = active_frames(copy_len);
    let waveform = padded_waveform(audio, silence);
    let mask = frame_mask(frames, active, silence);
    Ok(EmbeddingInput { waveform, mask })
}

/// The active frame count is always a valid, non-empty part of the mask,
/// grows with the amount of audio, and covers the whole mask when the
/// window is full.
pub proof fn lemma_active_frames_bounds(copy_len: int, longer: int)
    requires
        0 <= copy_len <= longer <= WAVEFORM_LEN,
    ensures
        1 <= spec_active_frames(copy_len) <= MASK_LEN,
        spec_active_frames(copy_len) <= spec_active_frames(longer),
        spec_active_frames(WAVEFORM_LEN as int) == MASK_LEN,
{
    assert(copy_len * 589 <= longer * 589) by (nonlinear_arith)
        requires
            copy_len <= longer,
    ;
    assert((copy_len * 589 + 159999) / 160000 <= (longer * 589 + 159999) / 160000) by (nonlinear_arith)
        requires
            copy_len * 589 <= longer * 589,
    ;
}

/// The active frames cover the clip: `frames` frames of the mask span at
/// least the clip's share of the window, and one frame fewer would not.
pub proof fn lemma_active_frames_cover_audio(copy_len: int)
    requires
        0 < copy_len <= WAVEFORM_LEN,
    ensures
        spec_active_frames(copy_len) * WAVEFORM_LEN >= copy_len * MASK_LEN,
        (spec_active_frames(copy_len) - 1) * WAVEFORM_LEN < copy_len * MASK_LEN,
{
    let a = copy_len * 589;
    assert(a <= 160000 * 589) by (nonlinear_arith)
        requires
            copy_len <= 160000,
            a == copy_len * 589,
    ;
    assert(a >= 589) by (nonlinear_arith)
        requires
            copy_len >= 1,
            a == copy_len * 589,
    ;
    let f = (a + 159999) / 160000;
    assert(f * 160000 >= a && (f - 1) * 160000 < a) by (nonlinear_arith)
        requires
            f == (a + 159999) / 160000,
            a >= 0,
    ;
    assert(1 <= f <= 589) by (nonlinear_arith)
        requires
            f == (a + 159999) / 160000,
            589 <= a <= 160000 * 589,
    ;
}

} // verus!
