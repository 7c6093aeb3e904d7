//! The rolling sample buffer and its voice-activity state.
//!
//! Samples are signed 16-bit PCM, where full scale (`FULL_SCALE`) stands for
//! an amplitude of 1.0. All energy computations are exact integer arithmetic.
use std::collections::VecDeque;
use vstd::prelude::*;

verus! {

/// Samples per second of the mono input stream.
pub const SAMPLE_RATE: usize = 16000;

/// Capacity of the buffer in samples: thirty seconds at the sample rate.
pub const MAX_SAMPLES: usize = 480000;

/// A speech run shorter than this many milliseconds is never extracted.
pub const MIN_SPEECH_DURATION_MS: usize = 500;

/// Consecutive non-speech evaluation steps that close a speech run.
///
/// Trailing silence is counted in evaluation steps (one per chunk handed to
/// `update_speech_state`), not in samples: the silence needed before a
/// segment is cut therefore scales with the chunk size of the caller.
pub const TRAILING_SILENCE_STEPS: usize = 16000;

/// The PCM value that stands for an amplitude of 1.0.
pub const FULL_SCALE: i16 = 32767;

/// Full scale squared.
pub const FULL_SCALE_SQUARED: u128 = 1073676289;

/// The voice-activity threshold is an RMS amplitude of 1/50 of full scale,
/// that is 0.02. This is the square of that 50.
pub const VAD_THRESHOLD_INVERSE_SQUARED: u128 = 2500;

/// The sum of the squares of the samples.
pub open spec fn sum_squares(s: Seq<i16>) -> int
    decreases s.len(),
{
    if s.len() == 0 {
        0
    } else {
        sum_squares(s.drop_last()) + (s.last() as int) * (s.last() as int)
    }
}

/// Whether a chunk counts as speech: it is non-empty and its root mean
/// square amplitude lies strictly above 1/50 of full scale. Squared and
/// cleared of fractions: 2500 times the sum of squares exceeds the number
/// of samples times full scale squared.
pub open spec fn is_speech(s: Seq<i16>) -> bool {
    s.len() > 0 && VAD_THRESHOLD_INVERSE_SQUARED * sum_squares(s) > s.len() * FULL_SCALE_SQUARED
}

/// The last `cap` items of `s`, or all of `s` if it has no more than that.
pub open spec fn keep_last(s: Seq<i16>, cap: nat) -> Seq<i16> {
    if s.len() <= cap {
        s
    } else {
        s.subrange(s.len() - cap, s.len() as int)
    }
}

/// The mathematical state of an `AudioBuffer`.
pub struct BufferState {
    /// The buffered samples, oldest first.
    pub samples: Seq<i16>,
    /// Length of the buffer at the moment the open speech run began.
    pub speech_start: Option<nat>,
    /// Non-speech evaluation steps since speech was last seen.
    pub silence_steps: nat,
}

impl BufferState {
    /// What every reachable state satisfies.
    pub open spec fn wf(self) -> bool {
        &&& self.samples.len() <= MAX_SAMPLES
        &&& self.silence_steps <= usize::MAX
        &&& self.speech_start matches Some(start) ==> start <= self.samples.len()
    }

    /// The state of a buffer that has seen nothing.
    pub open spec fn empty() -> BufferState {
        BufferState { samples: Seq::empty(), speech_start: None, silence_steps: 0 }
    }

    /// The state after appending `chunk`, oldest samples evicted first.
    pub open spec fn pushed(self, chunk: Seq<i16>) -> BufferState {
        BufferState { samples: keep_last(self.samples + chunk, MAX_SAMPLES as nat), ..self }
    }

    /// The state after one evaluation step. The counter saturates.
    pub open spec fn stepped(self, active: bool) -> BufferState {
        if active {
            BufferState {
                speech_start: if self.speech_start is None {
                    Some(self.samples.len())
                } else {
                    self.speech_start
                },
                silence_steps: 0,
                ..self
            }
        } else {
            BufferState {
                silence_steps: if self.silence_steps < usize::MAX {
                    self.silence_steps + 1
                } else {
                    self.silence_steps
                },
                ..self
            }
        }
    }

    /// Milliseconds of audio buffered since the open speech run began.
    pub open spec fn speech_ms(self) -> int
        recommends
            self.speech_start is Some,
    {
        (self.samples.len() - self.speech_start.unwrap()) * 1000 / (SAMPLE_RATE as int)
    }

    /// Whether a segment is complete: a speech run is open, at least
    /// `MIN_SPEECH_DURATION_MS` of audio follow its start, and at least
    /// `TRAILING_SILENCE_STEPS` non-speech steps have passed since.
    pub open spec fn ready(self) -> bool {
        &&& self.speech_start is Some
        &&& self.speech_ms() >= MIN_SPEECH_DURATION_MS
        &&& self.silence_steps >= TRAILING_SILENCE_STEPS
    }
}

/// Pushing two chunks one after the other keeps what pushing them as one
/// chunk keeps.
pub proof fn lemma_keep_last_concat(s: Seq<i16>, a: Seq<i16>, b: Seq<i16>, cap: nat)
    ensures
        keep_last(keep_last(s + a, cap) + b, cap) == keep_last(s + a + b, cap),
{
    assert(keep_last(keep_last(s + a, cap) + b, cap) =~= keep_last(s + a + b, cap));
}

/// A sum of squares is never negative and at most 2^30 per sample.
pub proof fn lemma_sum_squares_bounds(s: Seq<i16>)
    ensures
        0 <= sum_squares(s) <= s.len() * 0x4000_0000,
    decreases s.len(),
{
    if s.len() > 0 {
        lemma_sum_squares_bounds(s.drop_last());
        let x = s.last() as int;
        assert(0 <= x * x <= 0x4000_0000) by (nonlinear_arith)
            requires
                -32768 <= x <= 32767,
        ;
    }
}

/// All chunks of `chunks` laid end to end.
pub open spec fn concat_all(chunks: Seq<Seq<i16>>) -> Seq<i16>
    decreases chunks.len(),
{
    if chunks.len() == 0 {
        Seq::empty()
    } else {
        concat_all(chunks.drop_last()) + chunks.last()
    }
}

/// The state after pushing each chunk of `chunks` in turn.
pub open spec fn pushed_all(state: BufferState, chunks: Seq<Seq<i16>>) -> BufferState
    decreases chunks.len(),
{
    if chunks.len() == 0 {
        state
    } else {
        pushed_all(state, chunks.drop_last()).pushed(chunks.last())
    }
}

/// Whatever is pushed, and in however many chunks, the buffer never holds
/// more than its capacity, and it holds exactly the most recent samples of
/// everything it was given, in their order: the oldest are dropped first.
pub proof fn law_pushes_keep_most_recent(state: BufferState, chunks: Seq<Seq<i16>>)
    requires
        state.wf(),
    ensures
        pushed_all(state, chunks).wf(),
        pushed_all(state, chunks).samples.len() <= MAX_SAMPLES,
        pushed_all(state, chunks).samples == keep_last(
            state.samples + concat_all(chunks),
            MAX_SAMPLES as nat,
        ),
        pushed_all(state, chunks).speech_start == state.speech_start,
        pushed_all(state, chunks).silence_steps == state.silence_steps,
    decreases chunks.len(),
{
    if chunks.len() == 0 {
        assert(state.samples + concat_all(chunks) =~= state.samples);
    } else {
        let head = chunks.drop_last();
        law_pushes_keep_most_recent(state, head);
        lemma_keep_last_concat(state.samples, concat_all(head), chunks.last(), MAX_SAMPLES as nat);
        assert(state.samples + concat_all(head) + chunks.last() =~= state.samples + concat_all(
            chunks,
        ));
    }
}

/// The sum of squares of a chunk that repeats one value.
pub proof fn lemma_sum_squares_constant(s: Seq<i16>, a: i16)
    requires
        forall|i: int| 0 <= i < s.len() ==> s[i] == a,
    ensures
        sum_squares(s) == s.len() * ((a as int) * (a as int)),
    decreases s.len(),
{
    if s.len() > 0 {
        lemma_sum_squares_constant(s.drop_last(), a);
        let sq = (a as int) * (a as int);
        let n = s.len() as int;
        assert((n - 1) * sq + sq == n * sq) by (nonlinear_arith);
    }
}

/// A chunk of zeros is never speech, whatever its length.
pub proof fn law_silence_is_not_speech(s: Seq<i16>)
    requires
        forall|i: int| 0 <= i < s.len() ==> s[i] == 0,
    ensures
        !is_speech(s),
{
    lemma_sum_squares_constant(s, 0i16);
}

/// A non-empty chunk that holds one amplitude throughout is speech exactly
/// when that amplitude lies above the threshold of 1/50 of full scale; in
/// particular every amplitude of magnitude 656 or more is speech.
pub proof fn law_constant_amplitude(s: Seq<i16>, a: i16)
    requires
        s.len() > 0,
        forall|i: int| 0 <= i < s.len() ==> s[i] == a,
    ensures
        is_speech(s) == (2500 * ((a as int) * (a as int)) > 1073676289),
        (a >= 656 || a <= -656) ==> is_speech(s),
{
    lemma_sum_squares_constant(s, a);
    let sq = (a as int) * (a as int);
    let n = s.len() as int;
    assert((2500 * (n * sq) > n * 1073676289) == (2500 * sq > 1073676289)) by (nonlinear_arith)
        requires
            n > 0,
    ;
    assert((a >= 656 || a <= -656) ==> sq >= 656 * 656) by (nonlinear_arith)
        requires
            sq == (a as int) * (a as int),
    ;
}

/// While no speech run is open, neither more samples nor more silence make
/// a segment ready: after an extraction only new speech can lead to the
/// next one.
pub proof fn law_not_ready_without_speech(state: BufferState, chunk: Seq<i16>)
    requires
        state.speech_start is None,
    ensures
        !state.ready(),
        !state.stepped(false).pushed(chunk).ready(),
        !BufferState::empty().ready(),
{
}

/// A segment is ready only after at least half a second of audio since the
/// start of the speech run and the full count of trailing non-speech steps.
pub proof fn law_ready_needs_speech_and_silence(state: BufferState)
    requires
        state.wf(),
        state.ready(),
    ensures
        state.speech_start is Some,
        state.samples.len() - state.speech_start.unwrap() >= 8000,
        state.silence_steps >= 16000,
{
}

/// The sum of the squares of `samples`, exactly.
pub fn sum_of_squares(samples: &[i16]) -> (total: u128)
    ensures
        total == sum_squares(samples@),
{
    let mut total: u128 = 0;
    let mut i: usize = 0;
    while i < samples.len()
        invariant
            i <= samples.len(),
            total == sum_squares(samples@.take(i as int)),
            total <= i * 0x4000_0000,
        decreases samples.len() - i,
    {
        let x: i64 = samples[i] as i64;
        proof {
            let xi = x as int;
            assert(0 <= xi * xi <= 0x4000_0000) by (nonlinear_arith)
                requires
                    -32768 <= xi <= 32767,
            ;
            assert(samples@.take(i + 1).drop_last() =~= samples@.take(i as int));
        }
        let sq: i64 = x * x;
        total = total + sq as u128;
        i = i + 1;
    }
    proof {
        assert(samples@.take(i as int) =~= samples@);
    }
    total
}

/// Appends `samples` to `buf`, dropping the oldest item before each append
/// that would take the length above `cap`.
fn push_bounded(buf: &mut VecDeque<i16>, samples: &[i16], cap: usize)
    requires
        cap > 0,
        old(buf)@.len() <= cap,
    ensures
        final(buf)@ == keep_last(old(buf)@ + samples@, cap as nat),
        final(buf)@.len() <= cap,
        final(buf)@.len() >= old(buf)@.len(),
{
    let mut i: usize = 0;
    while i < samples.len()
        invariant
            cap > 0,
            i <= samples.len(),
            buf@.len() <= cap,
            buf@.len() >= old(buf)@.len(),
            buf@ == keep_last(old(buf)@ + samples@.take(i as int), cap as nat),
        decreases samples.len() - i,
    {
        let ghost before = old(buf)@ + samples@.take(i as int);
        if buf.len() >= cap {
            let _ = buf.pop_front();
        }
        buf.push_back(samples[i]);
        proof {
            assert(old(buf)@ + samples@.take(i + 1) =~= before.push(samples@[i as int]));
            assert(buf@ =~= keep_last(before.push(samples@[i as int]), cap as nat));
        }
        i = i + 1;
    }
    proof {
        assert(samples@.take(i as int) =~= samples@);
    }
}

/// A fixed-capacity rolling store of PCM samples together with the state
/// of the voice-activity detector that segments it.
pub struct AudioBuffer {
    buffer: VecDeque<i16>,
    speech_start: Option<usize>,
    samples_since_speech: usize,
}

impl View for AudioBuffer {
    type V = BufferState;

    closed spec fn view(&self) -> BufferState {
        BufferState {
            samples: self.buffer@,
            speech_start: match self.speech_start {
                Some(start) => Some(start as nat),
                None => None,
            },
            silence_steps: self.samples_since_speech as nat,
        }
    }
}

impl AudioBuffer {
    #[verifier::type_invariant]
    spec fn inv(&self) -> bool {
        self@.wf()
    }

    /// Moves queue and voice-activity state out of the buffer, which is
    /// left empty, so that the queue can be changed on its own.
    fn take_parts(&mut self) -> (parts: (VecDeque<i16>, Option<usize>, usize))
        ensures
            old(self)@.wf(),
            parts.0@ == old(self)@.samples,
            parts.1 == old(self).speech_start,
            parts.2 == old(self).samples_since_speech,
            final(self)@ == BufferState::empty(),
    {
        let mut taken = AudioBuffer {
            buffer: VecDeque::new(),
            speech_start: None,
            samples_since_speech: 0,
        };
        std::mem::swap(self, &mut taken);
        proof {
            use_type_invariant(&taken);
        }
        (taken.buffer, taken.speech_start, taken.samples_since_speech)
    }

    /// An empty buffer with no speech run open.
    pub fn new() -> (buf: Self)
        ensures
            buf@ == BufferState::empty(),
            buf@.wf(),
    {
        AudioBuffer {
            buffer: VecDeque::with_capacity(MAX_SAMPLES),
            speech_start: None,
            samples_since_speech: 0,
        }
    }

    /// Number of samples currently buffered.
    pub fn len(&self) -> (n: usize)
        ensures
            n == self@.samples.len(),
            n <= MAX_SAMPLES,
            self@.wf(),
    {
        proof {
            use_type_invariant(self);
        }
        self.buffer.len()
    }

    /// The most samples the buffer ever holds.
    pub fn capacity(&self) -> (n: usize)
        ensures
            n == MAX_SAMPLES,
    {
        MAX_SAMPLES
    }

    /// Appends `samples`; once the buffer is full the oldest samples make
    /// room, so that it always ends with the most recent input.
    pub fn push_samples(&mut self, samples: &[i16])
        ensures
            final(self)@ == old(self)@.pushed(samples@),
            old(self)@.wf(),
            final(self)@.wf(),
    {
        let (mut buffer, speech_start, samples_since_speech) = self.take_parts();
        push_bounded(&mut buffer, samples, MAX_SAMPLES);
        *self = AudioBuffer { buffer, speech_start, samples_since_speech };
    }

    /// Voice-activity detection on one chunk. The answer depends on the
    /// chunk alone, not on what is buffered.
    pub fn has_speech(&self, samples: &[i16]) -> (active: bool)
        ensures
            active == is_speech(samples@),
    {
        detect_speech(samples)
    }

    /// Records the outcome of one evaluation step. Speech opens a run at
    /// the current end of the buffer, unless one is open, and resets the
    /// silence counter; non-speech advances the counter.
    pub fn update_speech_state(&mut self, has_speech: bool)
        ensures
            final(self)@ == old(self)@.stepped(has_speech),
            old(self)@.wf(),
            final(self)@.wf(),
    {
        proof {
            use_type_invariant(&*self);
        }
        if has_speech {
            if self.speech_start.is_none() {
                self.speech_start = Some(self.buffer.len());
            }
            self.samples_since_speech = 0;
        } else {
            if self.samples_since_speech < usize::MAX {
                self.samples_since_speech = self.samples_since_speech + 1;
            }
        }
    }

    /// Whether a complete segment is waiting to be extracted.
    pub fn should_transcribe(&self) -> (ready: bool)
        ensures
            ready == self@.ready(),
            self@.wf(),
    {
        proof {
            use_type_invariant(self);
        }
        match self.speech_start {
            Some(start) => {
                let speech_samples: usize = self.buffer.len() - start;
                let speech_duration_ms: usize = (speech_samples * 1000) / SAMPLE_RATE;
                if speech_duration_ms < MIN_SPEECH_DURATION_MS {
                    return false;
                }
                self.samples_since_speech >= TRAILING_SILENCE_STEPS
            },
            None => false,
        }
    }

    /// Hands out everything that is buffered, oldest sample first, and
    /// returns the buffer to its initial state.
    pub fn extract_for_transcription(&mut self) -> (audio: Vec<i16>)
        ensures
            audio@ == old(self)@.samples,
            audio@.len() <= MAX_SAMPLES,
            old(self)@.wf(),
            final(self)@ == BufferState::empty(),
            final(self)@.wf(),
            !final(self)@.ready(),
    {
        proof {
            use_type_invariant(&*self);
        }
        let n: usize = self.buffer.len();
        let mut audio: Vec<i16> = Vec::with_capacity(n);
        let mut i: usize = 0;
        while i < n
            invariant
                n == self.buffer@.len(),
                i <= n,
                audio@ == self.buffer@.take(i as int),
            decreases n - i,
        {
            audio.push(self.buffer[i]);
            proof {
                assert(audio@ =~= self.buffer@.take(i + 1));
            }
            i = i + 1;
        }
        proof {
            assert(self.buffer@.take(n as int) =~= self.buffer@);
        }
        self.clear();
        audio
    }

    /// Length of the buffered audio in whole milliseconds.
    pub fn duration_ms(&self) -> (ms: u64)
        ensures
            ms == self@.samples.len() * 1000 / (SAMPLE_RATE as nat),
    {
        let samples: u128 = self.buffer.len() as u128;
        (samples * 1000 / (SAMPLE_RATE as u128)) as u64
    }

    /// Drops all samples and closes any open speech run.
    pub fn clear(&mut self)
        ensures
            final(self)@ == BufferState::empty(),
            final(self)@.wf(),
    {
        let (mut buffer, _, _) = self.take_parts();
        buffer.clear();
        *self = AudioBuffer { buffer, speech_start: None, samples_since_speech: 0 };
    }
}

impl Default for AudioBuffer {
    fn default() -> (buf: Self)
        ensures
            buf@ == BufferState::empty(),
            buf@.wf(),
    {
        AudioBuffer::new()
    }
}

/// Whether the chunk's RMS amplitude lies strictly above the threshold.
pub fn detect_speech(samples: &[i16]) -> (active: bool)
    ensures
        active == is_speech(samples@),
{
    if samples.len() == 0 {
        return false;
    }
    let total: u128 = sum_of_squares(samples);
    proof {
        lemma_sum_squares_bounds(samples@);
    }
    let n: u128 = samples.len() as u128;
    total * VAD_THRESHOLD_INVERSE_SQUARED > n * FULL_SCALE_SQUARED
}

} // verus!
