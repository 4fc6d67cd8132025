//! Circular buffer of audio samples between the I2S drivers and the voice tools.
use vstd::prelude::*;

use crate::error::Error;
use crate::platform::gpio::config_err;
use crate::text::{chars_to_string, decimal, extend_with_str, push_decimal, str_eq, to_string};

verus! {

/// Physical slot of logical position `i` in a ring that starts at `head`.
pub open spec fn phys(head: int, i: int, cap: int) -> int {
    if head + i < cap { head + i } else { head + i - cap }
}

/// The newest `cap` samples of `s`.
pub open spec fn keep_last(s: Seq<i16>, cap: nat) -> Seq<i16> {
    if s.len() <= cap { s } else { s.skip(s.len() - cap) }
}

/// Fixed-capacity circular buffer of samples.
pub struct AudioRingBuffer {
    buf: Vec<i16>,
    cap: usize,
    head: usize,
    len: usize,
}

impl AudioRingBuffer {
    /// The samples held, oldest first.
    pub closed spec fn view(&self) -> Seq<i16> {
        Seq::new(self.len as nat, |i: int| self.buf@[phys(self.head as int, i, self.cap as int)])
    }

    pub closed spec fn capacity(&self) -> nat {
        self.cap as nat
    }

    pub closed spec fn wf(&self) -> bool {
        &&& self.buf@.len() == self.cap
        &&& self.len <= self.cap
        &&& (self.cap == 0 ==> self.head == 0)
        &&& (self.cap > 0 ==> self.head < self.cap)
    }

    /// An empty buffer without storage.
    pub fn default() -> (r: Self)
        ensures
            r.wf(),
            r.capacity() == 0,
            r.view() == Seq::<i16>::empty(),
    {
        let r = AudioRingBuffer { buf: Vec::new(), cap: 0, head: 0, len: 0 };
        assert(r.view() =~= Seq::<i16>::empty());
        r
    }

    /// An empty buffer for `cap` samples.
    pub fn with_capacity(cap: usize) -> (r: Self)
        ensures
            r.wf(),
            r.capacity() == cap,
            r.view() == Seq::<i16>::empty(),
    {
        let mut buf: Vec<i16> = Vec::new();
        let mut i: usize = 0;
        while i < cap
            invariant
                i <= cap,
                buf@.len() == i,
            decreases cap - i,
        {
            buf.push(0);
            i = i + 1;
        }
        let r = AudioRingBuffer { buf, cap, head: 0, len: 0 };
        assert(r.view() =~= Seq::<i16>::empty());
        r
    }

    /// Number of samples held.
    pub fn len(&self) -> (r: usize)
        requires
            self.wf(),
        ensures
            r == self.view().len(),
    {
        self.len
    }

    /// Free slots.
    pub fn available(&self) -> (r: usize)
        requires
            self.wf(),
        ensures
            r == self.capacity() - self.view().len(),
    {
        self.cap - self.len
    }

    /// Write position: the slot after the newest sample.
    fn tail(&self) -> (r: usize)
        requires
            self.wf(),
        ensures
            r == phys(self.head as int, self.len as int, self.cap as int),
            self.len < self.cap ==> r < self.cap,
            self.len == self.cap ==> r == self.head,
    {
        let room = self.cap - self.len;
        if self.head >= room { self.head - room } else { self.head + self.len }
    }

    fn push_one_drop_oldest(&mut self, sample: i16)
        requires
            old(self).wf(),
            old(self).cap > 0,
        ensures
            final(self).wf(),
            final(self).cap == old(self).cap,
            final(self).view() == keep_last(old(self).view().push(sample), old(self).cap as nat),
    {
        let ghost v0 = self.view();
        let t = self.tail();
        self.buf.set(t, sample);
        if self.len == self.cap {
            self.head = self.head + 1;
            if self.head == self.cap {
                self.head = 0;
            }
            assert(self.view() =~= keep_last(v0.push(sample), self.cap as nat)) by {
                assert(v0.push(sample).len() == self.cap + 1);
                assert forall|i: int| 0 <= i < self.len implies #[trigger] self.view()[i] == v0.push(sample).skip(1)[i] by {
                    if i < self.len - 1 {
                        assert(phys(self.head as int, i, self.cap as int) == phys(old(self).head as int, i + 1, self.cap as int));
                    }
                }
            }
        } else {
            self.len = self.len + 1;
            assert(self.view() =~= v0.push(sample)) by {
                assert forall|i: int| 0 <= i < self.len - 1 implies #[trigger] self.view()[i] == v0[i] by {
                    assert(phys(self.head as int, i, self.cap as int) != t);
                }
            }
        }
    }

    /// Appends samples; when full, the oldest ones are overwritten, so the buffer keeps the
    /// newest `capacity` samples. A buffer without storage ignores them.
    pub fn push_slice_drop_oldest(&mut self, input: &[i16])
        requires
            old(self).wf(),
        ensures
            final(self).wf(),
            final(self).capacity() == old(self).capacity(),
            old(self).capacity() == 0 ==> final(self).view() == old(self).view(),
            old(self).capacity() > 0 ==> final(self).view() == keep_last(old(self).view() + input@, old(self).capacity()),
    {
        if self.cap == 0 {
            return;
        }
        let ghost v0 = self.view();
        let mut i: usize = 0;
        while i < input.len()
            invariant
                i <= input.len(),
                self.wf(),
                self.cap == old(self).cap,
                self.cap > 0,
                v0 == old(self).view(),
                self.view() == keep_last(v0 + input@.take(i as int), self.cap as nat),
            decreases input.len() - i,
        {
            let ghost before = self.view();
            self.push_one_drop_oldest(input[i]);
            proof {
                let s = v0 + input@.take(i as int);
                assert(v0 + input@.take(i as int + 1) == s.push(input@[i as int]));
                let c = self.cap as nat;
                if s.len() > c {
                    assert(keep_last(s, c).push(input@[i as int]) =~= s.push(input@[i as int]).skip(s.len() - c));
                    assert(keep_last(keep_last(s, c).push(input@[i as int]), c) =~= keep_last(s.push(input@[i as int]), c));
                }
            }
            i = i + 1;
        }
        assert(input@.take(input.len() as int) == input@);
    }

    /// Appends as many samples as fit and returns how many that was.
    pub fn push_slice_blocking(&mut self, input: &[i16]) -> (n: usize)
        requires
            old(self).wf(),
        ensures
            final(self).wf(),
            final(self).capacity() == old(self).capacity(),
            n == if input@.len() <= old(self).capacity() - old(self).view().len() { input@.len() as int } else { old(self).capacity() - old(self).view().len() },
            final(self).view() == old(self).view() + input@.take(n as int),
    {
        let free = self.cap - self.len;
        let take = if input.len() < free { input.len() } else { free };
        let ghost v0 = self.view();
        let mut i: usize = 0;
        while i < take
            invariant
                i <= take,
                take <= input.len(),
                self.len + (take - i) <= self.cap,
                self.wf(),
                self.cap == old(self).cap,
                self.view() == v0 + input@.take(i as int),
            decreases take - i,
        {
            let t = self.tail();
            let ghost before = self.view();
            self.buf.set(t, input[i]);
            self.len = self.len + 1;
            assert(self.view() =~= before.push(input@[i as int])) by {
                assert forall|k: int| 0 <= k < self.len - 1 implies #[trigger] self.view()[k] == before[k] by {
                    assert(phys(self.head as int, k, self.cap as int) != t);
                }
            }
            assert(input@.take(i as int + 1) == input@.take(i as int).push(input@[i as int]));
            i = i + 1;
        }
        take
    }

    /// Moves the oldest samples into `out` (as many as fit) and returns how many that was;
    /// the rest of `out` is untouched.
    pub fn pop_into(&mut self, out: &mut [i16]) -> (n: usize)
        requires
            old(self).wf(),
        ensures
            final(self).wf(),
            final(self).capacity() == old(self).capacity(),
            n == if old(out)@.len() <= old(self).view().len() { old(out)@.len() as int } else { old(self).view().len() as int },
            final(out)@.len() == old(out)@.len(),
            final(out)@.take(n as int) == old(self).view().take(n as int),
            final(out)@.skip(n as int) == old(out)@.skip(n as int),
            final(self).view() == old(self).view().skip(n as int),
    {
        let n = if out.len() < self.len { out.len() } else { self.len };
        let ghost v0 = self.view();
        let mut i: usize = 0;
        while i < n
            invariant
                i <= n,
                n <= old(out)@.len(),
                n <= v0.len(),
                self.wf(),
                self.cap == old(self).cap,
                self.buf == old(self).buf,
                self.len == v0.len() - i,
                self.view() == v0.skip(i as int),
                out@.len() == old(out)@.len(),
                forall|k: int| 0 <= k < i ==> out@[k] == v0[k],
                forall|k: int| i <= k < out@.len() ==> out@[k] == old(out)@[k],
            decreases n - i,
        {
            out[i] = self.buf[self.head];
            assert(v0.skip(i as int)[0] == v0[i as int]);
            let ghost before = self.view();
            self.head = self.head + 1;
            if self.head == self.cap {
                self.head = 0;
            }
            self.len = self.len - 1;
            assert(self.view() =~= v0.skip(i as int + 1)) by {
                assert forall|k: int| 0 <= k < self.len implies #[trigger] self.view()[k] == v0.skip(i as int + 1)[k] by {
                    assert(before[k + 1] == v0.skip(i as int)[k + 1]);
                }
            }
            i = i + 1;
        }
        assert(out@.take(n as int) =~= v0.take(n as int));
        assert(out@.skip(n as int) =~= old(out)@.skip(n as int));
        n
    }
}

/// First in, first out: after `push_slice_blocking` appends `k` samples of `pushed` to a
/// buffer holding `before`, the `n` samples that `pop_into` takes next are the oldest ones:
/// all of `before` first, then the pushed samples in order.
pub proof fn lemma_fifo(before: Seq<i16>, pushed: Seq<i16>, k: int, n: int)
    requires
        0 <= k <= pushed.len(),
        0 <= n <= before.len() + k,
    ensures
        n <= before.len() ==> (before + pushed.take(k)).take(n) == before.take(n),
        n > before.len() ==> (before + pushed.take(k)).take(n) == before + pushed.take(n - before.len()),
{
    if n <= before.len() {
        assert((before + pushed.take(k)).take(n) =~= before.take(n));
    } else {
        assert((before + pushed.take(k)).take(n) =~= before + pushed.take(n - before.len()));
    }
}

/// Dropping the oldest keeps exactly the newest samples: after `push_slice_drop_oldest`, the
/// buffer never holds more than its capacity, and its last sample is the last one pushed.
pub proof fn lemma_drop_oldest_keeps_newest(before: Seq<i16>, input: Seq<i16>, cap: nat)
    requires
        cap > 0,
        before.len() <= cap,
        input.len() > 0,
    ensures
        keep_last(before + input, cap).len() <= cap,
        keep_last(before + input, cap).last() == input.last(),
        (before + input).len() <= cap ==> keep_last(before + input, cap) == before + input,
{
    let s = before + input;
    if s.len() > cap {
        assert(s.skip(s.len() - cap).last() == s.last());
    }
}

/// Microphone device type of an I2S INMP441.
pub const MIC_DEVICE_I2S_INMP441: &'static str = "i2s_inmp441";
/// Microphone device type of a PDM microphone.
pub const MIC_DEVICE_PDM: &'static str = "pdm";
/// Speaker device type of an I2S MAX98357A.
pub const SPEAKER_DEVICE_I2S_MAX98357A: &'static str = "i2s_max98357a";
/// Timeout of one I2S read or write (ms).
pub const I2S_IO_TIMEOUT_MS: u32 = 1000;

/// One audio device of the configuration, as far as the pipeline reads it.
pub struct AudioDeviceConfig {
    pub enabled: bool,
    pub device_type: String,
    pub sample_rate: u32,
    pub bits_per_sample: u16,
}

/// The audio section of the configuration.
pub struct AudioSegment {
    pub enabled: bool,
    pub microphone: AudioDeviceConfig,
    pub speaker: AudioDeviceConfig,
}

/// Which driver runs the devices.
#[derive(Clone, Copy, Debug, PartialEq, Eq, Structural)]
pub enum AudioBackendKind {
    /// No audio at all.
    Disabled,
    /// PDM microphone (not read yet) with an optional I2S speaker.
    PdmStub,
    /// I2S microphone and speaker, each optional.
    I2sStd,
}

/// What to bring up: the backend, the channels to open and the ring buffer sizes (samples).
#[derive(Clone, Copy, Debug, PartialEq, Eq, Structural)]
pub struct AudioPlan {
    pub backend: AudioBackendKind,
    pub open_mic: bool,
    pub open_speaker: bool,
    pub mic_capacity: usize,
    pub speaker_capacity: usize,
}

/// Two seconds of samples at a rate of at least 8 kHz.
pub open spec fn ring_capacity(sample_rate: u32) -> usize {
    let r: u32 = if sample_rate < 8000 { 8000 } else { sample_rate };
    if r * 2 > usize::MAX { usize::MAX } else { (r * 2) as usize }
}

fn ring_capacity_exec(sample_rate: u32) -> (r: usize)
    ensures
        r == ring_capacity(sample_rate),
{
    let rate: u32 = if sample_rate < 8000 { 8000 } else { sample_rate };
    match (rate as usize).checked_mul(2) {
        Some(c) => c,
        None => usize::MAX,
    }
}

/// The message for an unsupported speaker.
pub open spec fn speaker_type_message(t: Seq<char>) -> Seq<char> {
    "unsupported speaker device_type '"@ + t + "', only i2s_max98357a is supported now"@
}

/// The message for an unsupported microphone.
pub open spec fn mic_type_message(t: Seq<char>) -> Seq<char> {
    "unsupported microphone device_type '"@ + t + "', supported: i2s_inmp441, pdm"@
}

/// The plan for an audio configuration, or the configuration error that refuses it.
pub open spec fn audio_plan_of(seg: AudioSegment) -> Result<AudioPlan, Seq<char>> {
    let mic = seg.microphone;
    let spk = seg.speaker;
    if !seg.enabled {
        Ok(AudioPlan { backend: AudioBackendKind::Disabled, open_mic: false, open_speaker: false, mic_capacity: 0, speaker_capacity: 0 })
    } else if mic.enabled && mic.bits_per_sample != 16 {
        Err("only 16-bit microphone sampling is supported (got "@ + decimal(mic.bits_per_sample as nat) + ")"@)
    } else if spk.enabled && spk.bits_per_sample != 16 {
        Err("only 16-bit speaker output is supported (got "@ + decimal(spk.bits_per_sample as nat) + ")"@)
    } else if mic.enabled && mic.device_type@ == "pdm"@ {
        if spk.enabled && spk.device_type@ != "i2s_max98357a"@ {
            Err(speaker_type_message(spk.device_type@))
        } else {
            Ok(AudioPlan { backend: AudioBackendKind::PdmStub, open_mic: false, open_speaker: spk.enabled,
                mic_capacity: ring_capacity(mic.sample_rate), speaker_capacity: ring_capacity(spk.sample_rate) })
        }
    } else if mic.enabled && mic.device_type@ != "i2s_inmp441"@ {
        Err(mic_type_message(mic.device_type@))
    } else if spk.enabled && spk.device_type@ != "i2s_max98357a"@ {
        Err(speaker_type_message(spk.device_type@))
    } else {
        Ok(AudioPlan { backend: AudioBackendKind::I2sStd, open_mic: mic.enabled, open_speaker: spk.enabled,
            mic_capacity: ring_capacity(mic.sample_rate), speaker_capacity: ring_capacity(spk.sample_rate) })
    }
}

/// Checks an audio configuration and decides what to bring up; errors are configuration
/// errors of stage `audio_init`.
pub fn audio_plan(seg: &AudioSegment) -> (r: Result<AudioPlan, Error>)
    ensures
        match audio_plan_of(*seg) {
            Ok(p) => r == Ok::<AudioPlan, Error>(p),
            Err(m) => config_err(r, "audio_init", m),
        },
{
    let mic = &seg.microphone;
    let spk = &seg.speaker;
    if !seg.enabled {
        return Ok(AudioPlan { backend: AudioBackendKind::Disabled, open_mic: false, open_speaker: false, mic_capacity: 0, speaker_capacity: 0 });
    }
    if mic.enabled && mic.bits_per_sample != 16 {
        let mut msg: Vec<char> = Vec::new();
        extend_with_str(&mut msg, "only 16-bit microphone sampling is supported (got ");
        push_decimal(&mut msg, mic.bits_per_sample as u64);
        extend_with_str(&mut msg, ")");
        return Err(Error::Config { stage: "audio_init", message: chars_to_string(&msg) });
    }
    if spk.enabled && spk.bits_per_sample != 16 {
        let mut msg: Vec<char> = Vec::new();
        extend_with_str(&mut msg, "only 16-bit speaker output is supported (got ");
        push_decimal(&mut msg, spk.bits_per_sample as u64);
        extend_with_str(&mut msg, ")");
        return Err(Error::Config { stage: "audio_init", message: chars_to_string(&msg) });
    }
    let mic_capacity = ring_capacity_exec(mic.sample_rate);
    let speaker_capacity = ring_capacity_exec(spk.sample_rate);
    let speaker_ok = !spk.enabled || str_eq(spk.device_type.as_str(), SPEAKER_DEVICE_I2S_MAX98357A);
    if mic.enabled && str_eq(mic.device_type.as_str(), MIC_DEVICE_PDM) {
        if !speaker_ok {
            return Err(speaker_type_error(spk.device_type.as_str()));
        }
        return Ok(AudioPlan { backend: AudioBackendKind::PdmStub, open_mic: false, open_speaker: spk.enabled, mic_capacity, speaker_capacity });
    }
    if mic.enabled && !str_eq(mic.device_type.as_str(), MIC_DEVICE_I2S_INMP441) {
        let mut msg: Vec<char> = Vec::new();
        extend_with_str(&mut msg, "unsupported microphone device_type '");
        extend_with_str(&mut msg, mic.device_type.as_str());
        extend_with_str(&mut msg, "', supported: i2s_inmp441, pdm");
        return Err(Error::Config { stage: "audio_init", message: chars_to_string(&msg) });
    }
    if !speaker_ok {
        return Err(speaker_type_error(spk.device_type.as_str()));
    }
    Ok(AudioPlan { backend: AudioBackendKind::I2sStd, open_mic: mic.enabled, open_speaker: spk.enabled, mic_capacity, speaker_capacity })
}

fn speaker_type_error(t: &str) -> (e: Error)
    ensures
        e matches Error::Config { stage: s, message: m } && s == "audio_init" && m@ == speaker_type_message(t@),
{
    let mut msg: Vec<char> = Vec::new();
    extend_with_str(&mut msg, "unsupported speaker device_type '");
    extend_with_str(&mut msg, t);
    extend_with_str(&mut msg, "', only i2s_max98357a is supported now");
    Error::Config { stage: "audio_init", message: chars_to_string(&msg) }
}

/// A 16-bit sample from a 32-bit I2S microphone word: its top half.
pub open spec fn mic_sample(word: i32) -> i16 {
    (word >> 16) as i16
}

/// Converts I2S microphone words to 16-bit samples, as many as both slices hold.
pub fn i2s_words_to_pcm16(words: &[i32], out: &mut [i16]) -> (n: usize)
    ensures
        n == if words@.len() <= old(out)@.len() { words@.len() } else { old(out)@.len() },
        final(out)@.len() == old(out)@.len(),
        forall|i: int| 0 <= i < n ==> final(out)@[i] == mic_sample(#[trigger] words@[i]),
        forall|i: int| n <= i < old(out)@.len() ==> final(out)@[i] == old(out)@[i],
{
    let n = if words.len() <= out.len() { words.len() } else { out.len() };
    let mut i: usize = 0;
    while i < n
        invariant
            i <= n,
            n <= words@.len(),
            n <= old(out)@.len(),
            out@.len() == old(out)@.len(),
            forall|k: int| 0 <= k < i ==> out@[k] == mic_sample(#[trigger] words@[k]),
            forall|k: int| i <= k < out@.len() ==> out@[k] == old(out)@[k],
        decreases n - i,
    {
        let w = words[i];
        out[i] = (w >> 16) as i16;
        i = i + 1;
    }
    n
}

/// A 32-bit I2S speaker word for a 16-bit sample: the sample in the top half.
pub open spec fn speaker_word(sample: i16) -> i32 {
    (sample * 65536) as i32
}

/// Converts 16-bit samples to I2S speaker words.
pub fn pcm16_to_i2s_words(samples: &[i16]) -> (r: Vec<i32>)
    ensures
        r@.len() == samples@.len(),
        forall|i: int| 0 <= i < r@.len() ==> r@[i] == speaker_word(#[trigger] samples@[i]),
{
    let mut r: Vec<i32> = Vec::new();
    let mut i: usize = 0;
    while i < samples.len()
        invariant
            i <= samples@.len(),
            r@.len() == i,
            forall|k: int| 0 <= k < i ==> r@[k] == speaker_word(#[trigger] samples@[k]),
        decreases samples.len() - i,
    {
        let s = samples[i];
        let w: i32 = (s as i32) * 65536;
        r.push(w);
        i = i + 1;
    }
    r
}

/// The audio pipeline's shared state: which directions are up and their ring buffers.
pub struct AudioPipeline {
    pub mic_enabled: bool,
    pub speaker_enabled: bool,
    pub mic: AudioRingBuffer,
    pub speaker: AudioRingBuffer,
}

impl AudioPipeline {
    pub open spec fn wf(&self) -> bool {
        self.mic.wf() && self.speaker.wf()
    }

    /// A pipeline for a plan, with the devices that actually came up.
    pub fn from_plan(plan: AudioPlan, mic_up: bool, speaker_up: bool) -> (r: Self)
        ensures
            r.wf(),
            r.mic_enabled == mic_up,
            r.speaker_enabled == speaker_up,
            r.mic.capacity() == plan.mic_capacity,
            r.speaker.capacity() == plan.speaker_capacity,
            r.mic.view() == Seq::<i16>::empty(),
            r.speaker.view() == Seq::<i16>::empty(),
    {
        AudioPipeline {
            mic_enabled: mic_up,
            speaker_enabled: speaker_up,
            mic: AudioRingBuffer::with_capacity(plan.mic_capacity),
            speaker: AudioRingBuffer::with_capacity(plan.speaker_capacity),
        }
    }

    pub fn mic_ready(&self) -> (r: bool)
        ensures
            r == self.mic_enabled,
    {
        self.mic_enabled
    }

    pub fn speaker_ready(&self) -> (r: bool)
        ensures
            r == self.speaker_enabled,
    {
        self.speaker_enabled
    }

    /// Takes recorded samples into `out` (the caller waits for samples first when there are
    /// none); refused when the microphone is not up.
    pub fn read_mic_pcm_i16(&mut self, out: &mut [i16]) -> (r: Result<usize, Error>)
        requires
            old(self).wf(),
        ensures
            final(self).wf(),
            !old(self).mic_enabled ==> config_err(r, "audio_mic", "microphone not initialized"@)
                && final(self).mic.view() == old(self).mic.view() && final(out)@ == old(out)@,
            old(self).mic_enabled ==> (r matches Ok(n) && {
                &&& n == if old(out)@.len() <= old(self).mic.view().len() { old(out)@.len() as int } else { old(self).mic.view().len() as int }
                &&& final(out)@.len() == old(out)@.len()
                &&& final(out)@.take(n as int) == old(self).mic.view().take(n as int)
                &&& final(out)@.skip(n as int) == old(out)@.skip(n as int)
                &&& final(self).mic.view() == old(self).mic.view().skip(n as int)
            }),
            final(self).speaker == old(self).speaker,
            final(self).mic.capacity() == old(self).mic.capacity(),
            final(self).mic_enabled == old(self).mic_enabled,
            final(self).speaker_enabled == old(self).speaker_enabled,
    {
        if !self.mic_enabled {
            return Err(Error::Config { stage: "audio_mic", message: to_string("microphone not initialized") });
        }
        let n = self.mic.pop_into(out);
        Ok(n)
    }

    /// Queues as many of `buf`'s samples as the speaker buffer takes and returns how many
    /// (the caller waits for room and sends the rest); refused when the speaker is not up.
    pub fn write_speaker_pcm_i16(&mut self, buf: &[i16]) -> (r: Result<usize, Error>)
        requires
            old(self).wf(),
        ensures
            final(self).wf(),
            !old(self).speaker_enabled ==> config_err(r, "audio_speaker", "speaker not initialized"@)
                && final(self).speaker.view() == old(self).speaker.view(),
            old(self).speaker_enabled ==> (r matches Ok(n) && {
                &&& n == if buf@.len() <= old(self).speaker.capacity() - old(self).speaker.view().len() { buf@.len() as int }
                        else { old(self).speaker.capacity() - old(self).speaker.view().len() }
                &&& final(self).speaker.view() == old(self).speaker.view() + buf@.take(n as int)
            }),
            final(self).mic == old(self).mic,
            final(self).speaker.capacity() == old(self).speaker.capacity(),
            final(self).mic_enabled == old(self).mic_enabled,
            final(self).speaker_enabled == old(self).speaker_enabled,
    {
        if !self.speaker_enabled {
            return Err(Error::Config { stage: "audio_speaker", message: to_string("speaker not initialized") });
        }
        let n = self.speaker.push_slice_blocking(buf);
        Ok(n)
    }
}

} // verus!
