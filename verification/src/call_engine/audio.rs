//! Audio buffering between the sound devices and the call.
//!
//! Samples are 32-bit floating-point numbers carried as their bit patterns:
//! the buffering neither reads nor changes them, and silence is the pattern
//! of all zero bits.

use super::ring::{
    ring_capacity, ring_contents, ring_new, ring_occupied_len, ring_try_pop, ring_try_push,
    SampleRing,
};
use vstd::arithmetic::div_mod::lemma_fundamental_div_mod_converse;
use vstd::prelude::*;

verus! {

/// Samples per second on the call side.
pub const SAMPLE_RATE: u32 = 48000;

/// Channels on the call side.
pub const CHANNELS: u16 = 1;

/// Samples in one frame: 20 ms at 48 kHz.
pub const FRAME_SIZE: usize = 960;

/// Samples that each ring buffer holds: ten frames.
pub const RING_BUFFER_SIZE: usize = 9600;

/// The bit pattern of the sample `0.0`.
pub const SILENCE: u32 = 0;

/// What can go wrong with the sound devices.
#[derive(Debug)]
pub enum AudioError {
    NoInputDevice,
    NoOutputDevice,
    UnsupportedConfig(String),
    StreamBuildError(String),
    StreamPlayError(String),
}

/// One range of stream configurations that a device reports.
#[derive(Clone, Copy, Debug, PartialEq, Eq)]
pub struct SupportedRange {
    pub channels: u16,
    pub min_sample_rate: u32,
    pub max_sample_rate: u32,
    /// Whether the samples of this range are 32-bit floats.
    pub is_f32: bool,
}

/// The configuration chosen for a stream.
#[derive(Clone, Copy, Debug, PartialEq, Eq)]
pub struct StreamChoice {
    pub channels: u16,
    pub sample_rate: u32,
}

impl SupportedRange {
    /// The range offers float samples at exactly the call's sample rate.
    pub open spec fn is_exact(self) -> bool {
        self.is_f32 && self.min_sample_rate <= SAMPLE_RATE && SAMPLE_RATE <= self.max_sample_rate
    }

    /// The call's sample rate, moved into the range where it lies outside.
    pub open spec fn clamped_rate(self) -> u32 {
        if SAMPLE_RATE < self.min_sample_rate {
            self.min_sample_rate
        } else if SAMPLE_RATE > self.max_sample_rate {
            self.max_sample_rate
        } else {
            SAMPLE_RATE
        }
    }
}

/// `i` is the first range of `s` that offers float samples at 48 kHz.
pub open spec fn first_exact(s: Seq<SupportedRange>, i: int) -> bool {
    &&& 0 <= i < s.len()
    &&& s[i].is_exact()
    &&& forall|j: int| 0 <= j < i ==> !(#[trigger] s[j]).is_exact()
}

/// `i` is the first range of `s` that offers float samples at all.
pub open spec fn first_float(s: Seq<SupportedRange>, i: int) -> bool {
    &&& 0 <= i < s.len()
    &&& s[i].is_f32
    &&& forall|j: int| 0 <= j < i ==> !(#[trigger] s[j]).is_f32
}

/// The choice that the selection policy makes among `s`, if it makes one:
/// the first float range that covers 48 kHz, at 48 kHz; failing that the
/// first float range, at the supported rate nearest to 48 kHz; failing that
/// the first range, at its highest rate.
pub open spec fn is_best_choice(s: Seq<SupportedRange>, c: StreamChoice) -> bool {
    if exists|i: int| first_exact(s, i) {
        exists|i: int| first_exact(s, i) && c == (StreamChoice {
            channels: s[i].channels,
            sample_rate: SAMPLE_RATE,
        })
    } else if exists|i: int| first_float(s, i) {
        exists|i: int| first_float(s, i) && c == (StreamChoice {
            channels: s[i].channels,
            sample_rate: s[i].clamped_rate(),
        })
    } else {
        s.len() > 0 && c == (StreamChoice {
            channels: s[0].channels,
            sample_rate: s[0].max_sample_rate,
        })
    }
}

/// Chooses a stream configuration among the ranges that a device reports.
/// It fails exactly when the device reports none.
pub fn select_best_config(configs: &Vec<SupportedRange>) -> (r: Result<StreamChoice, AudioError>)
    ensures
        configs@.len() == 0 <==> r is Err,
        r matches Ok(c) ==> is_best_choice(configs@, c),
        r matches Err(e) ==> (e matches AudioError::UnsupportedConfig(m) && m@
            == "No suitable audio configuration found"@),
{
    let mut i: usize = 0;
    while i < configs.len()
        invariant
            i <= configs.len(),
            forall|j: int| 0 <= j < i ==> !(#[trigger] configs@[j]).is_exact(),
        decreases configs.len() - i,
    {
        let c = configs[i];
        if c.is_f32 && c.min_sample_rate <= SAMPLE_RATE && SAMPLE_RATE <= c.max_sample_rate {
            assert(first_exact(configs@, i as int));
            return Ok(StreamChoice { channels: c.channels, sample_rate: SAMPLE_RATE });
        }
        i += 1;
    }
    assert(!exists|k: int| first_exact(configs@, k));
    let mut i: usize = 0;
    while i < configs.len()
        invariant
            i <= configs.len(),
            forall|j: int| 0 <= j < i ==> !(#[trigger] configs@[j]).is_f32,
            !exists|k: int| first_exact(configs@, k),
        decreases configs.len() - i,
    {
        let c = configs[i];
        if c.is_f32 {
            let rate: u32 = if SAMPLE_RATE < c.min_sample_rate {
                c.min_sample_rate
            } else if SAMPLE_RATE > c.max_sample_rate {
                c.max_sample_rate
            } else {
                SAMPLE_RATE
            };
            assert(first_float(configs@, i as int));
            return Ok(StreamChoice { channels: c.channels, sample_rate: rate });
        }
        i += 1;
    }
    assert(!exists|k: int| first_float(configs@, k));
    if configs.len() > 0 {
        let c = configs[0];
        return Ok(StreamChoice { channels: c.channels, sample_rate: c.max_sample_rate });
    }
    Err(AudioError::UnsupportedConfig(String::from_str("No suitable audio configuration found")))
}

/// Buffers between the sound devices and the call: what the microphone
/// captured and the call has not read yet, and what the call wrote and the
/// speakers have not played yet.
pub struct AudioHandler {
    capture_buffer: SampleRing,
    playback_buffer: SampleRing,
    capturing: bool,
    playing: bool,
    muted: bool,
    input_level: u32,
    output_level: u32,
}

impl AudioHandler {
    /// Both buffers have their fixed capacity and hold no more than it.
    pub closed spec fn wf(&self) -> bool {
        &&& ring_capacity(self.capture_buffer) == RING_BUFFER_SIZE
        &&& ring_capacity(self.playback_buffer) == RING_BUFFER_SIZE
        &&& ring_contents(self.capture_buffer).len() <= RING_BUFFER_SIZE
        &&& ring_contents(self.playback_buffer).len() <= RING_BUFFER_SIZE
    }

    /// The captured samples that wait to be read, oldest first.
    pub closed spec fn captured(&self) -> Seq<u32> {
        ring_contents(self.capture_buffer)
    }

    /// The written samples that wait to be played, oldest first.
    pub closed spec fn queued(&self) -> Seq<u32> {
        ring_contents(self.playback_buffer)
    }

    /// Whether the microphone is muted.
    pub closed spec fn muted(&self) -> bool {
        self.muted
    }

    /// The latest input and output levels.
    pub closed spec fn levels(&self) -> (u32, u32) {
        (self.input_level, self.output_level)
    }

    /// Whether the capture stream is open.
    pub closed spec fn capturing(&self) -> bool {
        self.capturing
    }

    /// Whether the playback stream is open.
    pub closed spec fn playing(&self) -> bool {
        self.playing
    }

    /// Muting and the two streams are in `self` as in `before`.
    pub open spec fn same_controls(&self, before: &Self) -> bool {
        &&& self.muted() == before.muted()
        &&& self.capturing() == before.capturing()
        &&& self.playing() == before.playing()
    }

    /// The two buffers hold in `self` what they hold in `before`.
    pub open spec fn same_buffers(&self, before: &Self) -> bool {
        &&& self.captured() == before.captured()
        &&& self.queued() == before.queued()
    }

    /// `self` is `before` after a frame was asked for and `r` came back:
    /// the oldest 960 captured samples, taken out, where that many were
    /// there; nothing otherwise.
    pub open spec fn after_read_frame(&self, before: &Self, r: Option<Vec<u32>>) -> bool {
        &&& self.same_controls(before)
        &&& self.levels() == before.levels()
        &&& self.queued() == before.queued()
        &&& match r {
            Some(frame) => before.captured().len() >= FRAME_SIZE && frame@
                == before.captured().take(FRAME_SIZE as int) && self.captured()
                == before.captured().skip(FRAME_SIZE as int),
            None => before.captured().len() < FRAME_SIZE && self.captured() == before.captured(),
        }
    }

    /// `self` is `before` after `samples` were written for playback: they
    /// stand behind what was queued, as far as there was room.
    pub open spec fn after_write(&self, before: &Self, samples: Seq<u32>) -> bool {
        &&& self.same_controls(before)
        &&& self.levels() == before.levels()
        &&& self.captured() == before.captured()
        &&& self.queued() == before.queued() + samples.take(
            accepted_count(before.queued().len(), samples.len()),
        )
    }

    /// `self` is `before` after a block from the microphone: the input
    /// level is `level`, and the block, silenced while muted, stands behind
    /// what was captured, as far as there was room.
    pub open spec fn after_capture(&self, before: &Self, samples: Seq<u32>, level: u32) -> bool {
        &&& self.same_controls(before)
        &&& self.levels() == (level, before.levels().1)
        &&& self.queued() == before.queued()
        &&& self.captured() == before.captured() + heard(samples, before.muted()).take(
            accepted_count(before.captured().len(), samples.len()),
        )
    }

    /// `self` is `before` after `count` samples were handed to the
    /// speakers as `out`: the oldest queued samples, taken out, and silence
    /// for each that was not there.
    pub open spec fn after_playback(&self, before: &Self, count: usize, out: Seq<u32>) -> bool {
        &&& self.same_controls(before)
        &&& self.levels() == before.levels()
        &&& self.captured() == before.captured()
        &&& out.len() == count
        &&& forall|i: int|
            0 <= i < count ==> #[trigger] out[i] == (if i < before.queued().len() {
                before.queued()[i]
            } else {
                SILENCE
            })
        &&& self.queued() == before.queued().skip(
            if count <= before.queued().len() {
                count as int
            } else {
                before.queued().len() as int
            },
        )
    }

    /// No buffer ever holds more than its capacity.
    pub proof fn lemma_bounded(&self)
        requires
            self.wf(),
        ensures
            self.captured().len() <= RING_BUFFER_SIZE,
            self.queued().len() <= RING_BUFFER_SIZE,
    {
    }

    /// A handler with empty buffers, unmuted, both streams closed.
    pub fn new() -> (r: Result<Self, AudioError>)
        ensures
            r matches Ok(h) && h.wf() && h.captured().len() == 0 && h.queued().len() == 0
                && !h.muted() && !h.capturing() && !h.playing() && h.levels() == (SILENCE, SILENCE),
    {
        Ok(
            AudioHandler {
                capture_buffer: ring_new(RING_BUFFER_SIZE),
                playback_buffer: ring_new(RING_BUFFER_SIZE),
                capturing: false,
                playing: false,
                muted: false,
                input_level: SILENCE,
                output_level: SILENCE,
            },
        )
    }

    /// Opens the capture stream on the configuration chosen among those of
    /// the input device. Without a device, or without any configuration,
    /// the stream stays as it was.
    pub fn start_capture(&mut self, device: Option<&Vec<SupportedRange>>) -> (r: Result<
        StreamChoice,
        AudioError,
    >)
        requires
            old(self).wf(),
        ensures
            final(self).wf(),
            final(self).captured() == old(self).captured(),
            final(self).queued() == old(self).queued(),
            final(self).muted() == old(self).muted(),
            final(self).levels() == old(self).levels(),
            final(self).playing() == old(self).playing(),
            final(self).capturing() == (old(self).capturing() || r is Ok),
            match device {
                None => r matches Err(AudioError::NoInputDevice),
                Some(configs) => match r {
                    Ok(c) => is_best_choice(configs@, c),
                    Err(e) => configs@.len() == 0 && e is UnsupportedConfig,
                },
            },
    {
        match device {
            None => Err(AudioError::NoInputDevice),
            Some(configs) => {
                let choice = select_best_config(configs)?;
                self.capturing = true;
                Ok(choice)
            },
        }
    }

    /// Opens the playback stream, as [`Self::start_capture`] opens the
    /// capture stream.
    pub fn start_playback(&mut self, device: Option<&Vec<SupportedRange>>) -> (r: Result<
        StreamChoice,
        AudioError,
    >)
        requires
            old(self).wf(),
        ensures
            final(self).wf(),
            final(self).captured() == old(self).captured(),
            final(self).queued() == old(self).queued(),
            final(self).muted() == old(self).muted(),
            final(self).levels() == old(self).levels(),
            final(self).capturing() == old(self).capturing(),
            final(self).playing() == (old(self).playing() || r is Ok),
            match device {
                None => r matches Err(AudioError::NoOutputDevice),
                Some(configs) => match r {
                    Ok(c) => is_best_choice(configs@, c),
                    Err(e) => configs@.len() == 0 && e is UnsupportedConfig,
                },
            },
    {
        match device {
            None => Err(AudioError::NoOutputDevice),
            Some(configs) => {
                let choice = select_best_config(configs)?;
                self.playing = true;
                Ok(choice)
            },
        }
    }

    /// Closes both streams. What the buffers hold stays.
    pub fn stop(&mut self)
        requires
            old(self).wf(),
        ensures
            final(self).wf(),
            !final(self).capturing(),
            !final(self).playing(),
            final(self).captured() == old(self).captured(),
            final(self).queued() == old(self).queued(),
            final(self).muted() == old(self).muted(),
            final(self).levels() == old(self).levels(),
    {
        self.capturing = false;
        self.playing = false;
    }

    /// Takes the oldest frame of captured samples, if a whole frame is
    /// there; otherwise takes nothing.
    pub fn read_frame(&mut self) -> (r: Option<Vec<u32>>)
        requires
            old(self).wf(),
        ensures
            final(self).wf(),
            final(self).after_read_frame(old(self), r),
    {
        if ring_occupied_len(&self.capture_buffer) < FRAME_SIZE {
            return None;
        }
        let ghost before = self.captured();
        let mut frame: Vec<u32> = Vec::with_capacity(FRAME_SIZE);
        let mut i: usize = 0;
        while i < FRAME_SIZE
            invariant
                i <= FRAME_SIZE,
                before.len() >= FRAME_SIZE,
                before.len() <= RING_BUFFER_SIZE,
                ring_capacity(self.capture_buffer) == RING_BUFFER_SIZE,
                ring_contents(self.capture_buffer) == before.skip(i as int),
                frame@ == before.take(i as int),
                self.playback_buffer == old(self).playback_buffer,
                self.muted == old(self).muted,
                self.input_level == old(self).input_level,
                self.output_level == old(self).output_level,
                self.capturing == old(self).capturing,
                self.playing == old(self).playing,
                old(self).wf(),
            decreases FRAME_SIZE - i,
        {
            let sample = ring_try_pop(&mut self.capture_buffer);
            assert(before.skip(i as int).skip(1) == before.skip(i + 1));
            assert(before.take(i as int).push(before[i as int]) == before.take(i + 1));
            match sample {
                Some(s) => frame.push(s),
                None => {},
            }
            i += 1;
        }
        Some(frame)
    }

    /// Appends samples for playback. Those that find the buffer full are
    /// dropped: the oldest samples stay.
    pub fn write_samples(&mut self, samples: &[u32])
        requires
            old(self).wf(),
        ensures
            final(self).wf(),
            final(self).after_write(old(self), samples@),
    {
        let ghost before = self.queued();
        let mut i: usize = 0;
        while i < samples.len()
            invariant
                i <= samples.len(),
                before.len() <= RING_BUFFER_SIZE,
                ring_capacity(self.playback_buffer) == RING_BUFFER_SIZE,
                ring_contents(self.playback_buffer) == before + samples@.take(
                    accepted_count(before.len(), i as nat),
                ),
                self.capture_buffer == old(self).capture_buffer,
                self.muted == old(self).muted,
                self.input_level == old(self).input_level,
                self.output_level == old(self).output_level,
                self.capturing == old(self).capturing,
                self.playing == old(self).playing,
                old(self).wf(),
            decreases samples.len() - i,
        {
            let ghost k = accepted_count(before.len(), i as nat);
            let accepted = ring_try_push(&mut self.playback_buffer, samples[i]);
            proof {
                if accepted {
                    assert(k == i);
                    assert((before + samples@.take(k)).push(samples@[i as int]) == before
                        + samples@.take(k + 1));
                }
            }
            i += 1;
        }
        assert(samples@.take(accepted_count(before.len(), 0)) == Seq::<u32>::empty());
    }

    /// Takes in one block from the microphone: the level meter shows
    /// `level`, and the block's samples join the captured ones, each as
    /// silence while muted. Samples that find the buffer full are dropped.
    pub fn capture_block(&mut self, samples: &[u32], level: u32)
        requires
            old(self).wf(),
        ensures
            final(self).wf(),
            final(self).after_capture(old(self), samples@, level),
    {
        self.input_level = level;
        let ghost before = self.captured();
        let ghost block = heard(samples@, self.muted);
        let mut i: usize = 0;
        while i < samples.len()
            invariant
                i <= samples.len(),
                before.len() <= RING_BUFFER_SIZE,
                block == heard(samples@, self.muted),
                ring_capacity(self.capture_buffer) == RING_BUFFER_SIZE,
                ring_contents(self.capture_buffer) == before + block.take(
                    accepted_count(before.len(), i as nat),
                ),
                self.playback_buffer == old(self).playback_buffer,
                self.muted == old(self).muted,
                self.input_level == level,
                self.output_level == old(self).output_level,
                self.capturing == old(self).capturing,
                self.playing == old(self).playing,
                old(self).wf(),
            decreases samples.len() - i,
        {
            let ghost k = accepted_count(before.len(), i as nat);
            let sample = if self.muted {
                SILENCE
            } else {
                samples[i]
            };
            let accepted = ring_try_push(&mut self.capture_buffer, sample);
            proof {
                if accepted {
                    assert(k == i);
                    assert((before + block.take(k)).push(block[i as int]) == before + block.take(
                        k + 1,
                    ));
                }
            }
            i += 1;
        }
        assert(block.take(accepted_count(before.len(), 0)) == Seq::<u32>::empty());
    }

    /// Hands out the next `count` samples for the speakers, oldest first,
    /// with silence in place of each sample that is not there.
    pub fn playback_block(&mut self, count: usize) -> (out: Vec<u32>)
        requires
            old(self).wf(),
        ensures
            final(self).wf(),
            final(self).after_playback(old(self), count, out@),
    {
        let ghost before = self.queued();
        let mut out: Vec<u32> = Vec::new();
        let mut i: usize = 0;
        while i < count
            invariant
                i <= count,
                out@.len() == i,
                before == old(self).queued(),
                before.len() <= RING_BUFFER_SIZE,
                forall|j: int|
                    0 <= j < i ==> #[trigger] out@[j] == (if j < before.len() {
                        before[j]
                    } else {
                        SILENCE
                    }),
                ring_capacity(self.playback_buffer) == RING_BUFFER_SIZE,
                ring_contents(self.playback_buffer) == before.skip(
                    if i <= before.len() {
                        i as int
                    } else {
                        before.len() as int
                    },
                ),
                self.capture_buffer == old(self).capture_buffer,
                self.muted == old(self).muted,
                self.input_level == old(self).input_level,
                self.output_level == old(self).output_level,
                self.capturing == old(self).capturing,
                self.playing == old(self).playing,
                old(self).wf(),
            decreases count - i,
        {
            let sample = ring_try_pop(&mut self.playback_buffer);
            proof {
                if i < before.len() {
                    assert(before.skip(i as int).skip(1) == before.skip(i + 1));
                }
            }
            match sample {
                Some(s) => out.push(s),
                None => out.push(SILENCE),
            }
            i += 1;
        }
        out
    }

    /// Shows `level` on the output level meter.
    pub fn set_output_level(&mut self, level: u32)
        requires
            old(self).wf(),
        ensures
            final(self).wf(),
            final(self).levels() == (old(self).levels().0, level),
            final(self).same_buffers(old(self)),
            final(self).same_controls(old(self)),
    {
        self.output_level = level;
    }

    /// Mutes or unmutes the microphone.
    pub fn set_muted(&mut self, muted: bool)
        requires
            old(self).wf(),
        ensures
            final(self).wf(),
            final(self).muted() == muted,
            final(self).levels() == old(self).levels(),
            final(self).same_buffers(old(self)),
            final(self).capturing() == old(self).capturing(),
            final(self).playing() == old(self).playing(),
    {
        self.muted = muted;
    }

    /// Whether the microphone is muted.
    pub fn is_muted(&self) -> (r: bool)
        ensures
            r == self.muted(),
    {
        self.muted
    }

    /// The latest input and output levels.
    pub fn get_levels(&self) -> (r: (u32, u32))
        ensures
            r == self.levels(),
    {
        (self.input_level, self.output_level)
    }

    /// Whether the capture stream is open.
    pub fn is_capturing(&self) -> (r: bool)
        ensures
            r == self.capturing(),
    {
        self.capturing
    }

    /// Whether the playback stream is open.
    pub fn is_playing(&self) -> (r: bool)
        ensures
            r == self.playing(),
    {
        self.playing
    }
}

/// How many of `offered` samples a buffer that holds `held` takes in.
pub open spec fn accepted_count(held: nat, offered: nat) -> int {
    if held + offered <= RING_BUFFER_SIZE {
        offered as int
    } else {
        RING_BUFFER_SIZE - held
    }
}

/// What reaches the capture buffer of a block: the block itself, or as many
/// samples of silence while muted.
pub open spec fn heard(samples: Seq<u32>, muted: bool) -> Seq<u32> {
    if muted {
        Seq::new(samples.len(), |i: int| SILENCE)
    } else {
        samples
    }
}

/// The sample of frame `i`: what `samples` holds there, and silence behind
/// its end.
pub open spec fn sample_at(samples: Seq<u32>, i: int) -> u32 {
    if 0 <= i < samples.len() {
        samples[i]
    } else {
        SILENCE
    }
}

/// `frames` frames of `channels` channels, frame by frame, with the sample
/// of each frame on every channel of it.
pub open spec fn fanned_out(samples: Seq<u32>, frames: nat, channels: nat) -> Seq<u32> {
    Seq::new(frames * channels, |k: int| sample_at(samples, k / (channels as int)))
}

/// In what `fanned_out` gives, channel `c` of frame `i` stands at
/// `i * channels + c` and holds the sample of that frame.
pub proof fn lemma_fanned_out(samples: Seq<u32>, frames: nat, channels: nat, i: int, c: int)
    requires
        0 <= i < frames,
        0 <= c < channels,
    ensures
        0 <= i * channels + c < fanned_out(samples, frames, channels).len(),
        fanned_out(samples, frames, channels)[i * channels + c] == sample_at(samples, i),
{
    assert(0 <= i * channels && i * channels + channels <= frames * channels) by (nonlinear_arith)
        requires
            0 <= i < frames,
            0 < channels,
    ;
    lemma_fundamental_div_mod_converse(i * channels + c, channels as int, i, c);
}

/// Spreads mono samples over the channels of a device: `frames` frames,
/// each with its sample on every channel, and silence in the frames for
/// which there is no sample.
pub fn fan_out(samples: &[u32], frames: usize, channels: usize) -> (out: Vec<u32>)
    requires
        frames * channels <= usize::MAX,
    ensures
        out@ == fanned_out(samples@, frames as nat, channels as nat),
        out@.len() == frames * channels,
{
    let mut out: Vec<u32> = Vec::new();
    if channels == 0 {
        assert(frames * channels == 0) by (nonlinear_arith)
            requires
                channels == 0,
        ;
        assert(out@ =~= fanned_out(samples@, frames as nat, channels as nat));
        return out;
    }
    let mut i: usize = 0;
    assert(0 * channels == 0);
    while i < frames
        invariant
            i <= frames,
            channels > 0,
            out@.len() == i * channels,
            forall|k: int|
                0 <= k < out@.len() ==> #[trigger] out@[k] == sample_at(
                    samples@,
                    k / (channels as int),
                ),
        decreases frames - i,
    {
        let sample = if i < samples.len() {
            samples[i]
        } else {
            SILENCE
        };
        let mut c: usize = 0;
        while c < channels
            invariant
                c <= channels,
                i < frames,
                channels > 0,
                sample == sample_at(samples@, i as int),
                out@.len() == i * channels + c,
                forall|k: int|
                    0 <= k < out@.len() ==> #[trigger] out@[k] == sample_at(
                        samples@,
                        k / (channels as int),
                    ),
            decreases channels - c,
        {
            proof {
                assert(0 <= i * channels) by (nonlinear_arith)
                    requires
                        0 <= i,
                        0 < channels,
                ;
                lemma_fundamental_div_mod_converse(
                    i * channels + c,
                    channels as int,
                    i as int,
                    c as int,
                );
            }
            out.push(sample);
            c += 1;
        }
        assert(i * channels + channels == (i + 1) * channels) by (nonlinear_arith);
        i += 1;
    }
    assert(out@ =~= fanned_out(samples@, frames as nat, channels as nat));
    out
}

impl Default for AudioHandler {
    /// A handler with empty buffers, unmuted, both streams closed.
    fn default() -> (r: Self)
        ensures
            r.wf(),
            r.captured().len() == 0,
            r.queued().len() == 0,
            !r.muted(),
            !r.capturing(),
            !r.playing(),
            r.levels() == (SILENCE, SILENCE),
    {
        match AudioHandler::new() {
            Ok(handler) => handler,
            Err(_) => vstd::pervasive::unreached(),
        }
    }
}

} // verus!
