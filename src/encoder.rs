//! The media encode pipeline: frame validation, the encoder slot that follows
//! the stream's resolution, presentation timestamps and outbound samples.
//!
//! The codec itself runs outside this module. The slot decides whether the
//! current codec instance can take a frame or a new one must be built, and
//! every change of the slot happens in one call.
use vstd::prelude::*;

verus! {

/// Presentation-timestamp ticks between two consecutive frames.
pub const FRAME_TICKS: u64 = 3000;

/// Nominal duration of one sample, in milliseconds.
pub const FRAME_DURATION_MS: u64 = 33;

/// Numerator of the codec's time base, in seconds.
pub const TIMEBASE_NUM: i32 = 1;

/// Denominator of the codec's time base, in seconds.
pub const TIMEBASE_DEN: i32 = 30;

/// Target bitrate handed to the codec.
pub const TARGET_BITRATE: u32 = 1000000;

/// The largest frame count whose timestamp still fits in an `i64`.
pub const MAX_FRAME_COUNT: u64 = 9223372036854775807 / FRAME_TICKS;

/// Bytes in a planar 4:2:0 picture of the given dimensions.
pub open spec fn spec_frame_len(width: int, height: int) -> int {
    width * height * 3 / 2
}

/// A frame submission that the pipeline accepts: positive dimensions and a
/// buffer of exactly one 4:2:0 picture.
pub open spec fn valid_frame(width: i32, height: i32, len: usize) -> bool {
    &&& width > 0
    &&& height > 0
    &&& len as int == spec_frame_len(width as int, height as int)
}

/// Presentation timestamp of the frame with the given (1-based) count.
pub open spec fn spec_pts(frame_count: int) -> int {
    frame_count * FRAME_TICKS as int
}

proof fn lemma_frame_len_bounds(width: int, height: int)
    requires
        0 < width <= i32::MAX,
        0 < height <= i32::MAX,
    ensures
        0 < width * height,
        width * height * 3 <= u64::MAX,
{
    assert(0 < width * height) by (nonlinear_arith)
        requires
            0 < width,
            0 < height,
    ;
    assert(width * height <= i32::MAX * i32::MAX) by (nonlinear_arith)
        requires
            0 < width <= i32::MAX,
            0 < height <= i32::MAX,
    ;
}

/// Number of bytes of a planar 4:2:0 picture of `width` by `height` pixels;
/// `None` for non-positive dimensions or a size that does not fit in `usize`.
pub fn frame_len(width: i32, height: i32) -> (r: Option<usize>)
    ensures
        r is Some <==> width > 0 && height > 0 && spec_frame_len(width as int, height as int)
            <= usize::MAX,
        r matches Some(n) ==> n as int == spec_frame_len(width as int, height as int),
{
    if width <= 0 || height <= 0 {
        return None;
    }
    proof {
        lemma_frame_len_bounds(width as int, height as int);
    }
    let area: u64 = (width as u64) * (height as u64);
    let n: u64 = area * 3 / 2;
    if n > usize::MAX as u64 {
        None
    } else {
        Some(n as usize)
    }
}

/// Why a frame submission was turned away before any codec work.
#[derive(Clone, Copy, Debug, PartialEq, Eq, Structural)]
pub enum FrameError {
    /// Width or height is zero or negative.
    InvalidDimensions,
    /// The buffer does not hold exactly one 4:2:0 picture.
    WrongLength,
    /// The frame counter cannot grow without its timestamp overflowing.
    CounterExhausted,
}

/// Parameters for building a codec instance at one resolution.
#[derive(Clone, Copy, Debug, PartialEq, Eq, Structural)]
pub struct EncoderConfig {
    pub width: u32,
    pub height: u32,
    pub timebase_num: i32,
    pub timebase_den: i32,
    pub bitrate: u32,
}

pub open spec fn spec_encoder_config(width: u32, height: u32) -> EncoderConfig {
    EncoderConfig {
        width,
        height,
        timebase_num: TIMEBASE_NUM,
        timebase_den: TIMEBASE_DEN,
        bitrate: TARGET_BITRATE,
    }
}

/// The codec parameters used for a stream of `width` by `height` pixels.
pub fn encoder_config(width: u32, height: u32) -> (r: EncoderConfig)
    ensures
        r == spec_encoder_config(width, height),
{
    EncoderConfig {
        width,
        height,
        timebase_num: TIMEBASE_NUM,
        timebase_den: TIMEBASE_DEN,
        bitrate: TARGET_BITRATE,
    }
}

/// A codec instance together with the resolution it was built for and the
/// number of frames it has been given.
#[derive(Debug, PartialEq, Eq)]
pub struct ActiveEncoder<E> {
    pub instance: E,
    pub width: u32,
    pub height: u32,
    pub frame_count: u64,
}

/// What the pipeline does next with a submitted frame.
#[derive(Clone, Copy, Debug, PartialEq, Eq, Structural)]
pub enum FrameStart {
    /// Compress the picture with the current instance at this timestamp.
    Encode { pts: i64 },
    /// Build a codec instance with this configuration, then install it.
    NeedEncoder(EncoderConfig),
    /// Turn the frame away; the slot is unchanged.
    Rejected(FrameError),
}

/// Zero or one codec instance, replaced whole whenever the resolution changes.
#[derive(Debug, PartialEq, Eq)]
pub struct EncoderSlot<E> {
    pub active: Option<ActiveEncoder<E>>,
}

impl<E> EncoderSlot<E> {
    /// The slot's invariant: an installed instance has positive dimensions
    /// and a frame count in `1..=MAX_FRAME_COUNT`.
    pub open spec fn wf(&self) -> bool {
        self.active matches Some(a) ==> {
            &&& a.width > 0
            &&& a.height > 0
            &&& 1 <= a.frame_count <= MAX_FRAME_COUNT
        }
    }

    /// Whether the installed instance was built for exactly this resolution.
    pub open spec fn spec_matches(&self, width: i32, height: i32) -> bool {
        self.active matches Some(a) && a.width as int == width as int && a.height as int
            == height as int
    }

    /// The decision taken on a frame of the given shape.
    pub open spec fn spec_begin(&self, width: i32, height: i32, len: usize) -> FrameStart {
        if width <= 0 || height <= 0 {
            FrameStart::Rejected(FrameError::InvalidDimensions)
        } else if len as int != spec_frame_len(width as int, height as int) {
            FrameStart::Rejected(FrameError::WrongLength)
        } else if self.spec_matches(width, height) {
            if self.active->0.frame_count < MAX_FRAME_COUNT {
                FrameStart::Encode {
                    pts: spec_pts(self.active->0.frame_count + 1) as i64,
                }
            } else {
                FrameStart::Rejected(FrameError::CounterExhausted)
            }
        } else {
            FrameStart::NeedEncoder(spec_encoder_config(width as u32, height as u32))
        }
    }

    /// The slot after the decision of `spec_begin`: only `Encode` changes it,
    /// by one more frame on the same instance.
    pub open spec fn spec_after_begin(self, width: i32, height: i32, len: usize) -> Self {
        match self.spec_begin(width, height, len) {
            FrameStart::Encode { .. } => EncoderSlot {
                active: Some(
                    ActiveEncoder {
                        frame_count: (self.active->0.frame_count + 1) as u64,
                        ..self.active->0
                    },
                ),
            },
            _ => self,
        }
    }

    /// The slot holding a freshly built `instance` that has taken its first frame.
    pub open spec fn spec_install(config: EncoderConfig, instance: E) -> Self {
        EncoderSlot {
            active: Some(
                ActiveEncoder { instance, width: config.width, height: config.height, frame_count: 1 },
            ),
        }
    }

    /// A slot without a codec instance.
    pub fn new() -> (r: Self)
        ensures
            r.active is None,
            r.wf(),
    {
        EncoderSlot { active: None }
    }

    /// Whether a codec instance is installed.
    pub fn has_encoder(&self) -> (r: bool)
        ensures
            r == self.active is Some,
    {
        self.active.is_some()
    }

    /// The number of frames given to the installed instance (0 without one).
    pub fn frame_count(&self) -> (r: u64)
        ensures
            r == (match self.active {
                Some(a) => a.frame_count,
                None => 0,
            }),
    {
        match &self.active {
            Some(a) => a.frame_count,
            None => 0,
        }
    }

    /// Takes a frame of `width` by `height` pixels held in `len` bytes.
    ///
    /// An invalid frame is rejected and leaves the slot alone. A frame at the
    /// installed instance's resolution counts one more frame and gets its
    /// timestamp. Any other resolution asks for a new instance, which
    /// `install` then puts in place.
    pub fn begin_frame(&mut self, width: i32, height: i32, len: usize) -> (r: FrameStart)
        requires
            old(self).wf(),
        ensures
            r == old(self).spec_begin(width, height, len),
            *final(self) == old(self).spec_after_begin(width, height, len),
            final(self).wf(),
    {
        if width <= 0 || height <= 0 {
            return FrameStart::Rejected(FrameError::InvalidDimensions);
        }
        let fits = match frame_len(width, height) {
            Some(n) => n == len,
            None => false,
        };
        if !fits {
            return FrameStart::Rejected(FrameError::WrongLength);
        }
        let w = width as u32;
        let h = height as u32;
        let same = match &self.active {
            Some(a) => a.width == w && a.height == h,
            None => false,
        };
        if !same {
            return FrameStart::NeedEncoder(encoder_config(w, h));
        }
        match &mut self.active {
            Some(a) => {
                if a.frame_count < MAX_FRAME_COUNT {
                    a.frame_count = a.frame_count + 1;
                    let count = a.frame_count;
                    assert(count * FRAME_TICKS <= 9223372036854775807u64) by (nonlinear_arith)
                        requires
                            count <= MAX_FRAME_COUNT,
                    ;
                    FrameStart::Encode { pts: (count * FRAME_TICKS) as i64 }
                } else {
                    FrameStart::Rejected(FrameError::CounterExhausted)
                }
            },
            None => FrameStart::Rejected(FrameError::CounterExhausted),
        }
    }

    /// Replaces whatever instance was installed by `instance`, built from
    /// `config`, and counts its first frame; returns that frame's timestamp.
    pub fn install(&mut self, config: EncoderConfig, instance: E) -> (pts: i64)
        requires
            config.width > 0,
            config.height > 0,
        ensures
            *final(self) == Self::spec_install(config, instance),
            pts as int == spec_pts(1),
            final(self).wf(),
    {
        self.active = Some(
            ActiveEncoder { instance, width: config.width, height: config.height, frame_count: 1 },
        );
        FRAME_TICKS as i64
    }
}

/// Consecutive valid frames at the installed instance's resolution go to that
/// same instance, and each raises its frame count by exactly one.
pub proof fn lemma_same_resolution_reuses_encoder<E>(
    slot: EncoderSlot<E>,
    width: i32,
    height: i32,
    len: usize,
)
    requires
        slot.wf(),
        valid_frame(width, height, len),
        slot.spec_matches(width, height),
        slot.active->0.frame_count < MAX_FRAME_COUNT,
    ensures
        slot.spec_begin(width, height, len) is Encode,
        slot.spec_after_begin(width, height, len).active is Some,
        slot.spec_after_begin(width, height, len).active->0.instance == slot.active->0.instance,
        slot.spec_after_begin(width, height, len).active->0.frame_count == slot.active->0.frame_count
            + 1,
        slot.spec_after_begin(width, height, len).active->0.frame_count
            > slot.active->0.frame_count,
{
}

/// A valid frame at any other resolution (or with no instance installed)
/// leaves the slot as it is and asks for an instance built for that
/// resolution; once that instance is installed, the frame count restarts at 1.
pub proof fn lemma_resolution_change_new_encoder<E>(
    slot: EncoderSlot<E>,
    width: i32,
    height: i32,
    len: usize,
    fresh: E,
)
    requires
        slot.wf(),
        valid_frame(width, height, len),
        !slot.spec_matches(width, height),
    ensures
        slot.spec_begin(width, height, len) == FrameStart::NeedEncoder(
            spec_encoder_config(width as u32, height as u32),
        ),
        slot.spec_after_begin(width, height, len) == slot,
        EncoderSlot::spec_install(spec_encoder_config(width as u32, height as u32), fresh).active
            == Some(
            ActiveEncoder { instance: fresh, width: width as u32, height: height as u32, frame_count: 1 },
        ),
{
}

/// A valid frame is never rejected, except once the installed instance's
/// counter has reached its limit; an invalid one is always rejected and
/// leaves the slot unchanged.
pub proof fn lemma_frame_admission<E>(slot: EncoderSlot<E>, width: i32, height: i32, len: usize)
    requires
        slot.wf(),
    ensures
        valid_frame(width, height, len) && !(slot.spec_matches(width, height)
            && slot.active->0.frame_count == MAX_FRAME_COUNT) ==> !(slot.spec_begin(
            width,
            height,
            len,
        ) is Rejected),
        !valid_frame(width, height, len) ==> slot.spec_begin(width, height, len) is Rejected
            && slot.spec_after_begin(width, height, len) == slot,
{
}

/// A compressed unit and its nominal playback duration.
#[derive(Debug, PartialEq, Eq)]
pub struct Sample {
    pub data: Vec<u8>,
    pub duration_ms: u64,
}

/// What one frame submission hands to the transport: either samples to write
/// (possibly none) or an encode failure to record, never both.
#[derive(Debug, PartialEq, Eq)]
pub enum FrameOutcome {
    Deliver(Vec<Sample>),
    EncodeFailed,
}

/// Samples for the packets in `packets`, in order, each of the nominal duration.
pub open spec fn samples_match(samples: Seq<Sample>, packets: Seq<Vec<u8>>) -> bool {
    &&& samples.len() == packets.len()
    &&& forall|i: int|
        0 <= i < samples.len() ==> #[trigger] samples[i].data == packets[i]
            && samples[i].duration_ms == FRAME_DURATION_MS
}

/// Turns the codec's packets into samples: one per packet, in order, with
/// the packet's bytes and the nominal frame duration.
pub fn samples_from_packets(packets: Vec<Vec<u8>>) -> (r: Vec<Sample>)
    ensures
        samples_match(r@, packets@),
{
    let mut rest = packets;
    let mut samples: Vec<Sample> = Vec::new();
    while rest.len() > 0
        invariant
            samples@.len() + rest@.len() == packets@.len(),
            rest@ == packets@.subrange(samples@.len() as int, packets@.len() as int),
            samples_match(samples@, packets@.subrange(0, samples@.len() as int)),
        decreases rest@.len(),
    {
        let data = rest.remove(0);
        samples.push(Sample { data, duration_ms: FRAME_DURATION_MS });
        assert(samples_match(samples@, packets@.subrange(0, samples@.len() as int))) by {
            let k = samples@.len() - 1;
            assert(packets@.subrange(0, samples@.len() as int)[k] == packets@[k]);
            assert forall|i: int| 0 <= i < k implies packets@.subrange(
                0,
                samples@.len() as int,
            )[i] == packets@.subrange(0, k)[i] by {}
        }
    }
    assert(packets@.subrange(0, samples@.len() as int) =~= packets@);
    samples
}

/// The outcome of compressing one frame: `Some` packets become samples to
/// deliver, `None` (the codec failed) becomes `EncodeFailed`.
pub fn frame_outcome(encoded: Option<Vec<Vec<u8>>>) -> (r: FrameOutcome)
    ensures
        encoded is None <==> r is EncodeFailed,
        encoded matches Some(p) ==> r matches FrameOutcome::Deliver(s) && samples_match(s@, p@),
{
    match encoded {
        Some(packets) => FrameOutcome::Deliver(samples_from_packets(packets)),
        None => FrameOutcome::EncodeFailed,
    }
}

} // verus!
