//! Video playback: what the decoder's frames and samples are, when a stream
//! has ended, and when the audio port has to be opened anew.
//!
//! The decoder and the audio port themselves belong to whoever drives them;
//! what their answers mean is decided here.

use vstd::prelude::*;
use vstd::slice::slice_subrange;

use crate::text::{chars_of, join2, owned};

verus! {

/// Why a video cannot be played. The codes are the system's own.
#[derive(Copy, Clone, Debug, PartialEq, Eq, Structural)]
pub enum VideoError {
    /// The player could not be made.
    InitFailed(i32),
    /// The player refused the file.
    AddSourceFailed(i32),
    /// The path holds a NUL.
    InvalidPath,
    /// The audio port could not be opened.
    AudioOpenFailed(i32),
    /// There is no player on this system.
    NotOnVita,
}

/// A hexadecimal digit.
pub open spec fn hex_digit(d: int) -> char {
    if d < 10 {
        (48 + d) as char
    } else {
        (87 + d) as char
    }
}

/// `n` in hexadecimal, without leading zeros.
pub open spec fn hex(n: nat) -> Seq<char>
    decreases n,
{
    if n < 16 {
        seq![hex_digit(n as int)]
    } else {
        hex(n / 16).push(hex_digit((n % 16) as int))
    }
}

/// A code as an unsigned number of 32 bits.
pub open spec fn code_bits(code: i32) -> nat {
    if code < 0 {
        (code + 0x1_0000_0000) as nat
    } else {
        code as nat
    }
}

/// A code as it is written: in hexadecimal, behind `0x`.
pub open spec fn code_text(code: i32) -> Seq<char> {
    "0x"@ + hex(code_bits(code))
}

fn hex_text(n: u32) -> (r: String)
    ensures
        r@ == hex(n as nat),
    decreases n,
{
    let d: u8 = (n % 16) as u8;
    let c: char = if d < 10 {
        (48 + d) as char
    } else {
        (87 + d) as char
    };
    if n < 16 {
        let mut r = String::new();
        r.push(c);
        assert(r@ =~= seq![c]);
        r
    } else {
        let mut r = hex_text(n / 16);
        r.push(c);
        r
    }
}

fn code_words(words: &str, code: i32) -> (r: String)
    ensures
        r@ == words@ + code_text(code),
{
    let bits: u32 = if code < 0 {
        (code as i64 + 0x1_0000_0000) as u32
    } else {
        code as u32
    };
    let number = join2("0x", hex_text(bits).as_str());
    join2(words, number.as_str())
}

impl VideoError {
    /// What is told of a failure.
    pub open spec fn told(s: Self, r: String) -> bool {
        r@ == (match s {
            VideoError::InitFailed(c) => "sceAvPlayerInit failed: "@ + code_text(c),
            VideoError::AddSourceFailed(c) => "sceAvPlayerAddSource failed: "@ + code_text(c),
            VideoError::InvalidPath => "video path contains a NUL byte"@,
            VideoError::AudioOpenFailed(c) => "sceAudioOutOpenPort failed: "@ + code_text(c),
            VideoError::NotOnVita => "video playback is only available on Vita"@,
        })
    }

    /// The error in words.
    pub fn message(&self) -> (r: String)
        ensures
            Self::told(*self, r),
    {
        match *self {
            VideoError::InitFailed(c) => code_words("sceAvPlayerInit failed: ", c),
            VideoError::AddSourceFailed(c) => code_words("sceAvPlayerAddSource failed: ", c),
            VideoError::InvalidPath => owned("video path contains a NUL byte"),
            VideoError::AudioOpenFailed(c) => code_words("sceAudioOutOpenPort failed: ", c),
            VideoError::NotOnVita => owned("video playback is only available on Vita"),
        }
    }
}

/// What a player does.
#[derive(Copy, Clone, Debug, PartialEq, Eq, Structural)]
pub enum PlayerState {
    Playing,
    Paused,
    /// The end was reached: no more frames come.
    Eof,
}

// ── Frames ─────────────────────────────────────────────────────────────

/// One decoded frame: a plane of brightness, and one of colour in which the
/// two parts alternate, at half the height.
pub struct YuvFrame<'a> {
    pub width: u32,
    pub height: u32,
    pub timestamp_us: u64,
    pub y: &'a [u8],
    pub y_pitch: usize,
    pub uv: &'a [u8],
    pub uv_pitch: usize,
}

/// The bytes of the brightness plane.
pub open spec fn y_bytes(width: u32, height: u32) -> int {
    width * height
}

/// The bytes of the colour plane.
pub open spec fn uv_bytes(width: u32, height: u32) -> int {
    width * (height as int / 2)
}

/// How many bytes a frame takes, where they can be counted.
pub open spec fn frame_sized(width: u32, height: u32, r: Option<usize>) -> bool {
    match r {
        Some(n) => n == y_bytes(width, height) + uv_bytes(width, height),
        None => y_bytes(width, height) + uv_bytes(width, height) > usize::MAX,
    }
}

/// The bytes of a whole frame; nothing where they are more than can be
/// addressed.
pub fn frame_len(width: u32, height: u32) -> (r: Option<usize>)
    ensures
        frame_sized(width, height, r),
{
    proof {
        assert(0 <= width * height <= 0xffff_ffff * 0xffff_ffff) by (nonlinear_arith)
            requires
                0 <= width <= 0xffff_ffff,
                0 <= height <= 0xffff_ffff,
        ;
        assert(0 <= width * (height as int / 2) <= 0xffff_ffff * 0x7fff_ffff) by (nonlinear_arith)
            requires
                0 <= width <= 0xffff_ffff,
                0 <= height as int / 2 <= 0x7fff_ffff,
        ;
    }
    let w: u128 = width as u128;
    let total: u128 = w * (height as u128) + w * ((height / 2) as u128);
    if total <= usize::MAX as u128 {
        Some(total as usize)
    } else {
        None
    }
}

impl<'a> YuvFrame<'a> {
    /// The frame that a decoder's buffer holds: the brightness first, without
    /// gaps, then the colour.
    pub fn of_buffer(width: u32, height: u32, timestamp_us: u64, data: &'a [u8]) -> (r: YuvFrame<'a>)
        requires
            y_bytes(width, height) + uv_bytes(width, height) <= data@.len(),
        ensures
            planes_of(r, width, height, timestamp_us, data@),
    {
        let n: usize = data.len();
        proof {
            assert(0 <= width * (height as int / 2)) by (nonlinear_arith)
                requires
                    0 <= width,
                    0 <= height as int / 2,
            ;
            assert(0 <= width * height) by (nonlinear_arith)
                requires
                    0 <= width,
                    0 <= height,
            ;
        }
        let w: usize = width as usize;
        let y_len: usize = w * (height as usize);
        let uv_len: usize = w * (height as usize / 2);
        assert(y_len + uv_len <= n);
        YuvFrame {
            width,
            height,
            timestamp_us,
            y: slice_subrange(data, 0, y_len),
            y_pitch: w,
            uv: slice_subrange(data, y_len, y_len + uv_len),
            uv_pitch: w,
        }
    }
}

/// A frame as the decoder hands it out.
#[derive(Copy, Clone, Debug)]
pub struct RawFrame<'a> {
    pub width: u32,
    pub height: u32,
    pub timestamp_us: u64,
    pub data: &'a [u8],
}

/// A frame and its two planes in the buffer of the decoder: the brightness
/// first, without gaps, then the colour.
pub open spec fn planes_of(
    f: YuvFrame,
    width: u32,
    height: u32,
    timestamp_us: u64,
    data: Seq<u8>,
) -> bool {
    let n = y_bytes(width, height);
    &&& f.width == width
    &&& f.height == height
    &&& f.timestamp_us == timestamp_us
    &&& f.y_pitch == width
    &&& f.uv_pitch == width
    &&& f.y@ == data.subrange(0, n)
    &&& f.uv@ == data.subrange(n, n + uv_bytes(width, height))
}

/// One chunk of decoded samples, the channels alternating.
pub struct AudioChunk<'a> {
    pub samples: &'a [i16],
    pub sample_rate: u32,
    pub channel_count: u16,
}

/// Two bytes make a sample.
pub open spec fn samples_counted(bytes: usize, r: usize) -> bool {
    r == bytes as int / 2
}

/// The number of samples in a buffer of this many bytes.
pub fn sample_count(bytes: usize) -> (r: usize)
    ensures
        samples_counted(bytes, r),
{
    bytes / 2
}

// ── The player ─────────────────────────────────────────────────────────

/// What is known of a stream that is being played.
pub struct VideoPlayer {
    pub state: PlayerState,
    pub video_w: u32,
    pub video_h: u32,
    /// A frame has come: from then on, no activity means the end.
    pub seen_frame: bool,
}

/// A player without a frame: once one has been seen, a lack of activity is the
/// end.
pub open spec fn eof_ticked(p: VideoPlayer, active: bool) -> VideoPlayer {
    VideoPlayer {
        state: if p.seen_frame && !active {
            PlayerState::Eof
        } else {
            p.state
        },
        ..p
    }
}

/// What the decoder hands out, and what that makes of a player.
pub open spec fn frame_taken(
    a: VideoPlayer,
    b: VideoPlayer,
    got: Option<RawFrame>,
    active: bool,
    r: Option<YuvFrame>,
) -> bool {
    match got {
        Some(g) => {
            &&& r matches Some(f) && planes_of(f, g.width, g.height, g.timestamp_us, g.data@)
            &&& b == (VideoPlayer {
                video_w: g.width,
                video_h: g.height,
                seen_frame: true,
                ..a
            })
        },
        None => r is None && b == eof_ticked(a, active),
    }
}

impl VideoPlayer {
    /// A path that cannot be handed on is refused.
    pub open spec fn path_checked(path: Seq<char>, r: Result<(), VideoError>) -> bool {
        r == (if path.contains('\0') {
            Err(VideoError::InvalidPath)
        } else {
            Ok(())
        })
    }

    /// Whether a path can be handed to the system: it holds no NUL.
    pub fn check_path(path: &str) -> (r: Result<(), VideoError>)
        ensures
            Self::path_checked(path@, r),
    {
        let x = chars_of(path);
        let mut i: usize = 0;
        while i < x.len()
            invariant
                i <= x@.len(),
                x@ == path@,
                forall|k: int| 0 <= k < i ==> #[trigger] x@[k] != '\0',
            decreases x@.len() - i,
        {
            if x[i] == '\0' {
                assert(path@[i as int] == '\0');
                return Err(VideoError::InvalidPath);
            }
            i += 1;
        }
        Ok(())
    }

    /// A player comes of a handle and a source that are good.
    pub open spec fn player_made(
        handle: i32,
        source: i32,
        r: Result<VideoPlayer, VideoError>,
    ) -> bool {
        r == (if handle == 0 {
            Err(VideoError::InitFailed(handle))
        } else if source < 0 {
            Err(VideoError::AddSourceFailed(source))
        } else {
            Ok(
                VideoPlayer {
                    state: PlayerState::Playing,
                    video_w: 0,
                    video_h: 0,
                    seen_frame: false,
                },
            )
        })
    }

    /// The player that the system made: `handle` is what it was given,
    /// `source` what came of adding the file.
    pub fn open(handle: i32, source: i32) -> (r: Result<VideoPlayer, VideoError>)
        ensures
            Self::player_made(handle, source, r),
    {
        if handle == 0 {
            return Err(VideoError::InitFailed(handle));
        }
        if source < 0 {
            return Err(VideoError::AddSourceFailed(source));
        }
        Ok(
            VideoPlayer {
                state: PlayerState::Playing,
                video_w: 0,
                video_h: 0,
                seen_frame: false,
            },
        )
    }

    /// No frame came. Once one has been seen, a player that is no longer
    /// active has reached the end; before that it is only warming up.
    pub fn tick_eof(&mut self, active: bool)
        ensures
            *final(self) == eof_ticked(*old(self), active),
    {
        if self.seen_frame && !active {
            self.state = PlayerState::Eof;
        }
    }

    /// Takes what the decoder hands out: a frame, or nothing. Without a frame the
    /// stream may have ended; `active` tells whether the decoder still works.
    pub fn next_video_frame<'a>(&mut self, got: Option<RawFrame<'a>>, active: bool) -> (r: Option<
        YuvFrame<'a>,
    >)
        requires
            got matches Some(g) ==> y_bytes(g.width, g.height) + uv_bytes(g.width, g.height)
                <= g.data@.len(),
        ensures
            frame_taken(*old(self), *final(self), got, active, r),
    {
        match got {
            Some(g) => {
                self.seen_frame = true;
                self.video_w = g.width;
                self.video_h = g.height;
                Some(YuvFrame::of_buffer(g.width, g.height, g.timestamp_us, g.data))
            },
            None => {
                self.tick_eof(active);
                None
            },
        }
    }

    /// The player stands still.
    pub open spec fn paused(a: Self, b: Self) -> bool {
        b == (VideoPlayer { state: PlayerState::Paused, ..a })
    }

    /// The reader paused.
    pub fn pause(&mut self)
        ensures
            Self::paused(*old(self), *final(self)),
    {
        self.state = PlayerState::Paused;
    }

    /// The player goes on.
    pub open spec fn resumed(a: Self, b: Self) -> bool {
        b == (VideoPlayer { state: PlayerState::Playing, ..a })
    }

    /// The reader went on.
    pub fn resume(&mut self)
        ensures
            Self::resumed(*old(self), *final(self)),
    {
        self.state = PlayerState::Playing;
    }

    /// What the player does.
    pub fn state(&self) -> (r: PlayerState)
        ensures
            r == self.state,
    {
        self.state
    }

    /// The size of the last frame.
    pub fn video_dimensions(&self) -> (r: (u32, u32))
        ensures
            r == (self.video_w, self.video_h),
    {
        (self.video_w, self.video_h)
    }
}

// ── Audio ──────────────────────────────────────────────────────────────

/// No audio port.
pub const NO_PORT: i32 = -1;

/// The audio port, and what it was opened for. It is negative while there is
/// none.
pub struct AudioOut {
    pub port: i32,
    pub sample_rate: u32,
    pub channel_count: u16,
    /// The samples per channel of one chunk.
    pub granularity: u32,
}

/// What a chunk of samples asks for.
#[derive(Copy, Clone, Debug, PartialEq, Eq, Structural)]
pub enum AudioPlan {
    /// Nothing: it is empty.
    Nothing,
    /// Put it out.
    Output { port: i32 },
    /// Release the port, if there is one, and open one for these chunks first.
    Reopen { release: Option<i32>, granularity: u32, sample_rate: u32, stereo: bool },
}

/// The samples per channel of a chunk.
pub open spec fn frames_of(chunk: AudioChunk) -> int {
    chunk.samples@.len() as int / (if chunk.channel_count == 0 {
        1int
    } else {
        chunk.channel_count as int
    })
}

/// The port was opened for chunks like this one.
pub open spec fn port_fits(out: AudioOut, chunk: AudioChunk) -> bool {
    &&& out.port >= 0
    &&& out.sample_rate == chunk.sample_rate
    &&& out.channel_count == chunk.channel_count
    &&& out.granularity == frames_of(chunk)
}

/// What a chunk asks for.
pub open spec fn audio_plan(out: AudioOut, chunk: AudioChunk) -> AudioPlan {
    if chunk.samples@.len() == 0 {
        AudioPlan::Nothing
    } else if port_fits(out, chunk) {
        AudioPlan::Output { port: out.port }
    } else {
        AudioPlan::Reopen {
            release: if out.port >= 0 {
                Some(out.port)
            } else {
                None
            },
            granularity: frames_of(chunk) as u32,
            sample_rate: chunk.sample_rate,
            stereo: chunk.channel_count >= 2,
        }
    }
}

/// The output once a port was opened for a chunk, or not.
pub open spec fn port_taken(out: AudioOut, port: i32, chunk: AudioChunk) -> AudioOut {
    if port < 0 {
        AudioOut { port: NO_PORT, ..out }
    } else {
        AudioOut {
            port,
            sample_rate: chunk.sample_rate,
            channel_count: chunk.channel_count,
            granularity: frames_of(chunk) as u32,
        }
    }
}

fn frame_count(chunk: &AudioChunk<'_>) -> (r: u32)
    requires
        chunk.samples@.len() <= u32::MAX,
    ensures
        r == frames_of(*chunk),
{
    let n: u32 = chunk.samples.len() as u32;
    let channels: u32 = if chunk.channel_count == 0 {
        1
    } else {
        chunk.channel_count as u32
    };
    n / channels
}

impl AudioOut {
    /// No port: the first chunk opens one.
    pub fn new() -> (r: AudioOut)
        ensures
            r == (AudioOut { port: NO_PORT, sample_rate: 0, channel_count: 0, granularity: 0 }),
    {
        AudioOut { port: NO_PORT, sample_rate: 0, channel_count: 0, granularity: 0 }
    }

    /// What a chunk asks for: the port is opened anew when the chunks change.
    pub fn plan(&self, chunk: &AudioChunk<'_>) -> (r: AudioPlan)
        requires
            chunk.samples@.len() <= u32::MAX,
        ensures
            r == audio_plan(*self, *chunk),
    {
        if chunk.samples.len() == 0 {
            return AudioPlan::Nothing;
        }
        let frames: u32 = frame_count(chunk);
        if self.port >= 0 && self.sample_rate == chunk.sample_rate && self.channel_count
            == chunk.channel_count && self.granularity == frames {
            return AudioPlan::Output { port: self.port };
        }
        AudioPlan::Reopen {
            release: if self.port >= 0 {
                Some(self.port)
            } else {
                None
            },
            granularity: frames,
            sample_rate: chunk.sample_rate,
            stereo: chunk.channel_count >= 2,
        }
    }

    /// Takes the port that was opened for a chunk; a negative one is an error.
    pub fn opened(&mut self, port: i32, chunk: &AudioChunk<'_>) -> (r: Result<(), VideoError>)
        requires
            chunk.samples@.len() <= u32::MAX,
        ensures
            r == (if port < 0 {
                Err(VideoError::AudioOpenFailed(port))
            } else {
                Ok(())
            }),
            *final(self) == port_taken(*old(self), port, *chunk),
    {
        if port < 0 {
            self.port = NO_PORT;
            return Err(VideoError::AudioOpenFailed(port));
        }
        self.port = port;
        self.sample_rate = chunk.sample_rate;
        self.channel_count = chunk.channel_count;
        self.granularity = frame_count(chunk);
        Ok(())
    }
}

impl Default for AudioOut {
    fn default() -> (r: AudioOut)
        ensures
            r == (AudioOut { port: NO_PORT, sample_rate: 0, channel_count: 0, granularity: 0 }),
    {
        AudioOut::new()
    }
}

// ── Memory for the decoder ─────────────────────────────────────────────

/// What stands before each block that the decoder gets: its size and alignment.
pub const HEADER: u64 = 16;

/// The decoder's picture memory comes in pieces of this size.
pub const TEXTURE_GRANULE: u64 = 1_048_576;

/// A block has room for its header and is aligned.
pub open spec fn laid_out(alignment: u32, size: u32, r: (u64, u32)) -> bool {
    &&& r.0 == size + HEADER
    &&& r.1 == (if alignment < 16 {
        16
    } else {
        alignment
    })
}

/// The size and alignment of a block for the decoder, its header counted in.
pub fn block_layout(alignment: u32, size: u32) -> (r: (u64, u32))
    ensures
        laid_out(alignment, size, r),
{
    let align: u32 = if alignment < 16 {
        16
    } else {
        alignment
    };
    (size as u64 + HEADER, align)
}

/// A block of whole granules.
pub open spec fn granted(size: u32, r: u64) -> bool {
    &&& r % TEXTURE_GRANULE == 0
    &&& size <= r < size + TEXTURE_GRANULE
}

/// The size of the picture memory that holds `size` bytes: whole pieces, and
/// as few as possible.
pub fn texture_block(size: u32) -> (r: u64)
    ensures
        granted(size, r),
{
    let pieces: u64 = (size as u64 + TEXTURE_GRANULE - 1) / TEXTURE_GRANULE;
    pieces * TEXTURE_GRANULE
}

/// Once a port was opened for a chunk, chunks like it are put out at once.
pub proof fn lemma_opened_port_fits(out: AudioOut, chunk: AudioChunk, like: AudioChunk, port: i32)
    requires
        port >= 0,
        chunk.samples@.len() <= u32::MAX,
        like.samples@.len() == chunk.samples@.len(),
        like.sample_rate == chunk.sample_rate,
        like.channel_count == chunk.channel_count,
        out == (AudioOut {
            port,
            sample_rate: chunk.sample_rate,
            channel_count: chunk.channel_count,
            granularity: frames_of(chunk) as u32,
        }),
    ensures
        port_fits(out, like),
{
    let c = if chunk.channel_count == 0 {
        1int
    } else {
        chunk.channel_count as int
    };
    assert(0 <= chunk.samples@.len() as int / c <= chunk.samples@.len()) by (nonlinear_arith)
        requires
            c >= 1,
    ;
}

/// A stream does not end before it has begun: as long as no frame came, no
/// lack of activity is the end.
pub proof fn lemma_warm_up_is_no_end(p: VideoPlayer, active: bool)
    requires
        !p.seen_frame,
    ensures
        eof_ticked(p, active) == p,
{
}

} // verus!
