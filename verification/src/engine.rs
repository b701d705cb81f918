use crate::error::Failure;
use vstd::prelude::*;

verus! {

/// Status with which the engine reports success.
pub const STATUS_OK: i32 = 0;

/// Status with which the engine's read call reports that the stream is exhausted.
pub const STATUS_DONE: i32 = -12;

/// Status with which the engine reports an unspecific error.
pub const STATUS_ERR: i32 = -1;

/// Decode flag: downmix to mono, taking the left channel.
pub const FLAG_MONO_LEFT: i64 = 0x1;

/// Decode flag: downmix to mono, taking the right channel.
pub const FLAG_MONO_RIGHT: i64 = 0x2;

/// Decode flag: downmix to mono, mixing both channels.
pub const FLAG_MONO_MIX: i64 = 0x4;

/// Decode flag: force some mono mode, the three mono bits together.
pub const FLAG_FORCE_MONO: i64 = 0x7;

/// Decode flag: force stereo output.
pub const FLAG_FORCE_STEREO: i64 = 0x8;

/// Decode flag: force 8 bit output.
pub const FLAG_FORCE_8BIT: i64 = 0x10;

/// Decode flag: suppress the engine's messages.
pub const FLAG_QUIET: i64 = 0x20;

/// Decode flag: gapless decoding.
pub const FLAG_GAPLESS: i64 = 0x40;

/// Decode flag: do not resynchronise on frame errors.
pub const FLAG_NO_RESYNC: i64 = 0x80;

/// Decode flag: buffer non-seekable streams for small seeks.
pub const FLAG_SEEKBUFFER: i64 = 0x100;

/// Decode flag: fuzzy seeks.
pub const FLAG_FUZZY: i64 = 0x200;

/// Decode flag: floating point output.
pub const FLAG_FORCE_FLOAT: i64 = 0x400;

/// Decode flag: leave ID3 text as it is.
pub const FLAG_PLAIN_ID3TEXT: i64 = 0x800;

/// Decode flag: ignore the stream length that the header gives.
pub const FLAG_IGNORE_STREAMLENGTH: i64 = 0x1000;

/// Decode flag: skip ID3v2 tags without parsing them.
pub const FLAG_SKIP_ID3V2: i64 = 0x2000;

/// Decode flag: ignore the info frame.
pub const FLAG_IGNORE_INFOFRAME: i64 = 0x4000;

/// Decode flag: resample automatically.
pub const FLAG_AUTO_RESAMPLE: i64 = 0x8000;

/// Decode flag: parse pictures in ID3v2 tags.
pub const FLAG_PICTURE: i64 = 0x10000;

/// Every bit that the engine's flag set defines.
pub const RECOGNIZED_FLAGS: i64 = 0x1FFFF;

/// A flag set is recognized when it has no bit outside [`RECOGNIZED_FLAGS`].
pub open spec fn recognized(flags: i64) -> bool {
    flags & !RECOGNIZED_FLAGS == 0
}

/// Tells whether a flag set holds only bits that the engine defines.
pub fn is_recognized(flags: i64) -> (yes: bool)
    ensures
        yes == recognized(flags),
{
    flags & !RECOGNIZED_FLAGS == 0
}

/// The recognized flag sets are exactly the combinations of the named
/// flags, which are the numbers from zero to [`RECOGNIZED_FLAGS`].
pub proof fn lemma_recognized_flag_sets(flags: i64)
    ensures
        RECOGNIZED_FLAGS == FLAG_MONO_LEFT | FLAG_MONO_RIGHT | FLAG_MONO_MIX | FLAG_FORCE_MONO
            | FLAG_FORCE_STEREO | FLAG_FORCE_8BIT | FLAG_QUIET | FLAG_GAPLESS | FLAG_NO_RESYNC
            | FLAG_SEEKBUFFER | FLAG_FUZZY | FLAG_FORCE_FLOAT | FLAG_PLAIN_ID3TEXT
            | FLAG_IGNORE_STREAMLENGTH | FLAG_SKIP_ID3V2 | FLAG_IGNORE_INFOFRAME
            | FLAG_AUTO_RESAMPLE | FLAG_PICTURE,
        recognized(flags) <==> 0 <= flags <= RECOGNIZED_FLAGS,
        recognized(flags) <==> flags & RECOGNIZED_FLAGS == flags,
{
    assert(0x1FFFFi64 == 0x1i64 | 0x2i64 | 0x4i64 | 0x7i64 | 0x8i64 | 0x10i64 | 0x20i64 | 0x40i64
        | 0x80i64 | 0x100i64 | 0x200i64 | 0x400i64 | 0x800i64 | 0x1000i64 | 0x2000i64 | 0x4000i64
        | 0x8000i64 | 0x10000i64) by (bit_vector);
    assert((flags & !0x1FFFFi64 == 0) <==> (0 <= flags && flags <= 0x1FFFFi64)) by (bit_vector);
    assert((flags & !0x1FFFFi64 == 0) <==> (flags & 0x1FFFFi64 == flags)) by (bit_vector);
}

/// The output format that the engine negotiated for a source. The three
/// numbers are the engine's; this library attaches no meaning to them.
#[derive(Debug, Clone, Copy, PartialEq, Eq, Structural)]
pub struct Format {
    pub rate: i64,
    pub channels: i32,
    pub encoding: i32,
}

/// An engine call that a session asks its driver to make. A handle is the
/// address the engine returned at allocation, never zero.
#[derive(Debug, Clone, Copy, PartialEq, Eq, Structural)]
pub enum Request {
    /// Run the engine's process-wide initialisation (at most once per process).
    Initialize,
    /// Allocate a new handle with the engine's default decoder.
    Allocate,
    /// Add `flags` to the handle's decode flags.
    Configure { handle: usize, flags: i64 },
    /// Open the session's source on the handle.
    Open { handle: usize },
    /// Query rate, channels and encoding from the handle.
    QueryFormat { handle: usize },
    /// Close the input that is open on the handle.
    Close { handle: usize },
    /// Free the handle.
    Delete { handle: usize },
}

/// What the engine answered to a [`Request`].
#[derive(Debug, Clone, Copy, PartialEq, Eq, Structural)]
pub enum Reply {
    Initialized { status: i32 },
    Allocated { status: i32, handle: usize },
    Configured { status: i32 },
    Opened { status: i32 },
    FormatQueried { status: i32, rate: i64, channels: i32, encoding: i32 },
    Closed { status: i32 },
    Deleted,
}

/// What a read that ended with `status` means to the caller: success, the end
/// of the stream, or bad input for every other status.
pub open spec fn read_outcome(status: i32) -> Result<(), Failure> {
    if status == STATUS_OK {
        Ok(())
    } else if status == STATUS_DONE {
        Err(Failure::EOF)
    } else {
        Err(Failure::BadInput)
    }
}

} // verus!
