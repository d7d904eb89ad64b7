//! The fixed binary header written at the start of the shared region.
//!
//! Every frame begins with a 32-byte record of eight 32-bit fields, stored
//! in the consumer's native (little-endian) byte order: `max_size` (owned
//! by the consumer, validated but never written by the producer), then
//! `width`, `height`, `stride`, `format`, `resize_mode`, `mirror_mode` and
//! `timeout`.  The pixel payload follows immediately after the header.

use vstd::assert_seqs_equal;
use vstd::bytes::{
    lemma_auto_spec_u32_to_from_le_bytes, spec_u32_from_le_bytes, spec_u32_to_le_bytes,
    u32_from_le_bytes, u32_to_le_bytes,
};
use vstd::prelude::*;
use vstd::slice::slice_subrange;

use crate::config::FrameConfig;

verus! {

/// Largest pixel payload the protocol supports, in bytes
/// (3840 x 2160 pixels, four channels, two bytes per channel).
pub const MAX_IMAGE_SIZE: usize = 3840 * 2160 * 4 * 2;

/// Size of the binary header record, in bytes (eight 32-bit fields).
pub const HEADER_SIZE: usize = 32;

/// Byte extent of the shared region: the header followed by the largest
/// supported payload.
pub const SHARED_DATA_SIZE: usize = HEADER_SIZE + MAX_IMAGE_SIZE;

/// Pixel format field value: 8-bit unsigned integer per channel.
pub const FORMAT_UINT8: i32 = 0;

/// Resize mode field value: linear.
pub const RESIZE_MODE_LINEAR: i32 = 1;

/// Mirror mode field value: disabled.
pub const MIRROR_MODE_DISABLED: i32 = 0;

/// Timeout field value handed to the consumer: effectively forever (the
/// largest positive 32-bit value minus a small safety margin).
pub const FRAME_TIMEOUT: i32 = 0x7fff_ffff - 200;

/// The header record, one field per protocol slot.  All fields but
/// `max_size` are 32-bit signed integers on the wire.
#[derive(Debug, Clone, Copy, PartialEq, Eq, Structural)]
pub struct Header {
    pub max_size: u32,
    pub width: i32,
    pub height: i32,
    pub stride: i32,
    pub format: i32,
    pub resize_mode: i32,
    pub mirror_mode: i32,
    pub timeout: i32,
}

impl Header {
    /// Overwrites the seven producer-owned fields with the fixed constants
    /// and the supplied dimensions.  `max_size` is the consumer's field: it
    /// must already hold the protocol maximum and is left untouched.
    pub fn fill(&mut self, width: i32, height: i32)
        requires
            old(self).max_size == MAX_IMAGE_SIZE as u32,
        ensures
            *final(self) == (Header {
                max_size: old(self).max_size,
                width,
                height,
                stride: width,
                format: FORMAT_UINT8,
                resize_mode: RESIZE_MODE_LINEAR,
                mirror_mode: MIRROR_MODE_DISABLED,
                timeout: FRAME_TIMEOUT,
            }),
    {
        self.width = width;
        self.height = height;
        self.stride = width;
        self.format = FORMAT_UINT8;
        self.resize_mode = RESIZE_MODE_LINEAR;
        self.mirror_mode = MIRROR_MODE_DISABLED;
        self.timeout = FRAME_TIMEOUT;
    }
}

/// The 32-bit signed value whose two's-complement bit pattern is `w`.
pub open spec fn spec_word_to_i32(w: u32) -> i32 {
    if w >= 0x8000_0000 {
        (w - 0x1_0000_0000) as i32
    } else {
        w as i32
    }
}

/// The bit pattern of the 32-bit signed value `x`, as an unsigned word.
pub open spec fn spec_i32_to_word(x: i32) -> u32 {
    if x < 0 {
        (x + 0x1_0000_0000) as u32
    } else {
        x as u32
    }
}

/// The two conversions between a signed field value and its wire word are
/// mutually inverse.
pub proof fn lemma_word_i32_round_trip()
    ensures
        forall|x: i32| spec_word_to_i32(#[trigger] spec_i32_to_word(x)) == x,
        forall|w: u32| spec_i32_to_word(#[trigger] spec_word_to_i32(w)) == w,
{
}

/// Reads a 32-bit signed field value out of its wire word.
pub fn word_to_i32(w: u32) -> (r: i32)
    ensures
        r == spec_word_to_i32(w),
{
    if w >= 0x8000_0000 {
        -((0xffff_ffffu32 - w) as i32) - 1
    } else {
        w as i32
    }
}

/// Writes a 32-bit signed field value as its wire word.
pub fn i32_to_word(x: i32) -> (w: u32)
    ensures
        w == spec_i32_to_word(x),
{
    if x < 0 {
        0xffff_ffffu32 - ((-(x + 1)) as u32)
    } else {
        x as u32
    }
}

/// `s` with the bytes at `[off, off + b.len())` replaced by `b`.
pub open spec fn spec_splice(s: Seq<u8>, off: int, b: Seq<u8>) -> Seq<u8>
    recommends
        0 <= off,
        off + b.len() <= s.len(),
{
    s.subrange(0, off) + b + s.subrange(off + b.len(), s.len() as int)
}

/// Pointwise description of a splice: bytes outside `[off, off + b.len())`
/// are untouched, bytes inside come from `b`.
pub proof fn lemma_splice(s: Seq<u8>, off: int, b: Seq<u8>)
    requires
        0 <= off,
        off + b.len() <= s.len(),
    ensures
        spec_splice(s, off, b).len() == s.len(),
        forall|i: int| 0 <= i < off ==> spec_splice(s, off, b)[i] == s[i],
        forall|i: int| 0 <= i < b.len() ==> spec_splice(s, off, b)[off + i] == b[i],
        forall|i: int|
            off + b.len() <= i < s.len() ==> spec_splice(s, off, b)[i] == s[i],
{
}

/// The little-endian word stored at byte offset `off` of `region`.
pub open spec fn spec_word_at(region: Seq<u8>, off: int) -> u32
    recommends
        0 <= off,
        off + 4 <= region.len(),
{
    spec_u32_from_le_bytes(region.subrange(off, off + 4))
}

/// The header record currently stored at the start of `region`.
pub open spec fn spec_header_of(region: Seq<u8>) -> Header
    recommends
        region.len() >= HEADER_SIZE,
{
    Header {
        max_size: spec_word_at(region, 0),
        width: spec_word_to_i32(spec_word_at(region, 4)),
        height: spec_word_to_i32(spec_word_at(region, 8)),
        stride: spec_word_to_i32(spec_word_at(region, 12)),
        format: spec_word_to_i32(spec_word_at(region, 16)),
        resize_mode: spec_word_to_i32(spec_word_at(region, 20)),
        mirror_mode: spec_word_to_i32(spec_word_at(region, 24)),
        timeout: spec_word_to_i32(spec_word_at(region, 28)),
    }
}

/// The 28 bytes of the seven producer-written fields, in wire order:
/// `width`, `height`, `stride`, `format`, `resize_mode`, `mirror_mode`,
/// `timeout`.
pub open spec fn spec_fields_bytes(width: i32, height: i32) -> Seq<u8> {
    spec_u32_to_le_bytes(spec_i32_to_word(width)) + spec_u32_to_le_bytes(
        spec_i32_to_word(height),
    ) + spec_u32_to_le_bytes(spec_i32_to_word(width)) + spec_u32_to_le_bytes(
        spec_i32_to_word(FORMAT_UINT8),
    ) + spec_u32_to_le_bytes(spec_i32_to_word(RESIZE_MODE_LINEAR)) + spec_u32_to_le_bytes(
        spec_i32_to_word(MIRROR_MODE_DISABLED),
    ) + spec_u32_to_le_bytes(spec_i32_to_word(FRAME_TIMEOUT))
}

/// Reads the little-endian word at byte offset `off`.
pub fn load_word(region: &Vec<u8>, off: usize) -> (w: u32)
    requires
        off + 4 <= region.len(),
    ensures
        w == spec_word_at(region@, off as int),
{
    let s = slice_subrange(region.as_slice(), off, off + 4);
    u32_from_le_bytes(s)
}

/// Reads the whole header record back out of the region.
pub fn read_header(region: &Vec<u8>) -> (h: Header)
    requires
        region.len() >= HEADER_SIZE,
    ensures
        h == spec_header_of(region@),
{
    Header {
        max_size: load_word(region, 0),
        width: word_to_i32(load_word(region, 4)),
        height: word_to_i32(load_word(region, 8)),
        stride: word_to_i32(load_word(region, 12)),
        format: word_to_i32(load_word(region, 16)),
        resize_mode: word_to_i32(load_word(region, 20)),
        mirror_mode: word_to_i32(load_word(region, 24)),
        timeout: word_to_i32(load_word(region, 28)),
    }
}

/// Encodes the seven producer-written fields for the given dimensions.
pub fn encode_fields(width: i32, height: i32) -> (v: Vec<u8>)
    ensures
        v@ == spec_fields_bytes(width, height),
        v.len() == 28,
{
    proof {
        lemma_auto_spec_u32_to_from_le_bytes();
    }
    let mut v: Vec<u8> = Vec::new();
    let mut b = u32_to_le_bytes(i32_to_word(width));
    v.append(&mut b);
    let mut b = u32_to_le_bytes(i32_to_word(height));
    v.append(&mut b);
    let mut b = u32_to_le_bytes(i32_to_word(width));
    v.append(&mut b);
    let mut b = u32_to_le_bytes(i32_to_word(FORMAT_UINT8));
    v.append(&mut b);
    let mut b = u32_to_le_bytes(i32_to_word(RESIZE_MODE_LINEAR));
    v.append(&mut b);
    let mut b = u32_to_le_bytes(i32_to_word(MIRROR_MODE_DISABLED));
    v.append(&mut b);
    let mut b = u32_to_le_bytes(i32_to_word(FRAME_TIMEOUT));
    v.append(&mut b);
    v
}

/// Copies `data` into the region at byte offset `off`, touching nothing
/// else.
pub fn write_at(region: &mut Vec<u8>, off: usize, data: &Vec<u8>)
    requires
        off + data.len() <= old(region).len(),
    ensures
        final(region)@ == spec_splice(old(region)@, off as int, data@),
{
    let n = data.len();
    let mut i: usize = 0;
    while i < n
        invariant
            n == data.len(),
            off + n <= region.len(),
            region.len() == old(region).len(),
            0 <= i <= n,
            forall|j: int| 0 <= j < off ==> region@[j] == old(region)@[j],
            forall|j: int| 0 <= j < i ==> region@[off + j] == data@[j],
            forall|j: int|
                off + i <= j < region.len() ==> region@[j] == old(region)@[j],
        decreases n - i,
    {
        region.set(off + i, data[i]);
        i += 1;
    }
    proof {
        assert_seqs_equal!(region@ == spec_splice(old(region)@, off as int, data@));
    }
}

/// Why a frame write was rejected before touching the region.
#[derive(Debug, Clone, Copy, PartialEq, Eq, Structural)]
pub enum WriteFrameError {
    /// The payload exceeds the protocol's maximum image size.
    PayloadTooLarge,
    /// The region is smaller than the protocol's shared-region extent.
    RegionTooSmall,
    /// The consumer's `max_size` field does not hold the protocol maximum.
    MaxSizeMismatch,
}

/// The region after a frame for `config` with payload `payload` has been
/// written: the seven producer fields spliced in at offset 4, then the
/// payload spliced in after the header.  Bytes before offset 4 (the
/// consumer's `max_size` field) and after the payload are untouched.
pub open spec fn spec_frame_written(region: Seq<u8>, config: FrameConfig, payload: Seq<u8>) -> Seq<
    u8,
> {
    spec_splice(
        spec_splice(region, 4, spec_fields_bytes(config.width as i32, config.height as i32)),
        HEADER_SIZE as int,
        payload,
    )
}

/// Writes one frame into the shared region: validates the payload size,
/// the region extent and the consumer's `max_size` field, then writes the
/// header fields and the payload.  A rejected frame leaves the region
/// untouched.
pub fn try_write_frame(region: &mut Vec<u8>, config: FrameConfig, payload: &Vec<u8>) -> (r: Result<
    (),
    WriteFrameError,
>)
    requires
        config.wf(),
    ensures
        r is Ok <==> (payload.len() <= MAX_IMAGE_SIZE && old(region).len() >= SHARED_DATA_SIZE
            && spec_word_at(old(region)@, 0) == MAX_IMAGE_SIZE as u32),
        r == Err::<(), WriteFrameError>(WriteFrameError::PayloadTooLarge) <==> payload.len()
            > MAX_IMAGE_SIZE,
        r == Err::<(), WriteFrameError>(WriteFrameError::RegionTooSmall) <==> (payload.len()
            <= MAX_IMAGE_SIZE && old(region).len() < SHARED_DATA_SIZE),
        r == Err::<(), WriteFrameError>(WriteFrameError::MaxSizeMismatch) <==> (payload.len()
            <= MAX_IMAGE_SIZE && old(region).len() >= SHARED_DATA_SIZE && spec_word_at(
            old(region)@,
            0,
        ) != MAX_IMAGE_SIZE as u32),
        r is Err ==> final(region)@ == old(region)@,
        r is Ok ==> final(region)@ == spec_frame_written(old(region)@, config, payload@),
{
    if payload.len() > MAX_IMAGE_SIZE {
        return Err(WriteFrameError::PayloadTooLarge);
    }
    if region.len() < SHARED_DATA_SIZE {
        return Err(WriteFrameError::RegionTooSmall);
    }
    if load_word(region, 0) != MAX_IMAGE_SIZE as u32 {
        return Err(WriteFrameError::MaxSizeMismatch);
    }
    let fields = encode_fields(config.width as i32, config.height as i32);
    write_at(region, 4, &fields);
    write_at(region, HEADER_SIZE, payload);
    Ok(())
}

/// Round trip (and the fixed field values): after a frame for `config` is
/// written, reading the header back yields exactly the written dimensions,
/// `stride` equal to the width, the fixed `format`, `resize_mode`,
/// `mirror_mode` and `timeout` constants, and the untouched `max_size`
/// word; the payload bytes sit immediately after the header; and nothing
/// before offset 4 or past the payload has changed.
pub proof fn lemma_frame_round_trip(region: Seq<u8>, config: FrameConfig, payload: Seq<u8>)
    requires
        region.len() >= SHARED_DATA_SIZE,
        payload.len() <= MAX_IMAGE_SIZE,
        config.wf(),
    ensures
        spec_frame_written(region, config, payload).len() == region.len(),
        spec_header_of(spec_frame_written(region, config, payload)) == (Header {
            max_size: spec_word_at(region, 0),
            width: config.width as i32,
            height: config.height as i32,
            stride: config.width as i32,
            format: FORMAT_UINT8,
            resize_mode: RESIZE_MODE_LINEAR,
            mirror_mode: MIRROR_MODE_DISABLED,
            timeout: FRAME_TIMEOUT,
        }),
        spec_frame_written(region, config, payload).subrange(
            HEADER_SIZE as int,
            HEADER_SIZE + payload.len(),
        ) == payload,
        forall|i: int|
            0 <= i < 4 ==> spec_frame_written(region, config, payload)[i] == region[i],
        forall|i: int|
            HEADER_SIZE + payload.len() <= i < region.len() ==> spec_frame_written(
                region,
                config,
                payload,
            )[i] == region[i],
{
    lemma_auto_spec_u32_to_from_le_bytes();
    lemma_word_i32_round_trip();
    let width = config.width as i32;
    let height = config.height as i32;
    let fields = spec_fields_bytes(width, height);
    let mid = spec_splice(region, 4, fields);
    let w = spec_frame_written(region, config, payload);
    lemma_splice(region, 4, fields);
    lemma_splice(mid, HEADER_SIZE as int, payload);
    assert(w.subrange(HEADER_SIZE as int, HEADER_SIZE + payload.len()) == payload) by {
        assert_seqs_equal!(
            w.subrange(HEADER_SIZE as int, HEADER_SIZE + payload.len()) == payload
        );
    }
    assert(w.subrange(0, 4) == region.subrange(0, 4)) by {
        assert_seqs_equal!(w.subrange(0, 4) == region.subrange(0, 4));
    }
    assert(spec_word_at(w, 0) == spec_word_at(region, 0)) by {
        assert_seqs_equal!(w.subrange(0, 4) == region.subrange(0, 4));
    }
    let words = seq![
        spec_i32_to_word(width),
        spec_i32_to_word(height),
        spec_i32_to_word(width),
        spec_i32_to_word(FORMAT_UINT8),
        spec_i32_to_word(RESIZE_MODE_LINEAR),
        spec_i32_to_word(MIRROR_MODE_DISABLED),
        spec_i32_to_word(FRAME_TIMEOUT),
    ];
    assert forall|k: int| 0 <= k < 7 implies spec_word_at(w, 4 + 4 * k) == words[k] by {
        assert(fields[4 * k + 0] == spec_u32_to_le_bytes(words[k])[0]);
        assert(fields[4 * k + 1] == spec_u32_to_le_bytes(words[k])[1]);
        assert(fields[4 * k + 2] == spec_u32_to_le_bytes(words[k])[2]);
        assert(fields[4 * k + 3] == spec_u32_to_le_bytes(words[k])[3]);
        assert_seqs_equal!(
            w.subrange(4 + 4 * k, 4 + 4 * k + 4) == spec_u32_to_le_bytes(words[k])
        );
    }
}

} // verus!
