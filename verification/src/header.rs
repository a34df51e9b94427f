//! Parsing and validation of the fixed 44-byte WAV container header.
//!
//! The header is a pure byte-level structure: four fixed ASCII tags and a set
//! of little-endian integer fields. `parse` decodes it without any I/O, and
//! its contract pins the result down exactly via `spec_parse`.

use vstd::prelude::*;
use vstd::arithmetic::div_mod::lemma_div_is_ordered;
use vstd::arithmetic::div_mod::lemma_div_pos_is_pos;
use vstd::arithmetic::div_mod::lemma_div_denominator;
use vstd::arithmetic::div_mod::lemma_fundamental_div_mod;
use vstd::arithmetic::div_mod::lemma_fundamental_div_mod_converse;
use vstd::arithmetic::div_mod::lemma_small_mod;

verus! {

/// Little-endian value of the ASCII tag "RIFF".
pub const RIFF_TAG: u32 = 0x4646_4952;
/// Little-endian value of the ASCII tag "WAVE".
pub const WAVE_TAG: u32 = 0x4556_4157;
/// Little-endian value of the ASCII tag "fmt " (trailing space).
pub const FMT_TAG: u32 = 0x2074_6D66;
/// Little-endian value of the ASCII tag "data".
pub const DATA_TAG: u32 = 0x6174_6164;

/// Exact byte length of a WAV container header.
pub const HEADER_LEN: usize = 44;

/// Structured description of the audio stream, decoded from the 44 header
/// bytes. The four tag fields hold the little-endian packing of their four
/// ASCII bytes; after a successful `parse` they equal the fixed tag constants.
#[derive(Clone, Copy, PartialEq, Eq, Structural, Debug)]
pub struct WavHeader {
    pub riff_id: u32,
    pub declared_file_size: u32,
    pub format_tag: u32,
    pub chunk_format_id: u32,
    pub format_section_size: u32,
    pub audio_format: u16,
    pub channel_count: u16,
    pub sample_rate_hz: u32,
    pub byte_rate: u32,
    pub block_align: u16,
    pub bits_per_sample: u16,
    pub data_section_id: u32,
    pub data_size_bytes: u32,
}

/// Which of the four fixed tag fields failed validation.
#[derive(Clone, Copy, PartialEq, Eq, Structural, Debug)]
pub enum TagField {
    RiffId,
    FormatTag,
    ChunkFormatId,
    DataSectionId,
}

/// Why a header byte buffer was rejected.
#[derive(Clone, Copy, PartialEq, Eq, Structural, Debug)]
pub enum ParseError {
    /// The buffer was not exactly 44 bytes long.
    WrongLength { len: usize },
    /// A fixed tag field did not hold its required ASCII tag. `expected` and
    /// `actual` are the little-endian packings of the four tag bytes.
    BadTag { field: TagField, expected: u32, actual: u32 },
}

/// The little-endian 16-bit integer stored at byte offset `off` of `b`.
pub open spec fn le16_at(b: Seq<u8>, off: int) -> u16
    recommends
        0 <= off,
        off + 2 <= b.len(),
{
    (b[off] + b[off + 1] * 0x100) as u16
}

/// The little-endian 32-bit integer stored at byte offset `off` of `b`.
pub open spec fn le32_at(b: Seq<u8>, off: int) -> u32
    recommends
        0 <= off,
        off + 4 <= b.len(),
{
    (b[off] + b[off + 1] * 0x100 + b[off + 2] * 0x1_0000 + b[off + 3] * 0x100_0000) as u32
}

/// Mathematical definition of header parsing: tag checks in layout order,
/// then a field-for-field little-endian decode.
pub open spec fn spec_parse(b: Seq<u8>) -> Result<WavHeader, ParseError> {
    if b.len() != 44 {
        Err(ParseError::WrongLength { len: b.len() as usize })
    } else if le32_at(b, 0) != RIFF_TAG {
        Err(ParseError::BadTag {
            field: TagField::RiffId,
            expected: RIFF_TAG,
            actual: le32_at(b, 0),
        })
    } else if le32_at(b, 8) != WAVE_TAG {
        Err(ParseError::BadTag {
            field: TagField::FormatTag,
            expected: WAVE_TAG,
            actual: le32_at(b, 8),
        })
    } else if le32_at(b, 12) != FMT_TAG {
        Err(ParseError::BadTag {
            field: TagField::ChunkFormatId,
            expected: FMT_TAG,
            actual: le32_at(b, 12),
        })
    } else if le32_at(b, 36) != DATA_TAG {
        Err(ParseError::BadTag {
            field: TagField::DataSectionId,
            expected: DATA_TAG,
            actual: le32_at(b, 36),
        })
    } else {
        Ok(WavHeader {
            riff_id: le32_at(b, 0),
            declared_file_size: le32_at(b, 4),
            format_tag: le32_at(b, 8),
            chunk_format_id: le32_at(b, 12),
            format_section_size: le32_at(b, 16),
            audio_format: le16_at(b, 20),
            channel_count: le16_at(b, 22),
            sample_rate_hz: le32_at(b, 24),
            byte_rate: le32_at(b, 28),
            block_align: le16_at(b, 32),
            bits_per_sample: le16_at(b, 34),
            data_section_id: le32_at(b, 36),
            data_size_bytes: le32_at(b, 40),
        })
    }
}

fn read_le16(b: &[u8], off: usize) -> (r: u16)
    requires
        off + 2 <= b@.len(),
    ensures
        r == le16_at(b@, off as int),
{
    (b[off] as u16) + (b[off + 1] as u16) * 0x100
}

fn read_le32(b: &[u8], off: usize) -> (r: u32)
    requires
        off + 4 <= b@.len(),
    ensures
        r == le32_at(b@, off as int),
{
    (b[off] as u32) + (b[off + 1] as u32) * 0x100 + (b[off + 2] as u32) * 0x1_0000 + (b[off
        + 3] as u32) * 0x100_0000
}

/// Decode and validate a WAV container header from exactly 44 bytes.
///
/// Pure over the byte slice: validates the four fixed tags in layout order,
/// then decodes every multi-byte integer field as little-endian.
pub fn parse(bytes: &[u8]) -> (r: Result<WavHeader, ParseError>)
    ensures
        r == spec_parse(bytes@),
{
    if bytes.len() != 44 {
        return Err(ParseError::WrongLength { len: bytes.len() });
    }
    let riff_id = read_le32(bytes, 0);
    if riff_id != RIFF_TAG {
        return Err(ParseError::BadTag {
            field: TagField::RiffId,
            expected: RIFF_TAG,
            actual: riff_id,
        });
    }
    let format_tag = read_le32(bytes, 8);
    if format_tag != WAVE_TAG {
        return Err(ParseError::BadTag {
            field: TagField::FormatTag,
            expected: WAVE_TAG,
            actual: format_tag,
        });
    }
    let chunk_format_id = read_le32(bytes, 12);
    if chunk_format_id != FMT_TAG {
        return Err(ParseError::BadTag {
            field: TagField::ChunkFormatId,
            expected: FMT_TAG,
            actual: chunk_format_id,
        });
    }
    let data_section_id = read_le32(bytes, 36);
    if data_section_id != DATA_TAG {
        return Err(ParseError::BadTag {
            field: TagField::DataSectionId,
            expected: DATA_TAG,
            actual: data_section_id,
        });
    }
    Ok(WavHeader {
        riff_id,
        declared_file_size: read_le32(bytes, 4),
        format_tag,
        chunk_format_id,
        format_section_size: read_le32(bytes, 16),
        audio_format: read_le16(bytes, 20),
        channel_count: read_le16(bytes, 22),
        sample_rate_hz: read_le32(bytes, 24),
        byte_rate: read_le32(bytes, 28),
        block_align: read_le16(bytes, 32),
        bits_per_sample: read_le16(bytes, 34),
        data_section_id,
        data_size_bytes: read_le32(bytes, 40),
    })
}

/// The two little-endian bytes of a 16-bit integer.
pub open spec fn le16_bytes(x: u16) -> Seq<u8> {
    seq![(x % 0x100) as u8, ((x / 0x100) % 0x100) as u8]
}

/// The four little-endian bytes of a 32-bit integer.
pub open spec fn le32_bytes(x: u32) -> Seq<u8> {
    seq![
        (x % 0x100) as u8,
        ((x / 0x100) % 0x100) as u8,
        ((x / 0x1_0000) % 0x100) as u8,
        ((x / 0x100_0000) % 0x100) as u8,
    ]
}

/// The 44 header bytes that encode a `WavHeader`, field by field in layout
/// order, every integer little-endian.
pub open spec fn spec_encode(h: WavHeader) -> Seq<u8> {
    le32_bytes(h.riff_id) + le32_bytes(h.declared_file_size) + le32_bytes(h.format_tag)
        + le32_bytes(h.chunk_format_id) + le32_bytes(h.format_section_size) + le16_bytes(
        h.audio_format,
    ) + le16_bytes(h.channel_count) + le32_bytes(h.sample_rate_hz) + le32_bytes(h.byte_rate)
        + le16_bytes(h.block_align) + le16_bytes(h.bits_per_sample) + le32_bytes(
        h.data_section_id,
    ) + le32_bytes(h.data_size_bytes)
}

proof fn lemma_le16_recombine(x: u16)
    ensures
        le16_at(le16_bytes(x), 0) == x,
{
    let xi = x as int;
    lemma_fundamental_div_mod(xi, 0x100);
    lemma_div_is_ordered(xi, 0xFFFF, 0x100);
    lemma_div_pos_is_pos(xi, 0x100);
    lemma_small_mod((xi / 0x100) as nat, 0x100);
}

proof fn lemma_le32_recombine(x: u32)
    ensures
        le32_at(le32_bytes(x), 0) == x,
{
    let xi = x as int;
    lemma_fundamental_div_mod(xi, 0x100);
    lemma_fundamental_div_mod(xi / 0x100, 0x100);
    lemma_fundamental_div_mod(xi / 0x1_0000, 0x100);
    lemma_div_denominator(xi, 0x100, 0x100);
    lemma_div_denominator(xi, 0x1_0000, 0x100);
    lemma_div_is_ordered(xi, 0xFFFF_FFFF, 0x100_0000);
    lemma_div_pos_is_pos(xi, 0x100_0000);
    lemma_small_mod((xi / 0x100_0000) as nat, 0x100);
}

proof fn lemma_le32_at_bytes(b: Seq<u8>, off: int)
    requires
        0 <= off,
        off + 4 <= b.len(),
    ensures
        le32_bytes(le32_at(b, off)) == b.subrange(off, off + 4),
{
    let v = b[off] + b[off + 1] * 0x100 + b[off + 2] * 0x1_0000 + b[off + 3] * 0x100_0000;
    let x = le32_at(b, off);
    assert(x == v);
    let q1 = b[off + 1] + b[off + 2] * 0x100 + b[off + 3] * 0x1_0000;
    let q2 = b[off + 2] + b[off + 3] * 0x100;
    lemma_fundamental_div_mod_converse(v, 0x100, q1, b[off] as int);
    lemma_fundamental_div_mod_converse(q1, 0x100, q2, b[off + 1] as int);
    lemma_fundamental_div_mod_converse(q2, 0x100, b[off + 3] as int, b[off + 2] as int);
    lemma_div_denominator(v, 0x100, 0x100);
    lemma_div_denominator(v, 0x1_0000, 0x100);
    lemma_small_mod(b[off + 3] as nat, 0x100);
    assert(le32_bytes(x) =~= b.subrange(off, off + 4));
}

/// Law: encoding a header whose tag fields hold the four required tags and
/// parsing the bytes back yields exactly the original header — `parse`
/// round-trips with the byte-level encoding on every valid header.
#[verifier::rlimit(100)]
pub proof fn lemma_parse_round_trip(h: WavHeader)
    requires
        h.riff_id == RIFF_TAG,
        h.format_tag == WAVE_TAG,
        h.chunk_format_id == FMT_TAG,
        h.data_section_id == DATA_TAG,
    ensures
        spec_parse(spec_encode(h)) == Ok::<WavHeader, ParseError>(h),
{
    let b = spec_encode(h);
    assert(b.len() == 44);
    lemma_le32_recombine(h.riff_id);
    lemma_le32_recombine(h.declared_file_size);
    lemma_le32_recombine(h.format_tag);
    lemma_le32_recombine(h.chunk_format_id);
    lemma_le32_recombine(h.format_section_size);
    lemma_le16_recombine(h.audio_format);
    lemma_le16_recombine(h.channel_count);
    lemma_le32_recombine(h.sample_rate_hz);
    lemma_le32_recombine(h.byte_rate);
    lemma_le16_recombine(h.block_align);
    lemma_le16_recombine(h.bits_per_sample);
    lemma_le32_recombine(h.data_section_id);
    lemma_le32_recombine(h.data_size_bytes);
    assert(b.subrange(0, 4) =~= le32_bytes(h.riff_id));
    assert(b.subrange(4, 8) =~= le32_bytes(h.declared_file_size));
    assert(b.subrange(8, 12) =~= le32_bytes(h.format_tag));
    assert(b.subrange(12, 16) =~= le32_bytes(h.chunk_format_id));
    assert(b.subrange(16, 20) =~= le32_bytes(h.format_section_size));
    assert(b.subrange(20, 22) =~= le16_bytes(h.audio_format));
    assert(b.subrange(22, 24) =~= le16_bytes(h.channel_count));
    assert(b.subrange(24, 28) =~= le32_bytes(h.sample_rate_hz));
    assert(b.subrange(28, 32) =~= le32_bytes(h.byte_rate));
    assert(b.subrange(32, 34) =~= le16_bytes(h.block_align));
    assert(b.subrange(34, 36) =~= le16_bytes(h.bits_per_sample));
    assert(b.subrange(36, 40) =~= le32_bytes(h.data_section_id));
    assert(b.subrange(40, 44) =~= le32_bytes(h.data_size_bytes));
    lemma_le32_at_subrange(b, 0, le32_bytes(h.riff_id));
    lemma_le32_at_subrange(b, 4, le32_bytes(h.declared_file_size));
    lemma_le32_at_subrange(b, 8, le32_bytes(h.format_tag));
    lemma_le32_at_subrange(b, 12, le32_bytes(h.chunk_format_id));
    lemma_le32_at_subrange(b, 16, le32_bytes(h.format_section_size));
    lemma_le16_at_subrange(b, 20, le16_bytes(h.audio_format));
    lemma_le16_at_subrange(b, 22, le16_bytes(h.channel_count));
    lemma_le32_at_subrange(b, 24, le32_bytes(h.sample_rate_hz));
    lemma_le32_at_subrange(b, 28, le32_bytes(h.byte_rate));
    lemma_le16_at_subrange(b, 32, le16_bytes(h.block_align));
    lemma_le16_at_subrange(b, 34, le16_bytes(h.bits_per_sample));
    lemma_le32_at_subrange(b, 36, le32_bytes(h.data_section_id));
    lemma_le32_at_subrange(b, 40, le32_bytes(h.data_size_bytes));
}

proof fn lemma_le16_at_subrange(b: Seq<u8>, off: int, piece: Seq<u8>)
    requires
        0 <= off,
        off + 2 <= b.len(),
        b.subrange(off, off + 2) == piece,
        piece.len() == 2,
    ensures
        le16_at(b, off) == le16_at(piece, 0),
{
    assert(b[off] == piece[0]);
    assert(b[off + 1] == piece[1]);
}

proof fn lemma_le32_at_subrange(b: Seq<u8>, off: int, piece: Seq<u8>)
    requires
        0 <= off,
        off + 4 <= b.len(),
        b.subrange(off, off + 4) == piece,
        piece.len() == 4,
    ensures
        le32_at(b, off) == le32_at(piece, 0),
{
    assert(b[off] == piece[0]);
    assert(b[off + 1] == piece[1]);
    assert(b[off + 2] == piece[2]);
    assert(b[off + 3] == piece[3]);
}

/// The byte offset at which a tag field's four bytes start.
pub open spec fn tag_region_start(f: TagField) -> int {
    match f {
        TagField::RiffId => 0,
        TagField::FormatTag => 8,
        TagField::ChunkFormatId => 12,
        TagField::DataSectionId => 36,
    }
}

/// The ASCII tag a tag field must hold, as its little-endian packing.
pub open spec fn expected_tag(f: TagField) -> u32 {
    match f {
        TagField::RiffId => RIFF_TAG,
        TagField::FormatTag => WAVE_TAG,
        TagField::ChunkFormatId => FMT_TAG,
        TagField::DataSectionId => DATA_TAG,
    }
}

/// The tag field, if any, whose four bytes contain byte offset `off`.
pub open spec fn tag_field_at(off: int) -> Option<TagField> {
    if 0 <= off < 4 {
        Some(TagField::RiffId)
    } else if 8 <= off < 12 {
        Some(TagField::FormatTag)
    } else if 12 <= off < 16 {
        Some(TagField::ChunkFormatId)
    } else if 36 <= off < 40 {
        Some(TagField::DataSectionId)
    } else {
        None
    }
}

/// Law: corrupting any single byte of any of the four fixed tag fields of a
/// header that parses successfully makes `parse` fail with `BadTag` naming
/// exactly the corrupted field, with the expected tag and the corrupted
/// actual value.
pub proof fn lemma_single_byte_tag_corruption(b: Seq<u8>, off: int, v: u8)
    requires
        b.len() == 44,
        spec_parse(b) is Ok,
        tag_field_at(off) is Some,
        v != b[off],
    ensures
        ({
            let f = tag_field_at(off).unwrap();
            let c = b.update(off, v);
            &&& le32_at(c, tag_region_start(f)) != expected_tag(f)
            &&& spec_parse(c) == Err::<WavHeader, ParseError>(
                ParseError::BadTag {
                    field: f,
                    expected: expected_tag(f),
                    actual: le32_at(c, tag_region_start(f)),
                },
            )
        }),
{
    let f = tag_field_at(off).unwrap();
    let s = tag_region_start(f);
    let c = b.update(off, v);
    assert(c.len() == 44);
    assert(le32_at(c, s) != le32_at(b, s)) by {
        if le32_at(c, s) == le32_at(b, s) {
            lemma_le32_at_bytes(b, s);
            lemma_le32_at_bytes(c, s);
            assert(b.subrange(s, s + 4) == c.subrange(s, s + 4));
            assert(b.subrange(s, s + 4)[off - s] == b[off]);
            assert(c.subrange(s, s + 4)[off - s] == v);
            assert(false);
        }
    }
    // Bytes outside the corrupted field's four-byte region are unchanged,
    // so every earlier tag check still passes and the corrupted one fails.
    if !(f is RiffId) {
        assert(le32_at(c, 0) == le32_at(b, 0));
    }
    if !(f is FormatTag) {
        assert(le32_at(c, 8) == le32_at(b, 8));
    }
    if !(f is ChunkFormatId) {
        assert(le32_at(c, 12) == le32_at(b, 12));
    }
    if !(f is DataSectionId) {
        assert(le32_at(c, 36) == le32_at(b, 36));
    }
}

} // verus!
