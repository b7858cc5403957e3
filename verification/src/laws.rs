//! What holds between encoding and decoding.

use vstd::prelude::*;
use crate::big_endian::lemma_u16_bytes_of_value;
use crate::big_endian::lemma_u16_round_trip;
use crate::big_endian::lemma_u32_bytes_of_value;
use crate::big_endian::lemma_u32_round_trip;
use crate::big_endian::u16_value;
use crate::error::DecodeError;
use crate::header::options_len;
use crate::header::IPv4Header;
use crate::header::IPv4HeaderView;
use crate::serializable::BitSerializable;
use crate::header::FIXED_LEN;

verus! {

/// The two fields that share a byte come back from it, each cut to its width.
proof fn lemma_shared_byte(version: u8, ihl: u8, dscp: u8, ecn: u8)
    ensures
        ((version << 4) | (ihl & 0x0F)) >> 4 == version & 0x0F,
        ((version << 4) | (ihl & 0x0F)) & 0x0F == ihl & 0x0F,
        ((dscp << 2) | (ecn & 0x03)) >> 2 == dscp & 0x3F,
        ((dscp << 2) | (ecn & 0x03)) & 0x03 == ecn & 0x03,
{
    assert(((version << 4) | (ihl & 0x0F)) >> 4 == version & 0x0F) by (bit_vector);
    assert(((version << 4) | (ihl & 0x0F)) & 0x0F == ihl & 0x0F) by (bit_vector);
    assert(((dscp << 2) | (ecn & 0x03)) >> 2 == dscp & 0x3F) by (bit_vector);
    assert(((dscp << 2) | (ecn & 0x03)) & 0x03 == ecn & 0x03) by (bit_vector);
}

/// The flags and the fragment offset come back from their shared word.
proof fn lemma_shared_word(flags: u8, fragment_offset: u16)
    ensures
        ({
            let word = ((flags as u16) << 13) | (fragment_offset & 0x1FFF);
            &&& ((word / 256) as u8) >> 5 == flags & 0x07
            &&& word & 0x1FFF == fragment_offset & 0x1FFF
        }),
{
    assert((((((flags as u16) << 13) | (fragment_offset & 0x1FFF)) / 256) as u8) >> 5 == flags
        & 0x07) by (bit_vector);
    assert((((flags as u16) << 13) | (fragment_offset & 0x1FFF)) & 0x1FFF == fragment_offset
        & 0x1FFF) by (bit_vector);
}

/// Masking a field that fits its width changes nothing.
proof fn lemma_mask_of_fitting(h: IPv4HeaderView)
    requires
        h.fits(),
    ensures
        h.truncated() == h,
{
    let (version, ihl, dscp, ecn, flags, offset) = (
        h.version,
        h.ihl,
        h.dscp,
        h.ecn,
        h.flags,
        h.fragment_offset,
    );
    assert(version & 0x0F == version) by (bit_vector)
        requires
            version < 16,
    ;
    assert(ihl & 0x0F == ihl) by (bit_vector)
        requires
            ihl < 16,
    ;
    assert(dscp & 0x3F == dscp) by (bit_vector)
        requires
            dscp < 64,
    ;
    assert(ecn & 0x03 == ecn) by (bit_vector)
        requires
            ecn < 4,
    ;
    assert(flags & 0x07 == flags) by (bit_vector)
        requires
            flags < 8,
    ;
    assert(offset & 0x1FFF == offset) by (bit_vector)
        requires
            offset < 8192,
    ;
}

/// An encoding is as long as the fixed part and the options together.
pub proof fn lemma_encoding_len(h: IPv4HeaderView)
    ensures
        IPv4Header::encoding(h).len() == FIXED_LEN + h.options.len(),
{
}

/// Encoding keeps only the low bits of each field: a header and the header
/// with every field cut to its width have the same encoding.
pub proof fn lemma_encoding_masks(h: IPv4HeaderView)
    ensures
        IPv4Header::encoding(h) == IPv4Header::encoding(h.truncated()),
{
    let t = h.truncated();
    let (version, ihl, dscp, ecn, flags, offset) = (
        h.version,
        h.ihl,
        h.dscp,
        h.ecn,
        h.flags,
        h.fragment_offset,
    );
    assert((version << 4) | (ihl & 0x0F) == ((version & 0x0F) << 4) | ((ihl & 0x0F) & 0x0F))
        by (bit_vector);
    assert((dscp << 2) | (ecn & 0x03) == ((dscp & 0x3F) << 2) | ((ecn & 0x03) & 0x03))
        by (bit_vector);
    assert(((flags as u16) << 13) | (offset & 0x1FFF) == (((flags & 0x07) as u16) << 13) | ((offset
        & 0x1FFF) & 0x1FFF)) by (bit_vector);
    assert(h.fixed_bytes() =~= t.fixed_bytes());
}

/// Decoding an encoding gives the header back, each field cut to its width,
/// whenever the options fill exactly what the low four bits of `ihl` declare.
pub proof fn lemma_decode_encode_masked(h: IPv4HeaderView)
    requires
        h.truncated().options_match(),
    ensures
        IPv4Header::decoding(IPv4Header::encoding(h)) == Ok::<IPv4HeaderView, DecodeError>(
            h.truncated(),
        ),
{
    let b = h.wire();
    lemma_shared_byte(h.version, h.ihl, h.dscp, h.ecn);
    lemma_shared_word(h.flags, h.fragment_offset);
    lemma_u16_round_trip(h.total_length);
    lemma_u16_round_trip(h.identification);
    lemma_u16_round_trip(h.flags_and_offset());
    lemma_u16_round_trip(h.header_checksum);
    lemma_u32_round_trip(h.source_address);
    lemma_u32_round_trip(h.destination_address);
    let n = options_len(b[0] & 0x0F);
    assert(n == h.options.len());
    assert(b.subrange(FIXED_LEN as int, FIXED_LEN + n) =~= h.options);
}

/// Round trip: a well-formed header, encoded and then decoded, comes back
/// as it was.
pub proof fn lemma_decode_encode(h: IPv4HeaderView)
    requires
        h.well_formed(),
    ensures
        IPv4Header::decoding(IPv4Header::encoding(h)) == Ok::<IPv4HeaderView, DecodeError>(h),
{
    lemma_mask_of_fitting(h);
    lemma_decode_encode_masked(h);
}

/// What decoding accepts is well formed, and encoding it gives back the bytes
/// of the header: the buffer up to the end of the declared options.
pub proof fn lemma_encode_decode(b: Seq<u8>)
    requires
        IPv4Header::decoding(b) is Ok,
    ensures
        ({
            let h = IPv4Header::decoding(b)->Ok_0;
            &&& h.well_formed()
            &&& 4 * h.ihl <= b.len()
            &&& IPv4Header::encoding(h) == b.subrange(0, 4 * h.ihl)
        }),
{
    let h = IPv4HeaderView::parse(b)->Ok_0;
    let (b0, b1, b6, b7) = (b[0], b[1], b[6], b[7]);
    assert(b0 >> 4 < 16 && b0 & 0x0F < 16 && ((b0 >> 4) << 4) | ((b0 & 0x0F) & 0x0F) == b0)
        by (bit_vector);
    assert(b1 >> 2 < 64 && b1 & 0x03 < 4 && ((b1 >> 2) << 2) | ((b1 & 0x03) & 0x03) == b1)
        by (bit_vector);
    assert(b6 >> 5 < 8) by (bit_vector);
    let word = u16_value(b6, b7);
    assert(word & 0x1FFF < 8192) by (bit_vector);
    assert((((b6 >> 5) as u16) << 13) | ((word & 0x1FFF) & 0x1FFF) == word) by (bit_vector)
        requires
            word == b6 * 256 + b7,
    ;
    lemma_u16_bytes_of_value(b[2], b[3]);
    lemma_u16_bytes_of_value(b[4], b[5]);
    lemma_u16_bytes_of_value(b[6], b[7]);
    lemma_u16_bytes_of_value(b[10], b[11]);
    lemma_u32_bytes_of_value(b[12], b[13], b[14], b[15]);
    lemma_u32_bytes_of_value(b[16], b[17], b[18], b[19]);
    assert(h.wire() =~= b.subrange(0, 4 * h.ihl));
}

} // verus!
