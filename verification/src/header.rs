//! The IPv4 header and its wire layout.

use vstd::prelude::*;
use vstd::slice::slice_subrange;
use vstd::slice::slice_to_vec;
use crate::big_endian::push_u16;
use crate::big_endian::push_u32;
use crate::big_endian::read_u16;
use crate::big_endian::read_u32;
use crate::big_endian::u16_bytes;
use crate::big_endian::u16_value;
use crate::big_endian::u32_bytes;
use crate::big_endian::u32_value;
use crate::error::DecodeError;
use crate::serializable::BitSerializable;

verus! {

/// The length in bytes of the part of the header that is always present.
pub const FIXED_LEN: usize = 20;

/// The smallest header length, in 32-bit words, that a header may declare.
pub const MIN_IHL: u8 = 5;

/// An IPv4 header. Fields narrower than their type are noted with their width;
/// encoding keeps only that many low bits of them.
#[derive(Debug)]
pub struct IPv4Header {
    /// Protocol version, 4 bits.
    pub version: u8,
    /// Header length in 32-bit words, 4 bits.
    pub ihl: u8,
    /// Differentiated services, 6 bits.
    pub dscp: u8,
    /// Congestion notification, 2 bits.
    pub ecn: u8,
    /// Length of the whole packet in bytes.
    pub total_length: u16,
    /// Fragment grouping id.
    pub identification: u16,
    /// Fragmentation control, 3 bits.
    pub flags: u8,
    /// Fragment offset in units of 8 bytes, 13 bits.
    pub fragment_offset: u16,
    /// Hop limit.
    pub ttl: u8,
    /// Id of the encapsulated protocol.
    pub protocol: u8,
    /// Checksum, carried as it is.
    pub header_checksum: u16,
    /// Source address.
    pub source_address: u32,
    /// Destination address.
    pub destination_address: u32,
    /// The options, 0 to 40 bytes.
    pub options: Vec<u8>,
}

/// The mathematical value of an [`IPv4Header`]: the same fields, with the
/// options as a sequence.
pub struct IPv4HeaderView {
    pub version: u8,
    pub ihl: u8,
    pub dscp: u8,
    pub ecn: u8,
    pub total_length: u16,
    pub identification: u16,
    pub flags: u8,
    pub fragment_offset: u16,
    pub ttl: u8,
    pub protocol: u8,
    pub header_checksum: u16,
    pub source_address: u32,
    pub destination_address: u32,
    pub options: Seq<u8>,
}

impl View for IPv4Header {
    type V = IPv4HeaderView;

    open spec fn view(&self) -> IPv4HeaderView {
        IPv4HeaderView {
            version: self.version,
            ihl: self.ihl,
            dscp: self.dscp,
            ecn: self.ecn,
            total_length: self.total_length,
            identification: self.identification,
            flags: self.flags,
            fragment_offset: self.fragment_offset,
            ttl: self.ttl,
            protocol: self.protocol,
            header_checksum: self.header_checksum,
            source_address: self.source_address,
            destination_address: self.destination_address,
            options: self.options@,
        }
    }
}

/// The number of option bytes that a header of `ihl` words carries.
pub open spec fn options_len(ihl: u8) -> int {
    4 * (ihl - MIN_IHL)
}

impl IPv4HeaderView {
    /// Every field fits the width that the wire gives it.
    pub open spec fn fits(self) -> bool {
        &&& self.version < 16
        &&& self.ihl < 16
        &&& self.dscp < 64
        &&& self.ecn < 4
        &&& self.flags < 8
        &&& self.fragment_offset < 8192
    }

    /// The options fill exactly the words that `ihl` declares beyond the fixed part.
    pub open spec fn options_match(self) -> bool {
        &&& self.ihl >= MIN_IHL
        &&& self.options.len() == options_len(self.ihl)
    }

    /// The header is one that decoding can produce.
    pub open spec fn well_formed(self) -> bool {
        self.fits() && self.options_match()
    }

    /// The header with each field cut down to the low bits that the wire keeps.
    pub open spec fn truncated(self) -> IPv4HeaderView {
        IPv4HeaderView {
            version: self.version & 0x0F,
            ihl: self.ihl & 0x0F,
            dscp: self.dscp & 0x3F,
            ecn: self.ecn & 0x03,
            flags: self.flags & 0x07,
            fragment_offset: self.fragment_offset & 0x1FFF,
            ..self
        }
    }

    /// The 16-bit word that holds the flags above the fragment offset.
    pub open spec fn flags_and_offset(self) -> u16 {
        ((self.flags as u16) << 13) | (self.fragment_offset & 0x1FFF)
    }

    /// The 20 bytes of the fixed part.
    pub open spec fn fixed_bytes(self) -> Seq<u8> {
        seq![(self.version << 4) | (self.ihl & 0x0F), (self.dscp << 2) | (self.ecn & 0x03)]
            + u16_bytes(self.total_length) + u16_bytes(self.identification) + u16_bytes(
            self.flags_and_offset(),
        ) + seq![self.ttl, self.protocol] + u16_bytes(self.header_checksum) + u32_bytes(
            self.source_address,
        ) + u32_bytes(self.destination_address)
    }

    /// The wire representation: the fixed part, then the options as they are.
    pub open spec fn wire(self) -> Seq<u8> {
        self.fixed_bytes() + self.options
    }

    /// The header that the first 20 bytes of `b` and the option bytes `options` stand for.
    pub open spec fn from_parts(b: Seq<u8>, options: Seq<u8>) -> IPv4HeaderView
        recommends
            b.len() >= FIXED_LEN,
    {
        IPv4HeaderView {
            version: b[0] >> 4,
            ihl: b[0] & 0x0F,
            dscp: b[1] >> 2,
            ecn: b[1] & 0x03,
            total_length: u16_value(b[2], b[3]),
            identification: u16_value(b[4], b[5]),
            flags: b[6] >> 5,
            fragment_offset: u16_value(b[6], b[7]) & 0x1FFF,
            ttl: b[8],
            protocol: b[9],
            header_checksum: u16_value(b[10], b[11]),
            source_address: u32_value(b[12], b[13], b[14], b[15]),
            destination_address: u32_value(b[16], b[17], b[18], b[19]),
            options,
        }
    }

    /// What a buffer is read as. The checks come in this order: the fixed part
    /// must be there, the declared length must be at least five words, and the
    /// declared options must be there. Bytes after the header are ignored.
    pub open spec fn parse(b: Seq<u8>) -> Result<IPv4HeaderView, DecodeError> {
        if b.len() < FIXED_LEN {
            Err(DecodeError::TooShort)
        } else if b[0] & 0x0F < MIN_IHL {
            Err(DecodeError::InvalidHeaderLength)
        } else if b.len() < FIXED_LEN + options_len(b[0] & 0x0F) {
            Err(DecodeError::TooShortForOptions)
        } else {
            Ok(
                Self::from_parts(
                    b,
                    b.subrange(FIXED_LEN as int, FIXED_LEN + options_len(b[0] & 0x0F)),
                ),
            )
        }
    }
}

impl Clone for IPv4Header {
    fn clone(&self) -> (r: Self)
        ensures
            r@ == self@,
    {
        let options = self.options.clone();
        IPv4Header {
            version: self.version,
            ihl: self.ihl,
            dscp: self.dscp,
            ecn: self.ecn,
            total_length: self.total_length,
            identification: self.identification,
            flags: self.flags,
            fragment_offset: self.fragment_offset,
            ttl: self.ttl,
            protocol: self.protocol,
            header_checksum: self.header_checksum,
            source_address: self.source_address,
            destination_address: self.destination_address,
            options,
        }
    }
}

impl BitSerializable for IPv4Header {
    open spec fn encoding(v: IPv4HeaderView) -> Seq<u8> {
        v.wire()
    }

    open spec fn decoding(bytes: Seq<u8>) -> Result<IPv4HeaderView, DecodeError> {
        IPv4HeaderView::parse(bytes)
    }

    /// Encodes the header: 20 bytes of fixed fields, then the options.
    /// Nothing is rejected; a field wider than its place loses its high bits.
    fn to_bytes(&self) -> (bytes: Vec<u8>)
        ensures
            bytes@.len() == FIXED_LEN + self.options@.len(),
    {
        let mut bytes: Vec<u8> = Vec::new();
        bytes.push((self.version << 4) | (self.ihl & 0x0F));
        bytes.push((self.dscp << 2) | (self.ecn & 0x03));
        push_u16(&mut bytes, self.total_length);
        push_u16(&mut bytes, self.identification);
        let flags_and_offset: u16 = ((self.flags as u16) << 13) | (self.fragment_offset & 0x1FFF);
        push_u16(&mut bytes, flags_and_offset);
        bytes.push(self.ttl);
        bytes.push(self.protocol);
        push_u16(&mut bytes, self.header_checksum);
        push_u32(&mut bytes, self.source_address);
        push_u32(&mut bytes, self.destination_address);
        bytes.extend_from_slice(self.options.as_slice());
        assert(bytes@ =~= self@.wire());
        bytes
    }

    /// Decodes a header from the start of `bytes`.
    fn from_bytes(bytes: &[u8]) -> (r: Result<Self, DecodeError>)
        ensures
            r == Err::<Self, DecodeError>(DecodeError::TooShort) <==> bytes@.len() < FIXED_LEN,
            r == Err::<Self, DecodeError>(DecodeError::InvalidHeaderLength) <==> bytes@.len()
                >= FIXED_LEN && bytes@[0] & 0x0F < MIN_IHL,
            r == Err::<Self, DecodeError>(DecodeError::TooShortForOptions) <==> bytes@.len()
                >= FIXED_LEN && bytes@[0] & 0x0F >= MIN_IHL && bytes@.len() < FIXED_LEN
                + options_len(bytes@[0] & 0x0F),
            r is Ok ==> r->Ok_0@.well_formed(),
    {
        if bytes.len() < FIXED_LEN {
            return Err(DecodeError::TooShort);
        }
        let version: u8 = bytes[0] >> 4;
        let ihl: u8 = bytes[0] & 0x0F;
        let dscp: u8 = bytes[1] >> 2;
        let ecn: u8 = bytes[1] & 0x03;
        let total_length: u16 = read_u16(bytes, 2);
        let identification: u16 = read_u16(bytes, 4);
        let flags: u8 = bytes[6] >> 5;
        let fragment_offset: u16 = read_u16(bytes, 6) & 0x1FFF;
        let ttl: u8 = bytes[8];
        let protocol: u8 = bytes[9];
        let header_checksum: u16 = read_u16(bytes, 10);
        let source_address: u32 = read_u32(bytes, 12);
        let destination_address: u32 = read_u32(bytes, 16);
        if ihl < MIN_IHL {
            return Err(DecodeError::InvalidHeaderLength);
        }
        proof {
            lemma_parsed_fields_fit(bytes@[0], bytes@[1], bytes@[6], u16_value(bytes@[6], bytes@[7]));
        }
        let options_length: usize = 4 * (ihl as usize - MIN_IHL as usize);
        if bytes.len() < FIXED_LEN + options_length {
            return Err(DecodeError::TooShortForOptions);
        }
        let options: Vec<u8> = slice_to_vec(
            slice_subrange(bytes, FIXED_LEN, FIXED_LEN + options_length),
        );
        Ok(
            IPv4Header {
                version,
                ihl,
                dscp,
                ecn,
                total_length,
                identification,
                flags,
                fragment_offset,
                ttl,
                protocol,
                header_checksum,
                source_address,
                destination_address,
                options,
            },
        )
    }
}

/// The fields that decoding cuts out of shared bytes fit their widths.
proof fn lemma_parsed_fields_fit(b0: u8, b1: u8, b6: u8, word: u16)
    ensures
        b0 >> 4 < 16,
        b0 & 0x0F < 16,
        b1 >> 2 < 64,
        b1 & 0x03 < 4,
        b6 >> 5 < 8,
        word & 0x1FFF < 8192,
{
    assert(b0 >> 4 < 16 && b0 & 0x0F < 16) by (bit_vector);
    assert(b1 >> 2 < 64 && b1 & 0x03 < 4) by (bit_vector);
    assert(b6 >> 5 < 8) by (bit_vector);
    assert(word & 0x1FFF < 8192) by (bit_vector);
}

} // verus!
