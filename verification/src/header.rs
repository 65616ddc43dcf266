//! The one-byte header in front of a MIDI command section: four flag bits
//! above a four-bit length.
use crate::error::ParseError;
use vstd::prelude::*;

verus! {

/// Flags and length of one payload, each of four bits.
#[derive(Debug, PartialEq, Eq, Structural)]
pub struct PayloadHeader {
    /// The B, J, Z and P flags; all zero in what this codec sends.
    pub flags: u8,
    /// Number of bytes of MIDI data that follow the header.
    pub len: u8,
}

impl PayloadHeader {
    /// Both fields fit in four bits.
    pub open spec fn wf(self) -> bool {
        self.flags <= 15 && self.len <= 15
    }

    /// The header that the byte `b` stands for: high nibble flags, low nibble length.
    pub open spec fn from_byte(b: u8) -> PayloadHeader {
        PayloadHeader { flags: (b / 16) as u8, len: (b % 16) as u8 }
    }

    /// The byte that stands for the header; only the low nibble of either field counts.
    pub open spec fn to_byte(self) -> u8 {
        ((self.flags % 16) * 16 + self.len % 16) as u8
    }

    /// The header with both fields cut down to their low nibble.
    pub open spec fn masked(flags: u8, len: u8) -> PayloadHeader {
        PayloadHeader { flags: (flags % 16) as u8, len: (len % 16) as u8 }
    }

    /// The byte of a header in bits: the flags shifted into the high nibble
    /// over the low nibble of the length.
    pub proof fn lemma_to_byte_bits(header: PayloadHeader)
        ensures
            header.to_byte() == (header.flags << 4) | (header.len & 0x0F),
    {
        let flags: u8 = header.flags;
        let len: u8 = header.len;
        assert((flags << 4) | (len & 0x0F) == ((flags % 16) * 16 + len % 16) as u8)
            by (bit_vector);
    }

    /// The header of a byte in bits: the flags by shifting, the length by
    /// masking.
    pub proof fn lemma_from_byte_bits(b: u8)
        ensures
            Self::from_byte(b) == (PayloadHeader { flags: b >> 4, len: b & 0x0F }),
    {
        assert(b >> 4 == b / 16 && b & 0x0F == b % 16) by (bit_vector);
    }

    /// Cutting a field down to its low nibble, in bits: by masking.
    pub proof fn lemma_masked_bits(flags: u8, len: u8)
        ensures
            Self::masked(flags, len) == (PayloadHeader { flags: flags & 0x0F, len: len & 0x0F }),
    {
        assert(flags & 0x0F == flags % 16 && len & 0x0F == len % 16) by (bit_vector);
    }

    /// A header read back from its own byte has the low nibble of either
    /// field, and is the header itself where both fields fit in four bits.
    pub proof fn lemma_serialize_then_parse(header: PayloadHeader)
        ensures
            Self::from_byte(header.to_byte()) == Self::masked(header.flags, header.len),
            header.wf() ==> Self::from_byte(header.to_byte()) == header,
    {
    }

    /// Every byte is the byte of the header that it stands for, and that
    /// header fits in four bits a field.
    pub proof fn lemma_parse_then_serialize(b: u8)
        ensures
            Self::from_byte(b).to_byte() == b,
            Self::from_byte(b).wf(),
    {
    }

    /// Reads the header from the first byte of `buf`: the flags from its high
    /// nibble, the length from its low one. Fails with
    /// `InsufficientHeaderData` exactly when `buf` is empty.
    pub fn parse(buf: &[u8]) -> (r: Result<PayloadHeader, ParseError>)
        ensures
            buf@.len() == 0 ==> r == Err::<PayloadHeader, ParseError>(
                ParseError::InsufficientHeaderData,
            ),
            buf@.len() > 0 ==> r == Ok::<PayloadHeader, ParseError>(Self::from_byte(buf@[0])),
            r matches Ok(header) ==> header.wf(),
    {
        if buf.len() < 1 {
            return Err(ParseError::InsufficientHeaderData);
        }
        let byte: u8 = buf[0];
        proof {
            Self::lemma_from_byte_bits(byte);
        }
        Ok(PayloadHeader { flags: byte >> 4, len: byte & 0x0F })
    }

    /// Packs the header into its byte.
    pub fn serialize(&self) -> (r: [u8; 1])
        ensures
            r@ == seq![self.to_byte()],
    {
        proof {
            Self::lemma_to_byte_bits(*self);
        }
        let r: [u8; 1] = [(self.flags << 4) | (self.len & 0x0F)];
        assert(r@ =~= seq![self.to_byte()]);
        r
    }

    /// Builds a header, keeping the low nibble of either argument.
    pub fn new(flags: u8, len: u8) -> (r: PayloadHeader)
        ensures
            r == Self::masked(flags, len),
            r.wf(),
    {
        proof {
            Self::lemma_masked_bits(flags, len);
        }
        PayloadHeader { flags: flags & 0x0F, len: len & 0x0F }
    }
}

} // verus!
