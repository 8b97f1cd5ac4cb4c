//! Wire constants and the 64-byte message envelope of the VSK service-cell
//! ABI. A known family or opcode never implies an implemented operation. All
//! decoding is copy-in little-endian; this layer never dereferences a reported
//! address and never authenticates a caller.
use vstd::prelude::*;

use crate::codec;

verus! {

pub const VF_MSG_MAGIC: u32 = 0x314D_4656;
pub const VF_ABI_MAJOR: u16 = 1;
pub const VF_MSG_BYTES: u32 = 64;
pub const VF_PAYLOAD_MAX: u32 = 16_777_216;

pub const VF_FAMILY_ROOT: u16 = 1;
pub const VF_FAMILY_BLOCK: u16 = 2;
pub const VF_FAMILY_SGPU: u16 = 3;

pub const VF_OP_CAP_DUP_RESTRICTED: u16 = 1;
pub const VF_OP_GRANT_CREATE: u16 = 2;
pub const VF_OP_GRANT_REVOKE: u16 = 3;
pub const VF_OP_CELL_NOTIFY: u16 = 4;
pub const VF_OP_DEVICE_MAP_MMIO: u16 = 5;
pub const VF_OP_DEVICE_DMA_MAP: u16 = 6;
pub const VF_OP_DEVICE_DMA_UNMAP: u16 = 7;
pub const VF_OP_DEVICE_IRQ_BIND: u16 = 8;
pub const VF_OP_DEVICE_QUIESCE_RESET: u16 = 9;

pub const VF_BLOCK_READ: u16 = 1;
pub const VF_BLOCK_WRITE: u16 = 2;
pub const VF_BLOCK_FLUSH: u16 = 3;

pub const VF_SGPU_QUERY_CAPS: u16 = 1;
pub const VF_SGPU_CREATE_RESOURCE: u16 = 2;
pub const VF_SGPU_DESTROY_RESOURCE: u16 = 3;
pub const VF_SGPU_CREATE_PIPELINE: u16 = 4;
pub const VF_SGPU_SUBMIT_COMMAND_LIST: u16 = 5;
pub const VF_SGPU_QUERY_OR_WAIT_TIMELINE: u16 = 6;
pub const VF_SGPU_PRESENT: u16 = 7;

/// Statuses of the service-cell ABI.
#[derive(Debug, Clone, Copy, PartialEq, Eq)]
pub enum VfError {
    /// Invalid argument.
    Einval,
    /// ABI mismatch, with the rule that was broken.
    Eabi(&'static str),
    /// Operation not supported.
    Enotsup,
    /// Capability or grant denied.
    Eperm,
    /// Out of range.
    Erange,
    /// Busy.
    Ebusy,
    /// Object not found.
    Enoent,
}

/// The 64-byte message envelope. Its wire form is [`VfMsgHeader::wire`]: the
/// fields in this order, little-endian, without gaps.
#[derive(Debug, Clone, Copy, PartialEq, Eq, Structural)]
pub struct VfMsgHeader {
    pub magic: u32,
    pub abi_major: u16,
    pub header_bytes: u16,
    pub message_bytes: u32,
    pub family: u16,
    pub opcode: u16,
    pub request_id: u64,
    pub object: u64,
    pub payload_grant: u64,
    pub payload_offset: u64,
    pub payload_bytes: u32,
    pub flags: u32,
    pub reserved0: u64,
}

/// An envelope that carries nothing, addressed to family and opcode zero.
pub open spec fn blank_header() -> VfMsgHeader {
    VfMsgHeader {
        magic: VF_MSG_MAGIC,
        abi_major: VF_ABI_MAJOR,
        header_bytes: 64,
        message_bytes: VF_MSG_BYTES,
        family: 0,
        opcode: 0,
        request_id: 0,
        object: 0,
        payload_grant: 0,
        payload_offset: 0,
        payload_bytes: 0,
        flags: 0,
        reserved0: 0,
    }
}

/// The envelope whose fields the given 64 bytes spell out.
pub open spec fn header_of_wire(bytes: Seq<u8>) -> VfMsgHeader {
    VfMsgHeader {
        magic: codec::le_value(bytes.subrange(0, 4)) as u32,
        abi_major: codec::le_value(bytes.subrange(4, 6)) as u16,
        header_bytes: codec::le_value(bytes.subrange(6, 8)) as u16,
        message_bytes: codec::le_value(bytes.subrange(8, 12)) as u32,
        family: codec::le_value(bytes.subrange(12, 14)) as u16,
        opcode: codec::le_value(bytes.subrange(14, 16)) as u16,
        request_id: codec::le_value(bytes.subrange(16, 24)) as u64,
        object: codec::le_value(bytes.subrange(24, 32)) as u64,
        payload_grant: codec::le_value(bytes.subrange(32, 40)) as u64,
        payload_offset: codec::le_value(bytes.subrange(40, 48)) as u64,
        payload_bytes: codec::le_value(bytes.subrange(48, 52)) as u32,
        flags: codec::le_value(bytes.subrange(52, 56)) as u32,
        reserved0: codec::le_value(bytes.subrange(56, 64)) as u64,
    }
}

/// What [`VfMsgHeader::validate_shape`] answers.
pub open spec fn shape_verdict(h: VfMsgHeader) -> Result<(), VfError> {
    if h.magic != VF_MSG_MAGIC {
        Err(VfError::Eabi("bad magic"))
    } else if h.abi_major != VF_ABI_MAJOR {
        Err(VfError::Eabi("unsupported abi major"))
    } else if h.header_bytes != VF_MSG_BYTES {
        Err(VfError::Eabi("bad header size"))
    } else if h.message_bytes < VF_MSG_BYTES {
        Err(VfError::Eabi("message smaller than header"))
    } else if h.payload_bytes > VF_PAYLOAD_MAX {
        Err(VfError::Erange)
    } else if h.family == VF_FAMILY_ROOT || h.family == VF_FAMILY_BLOCK || h.family
        == VF_FAMILY_SGPU {
        Ok(())
    } else {
        Err(VfError::Eabi("unknown family"))
    }
}

/// What [`VfMsgHeader::payload_end`] answers.
pub open spec fn payload_end_verdict(h: VfMsgHeader) -> Result<u64, VfError> {
    let end = h.payload_offset + h.payload_bytes;
    if end > u64::MAX {
        Err(VfError::Erange)
    } else if h.message_bytes < VF_MSG_BYTES {
        Err(VfError::Eabi("bad message size"))
    } else if end > h.message_bytes - VF_MSG_BYTES {
        Err(VfError::Erange)
    } else {
        Ok(end as u64)
    }
}

impl VfMsgHeader {
    pub const SIZE: usize = 64;

    /// The 64 wire bytes of this envelope.
    pub open spec fn wire(self) -> Seq<u8> {
        codec::le_bytes(self.magic as nat, 4) + codec::le_bytes(self.abi_major as nat, 2) + codec::le_bytes(
            self.header_bytes as nat,
            2,
        ) + codec::le_bytes(self.message_bytes as nat, 4) + codec::le_bytes(self.family as nat, 2) + codec::le_bytes(
            self.opcode as nat,
            2,
        ) + codec::le_bytes(self.request_id as nat, 8) + codec::le_bytes(self.object as nat, 8) + codec::le_bytes(
            self.payload_grant as nat,
            8,
        ) + codec::le_bytes(self.payload_offset as nat, 8) + codec::le_bytes(self.payload_bytes as nat, 4)
            + codec::le_bytes(self.flags as nat, 4) + codec::le_bytes(self.reserved0 as nat, 8)
    }

    /// A blank envelope for the given operation.
    pub fn new(family: u16, opcode: u16) -> (header: Self)
        ensures
            header == (VfMsgHeader { family, opcode, ..blank_header() }),
    {
        VfMsgHeader {
            magic: VF_MSG_MAGIC,
            abi_major: VF_ABI_MAJOR,
            header_bytes: 64,
            message_bytes: VF_MSG_BYTES,
            family,
            opcode,
            request_id: 0,
            object: 0,
            payload_grant: 0,
            payload_offset: 0,
            payload_bytes: 0,
            flags: 0,
            reserved0: 0,
        }
    }

    /// Copy-in little-endian decode. Requires exactly 64 bytes.
    pub fn decode(bytes: &[u8]) -> (header: Result<Self, VfError>)
        ensures
            header == if bytes@.len() == 64 {
                Ok::<VfMsgHeader, VfError>(header_of_wire(bytes@))
            } else {
                Err(VfError::Erange)
            },
    {
        if bytes.len() != Self::SIZE {
            return Err(VfError::Erange);
        }
        proof {
            codec::lemma_byte_spans();
        }
        Ok(
            VfMsgHeader {
                magic: codec::get_le(bytes, 0, 4) as u32,
                abi_major: codec::get_le(bytes, 4, 2) as u16,
                header_bytes: codec::get_le(bytes, 6, 2) as u16,
                message_bytes: codec::get_le(bytes, 8, 4) as u32,
                family: codec::get_le(bytes, 12, 2) as u16,
                opcode: codec::get_le(bytes, 14, 2) as u16,
                request_id: codec::get_le(bytes, 16, 8),
                object: codec::get_le(bytes, 24, 8),
                payload_grant: codec::get_le(bytes, 32, 8),
                payload_offset: codec::get_le(bytes, 40, 8),
                payload_bytes: codec::get_le(bytes, 48, 4) as u32,
                flags: codec::get_le(bytes, 52, 4) as u32,
                reserved0: codec::get_le(bytes, 56, 8),
            },
        )
    }

    /// Little-endian copy-out. Always 64 bytes.
    pub fn encode(&self) -> (bytes: [u8; 64])
        ensures
            bytes@ == self.wire(),
    {
        let mut out: Vec<u8> = Vec::with_capacity(64);
        codec::put_le(&mut out, self.magic as u64, 4);
        codec::put_le(&mut out, self.abi_major as u64, 2);
        codec::put_le(&mut out, self.header_bytes as u64, 2);
        codec::put_le(&mut out, self.message_bytes as u64, 4);
        codec::put_le(&mut out, self.family as u64, 2);
        codec::put_le(&mut out, self.opcode as u64, 2);
        codec::put_le(&mut out, self.request_id, 8);
        codec::put_le(&mut out, self.object, 8);
        codec::put_le(&mut out, self.payload_grant, 8);
        codec::put_le(&mut out, self.payload_offset, 8);
        codec::put_le(&mut out, self.payload_bytes as u64, 4);
        codec::put_le(&mut out, self.flags as u64, 4);
        codec::put_le(&mut out, self.reserved0, 8);
        assert(out@ =~= self.wire());
        proof {
            lemma_header_lens(*self);
        }
        let mut bytes: [u8; 64] = [0u8; 64];
        let mut i: usize = 0;
        while i < 64
            invariant
                i <= 64,
                out@.len() == 64,
                bytes@.len() == 64,
                forall|j: int| 0 <= j < i ==> bytes@[j] == out@[j],
            decreases 64 - i,
        {
            bytes[i] = out[i];
            i = i + 1;
        }
        assert(bytes@ =~= out@);
        bytes
    }

    /// Shape validation: the envelope's own constants, sizes and family.
    /// Capability and grant identity, permissions, lifetime and range checks
    /// are the root's; this never authenticates anything.
    pub fn validate_shape(&self) -> (verdict: Result<(), VfError>)
        ensures
            verdict == shape_verdict(*self),
    {
        if self.magic != VF_MSG_MAGIC {
            return Err(VfError::Eabi("bad magic"));
        }
        if self.abi_major != VF_ABI_MAJOR {
            return Err(VfError::Eabi("unsupported abi major"));
        }
        if self.header_bytes as u32 != VF_MSG_BYTES {
            return Err(VfError::Eabi("bad header size"));
        }
        if self.message_bytes < VF_MSG_BYTES {
            return Err(VfError::Eabi("message smaller than header"));
        }
        if self.payload_bytes > VF_PAYLOAD_MAX {
            return Err(VfError::Erange);
        }
        if self.family == VF_FAMILY_ROOT || self.family == VF_FAMILY_BLOCK || self.family
            == VF_FAMILY_SGPU {
            Ok(())
        } else {
            Err(VfError::Eabi("unknown family"))
        }
    }

    /// Whole-message bounds: where the payload ends behind the header, which
    /// must lie inside the declared message.
    pub fn payload_end(&self) -> (end: Result<u64, VfError>)
        ensures
            end == payload_end_verdict(*self),
    {
        let end: u64 = match self.payload_offset.checked_add(self.payload_bytes as u64) {
            Some(end) => end,
            None => return Err(VfError::Erange),
        };
        if self.message_bytes < VF_MSG_BYTES {
            return Err(VfError::Eabi("bad message size"));
        }
        if end > (self.message_bytes - VF_MSG_BYTES) as u64 {
            return Err(VfError::Erange);
        }
        Ok(end)
    }
}

impl Default for VfMsgHeader {
    fn default() -> (header: Self)
        ensures
            header == blank_header(),
    {
        VfMsgHeader::new(0, 0)
    }
}

/// The widths of the envelope's fields, which add up to 64 bytes.
pub proof fn lemma_header_lens(h: VfMsgHeader)
    ensures
        h.wire().len() == 64,
        codec::le_bytes(h.magic as nat, 4).len() == 4,
        codec::le_bytes(h.abi_major as nat, 2).len() == 2,
        codec::le_bytes(h.header_bytes as nat, 2).len() == 2,
        codec::le_bytes(h.message_bytes as nat, 4).len() == 4,
        codec::le_bytes(h.family as nat, 2).len() == 2,
        codec::le_bytes(h.opcode as nat, 2).len() == 2,
        codec::le_bytes(h.request_id as nat, 8).len() == 8,
        codec::le_bytes(h.object as nat, 8).len() == 8,
        codec::le_bytes(h.payload_grant as nat, 8).len() == 8,
        codec::le_bytes(h.payload_offset as nat, 8).len() == 8,
        codec::le_bytes(h.payload_bytes as nat, 4).len() == 4,
        codec::le_bytes(h.flags as nat, 4).len() == 4,
        codec::le_bytes(h.reserved0 as nat, 8).len() == 8,
{
    codec::lemma_le_bytes_len(h.magic as nat, 4);
    codec::lemma_le_bytes_len(h.abi_major as nat, 2);
    codec::lemma_le_bytes_len(h.header_bytes as nat, 2);
    codec::lemma_le_bytes_len(h.message_bytes as nat, 4);
    codec::lemma_le_bytes_len(h.family as nat, 2);
    codec::lemma_le_bytes_len(h.opcode as nat, 2);
    codec::lemma_le_bytes_len(h.request_id as nat, 8);
    codec::lemma_le_bytes_len(h.object as nat, 8);
    codec::lemma_le_bytes_len(h.payload_grant as nat, 8);
    codec::lemma_le_bytes_len(h.payload_offset as nat, 8);
    codec::lemma_le_bytes_len(h.payload_bytes as nat, 4);
    codec::lemma_le_bytes_len(h.flags as nat, 4);
    codec::lemma_le_bytes_len(h.reserved0 as nat, 8);
}

/// Reading a field back from where it was written gives the field.
proof fn lemma_field_roundtrip(wire: Seq<u8>, at: int, value: nat, n: nat)
    requires
        value < codec::byte_span(n),
        0 <= at <= at + n <= wire.len(),
        wire.subrange(at, at + n) == codec::le_bytes(value, n),
    ensures
        codec::le_value(wire.subrange(at, at + n)) == value,
{
    codec::lemma_le_value_of_bytes(value, n);
}

/// Decoding an encoded envelope gives the envelope back.
pub proof fn law_header_roundtrip(h: VfMsgHeader)
    ensures
        h.wire().len() == 64,
        header_of_wire(h.wire()) == h,
{
    let w = h.wire();
    codec::lemma_byte_spans();
    lemma_header_lens(h);
    assert(w.subrange(0, 4) =~= codec::le_bytes(h.magic as nat, 4));
    lemma_field_roundtrip(w, 0, h.magic as nat, 4);
    assert(w.subrange(4, 6) =~= codec::le_bytes(h.abi_major as nat, 2));
    lemma_field_roundtrip(w, 4, h.abi_major as nat, 2);
    assert(w.subrange(6, 8) =~= codec::le_bytes(h.header_bytes as nat, 2));
    lemma_field_roundtrip(w, 6, h.header_bytes as nat, 2);
    assert(w.subrange(8, 12) =~= codec::le_bytes(h.message_bytes as nat, 4));
    lemma_field_roundtrip(w, 8, h.message_bytes as nat, 4);
    assert(w.subrange(12, 14) =~= codec::le_bytes(h.family as nat, 2));
    lemma_field_roundtrip(w, 12, h.family as nat, 2);
    assert(w.subrange(14, 16) =~= codec::le_bytes(h.opcode as nat, 2));
    lemma_field_roundtrip(w, 14, h.opcode as nat, 2);
    assert(w.subrange(16, 24) =~= codec::le_bytes(h.request_id as nat, 8));
    lemma_field_roundtrip(w, 16, h.request_id as nat, 8);
    assert(w.subrange(24, 32) =~= codec::le_bytes(h.object as nat, 8));
    lemma_field_roundtrip(w, 24, h.object as nat, 8);
    assert(w.subrange(32, 40) =~= codec::le_bytes(h.payload_grant as nat, 8));
    lemma_field_roundtrip(w, 32, h.payload_grant as nat, 8);
    assert(w.subrange(40, 48) =~= codec::le_bytes(h.payload_offset as nat, 8));
    lemma_field_roundtrip(w, 40, h.payload_offset as nat, 8);
    assert(w.subrange(48, 52) =~= codec::le_bytes(h.payload_bytes as nat, 4));
    lemma_field_roundtrip(w, 48, h.payload_bytes as nat, 4);
    assert(w.subrange(52, 56) =~= codec::le_bytes(h.flags as nat, 4));
    lemma_field_roundtrip(w, 52, h.flags as nat, 4);
    assert(w.subrange(56, 64) =~= codec::le_bytes(h.reserved0 as nat, 8));
    lemma_field_roundtrip(w, 56, h.reserved0 as nat, 8);
}

/// Encoding a decoded envelope gives the 64 bytes back.
pub proof fn law_header_wire_is_faithful(bytes: Seq<u8>)
    requires
        bytes.len() == 64,
    ensures
        header_of_wire(bytes).wire() == bytes,
{
    let h = header_of_wire(bytes);
    codec::lemma_byte_spans();
    codec::lemma_le_bytes_of_value(bytes.subrange(0, 4));
    codec::lemma_le_bytes_of_value(bytes.subrange(4, 6));
    codec::lemma_le_bytes_of_value(bytes.subrange(6, 8));
    codec::lemma_le_bytes_of_value(bytes.subrange(8, 12));
    codec::lemma_le_bytes_of_value(bytes.subrange(12, 14));
    codec::lemma_le_bytes_of_value(bytes.subrange(14, 16));
    codec::lemma_le_bytes_of_value(bytes.subrange(16, 24));
    codec::lemma_le_bytes_of_value(bytes.subrange(24, 32));
    codec::lemma_le_bytes_of_value(bytes.subrange(32, 40));
    codec::lemma_le_bytes_of_value(bytes.subrange(40, 48));
    codec::lemma_le_bytes_of_value(bytes.subrange(48, 52));
    codec::lemma_le_bytes_of_value(bytes.subrange(52, 56));
    codec::lemma_le_bytes_of_value(bytes.subrange(56, 64));
    assert(h.wire() =~= bytes);
}

} // verus!
