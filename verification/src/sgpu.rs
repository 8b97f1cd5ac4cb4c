//! Graphics service cell: capability records, transfer frames and the request
//! session.
//!
//! Requests of the SGPU family are translated into commands for a GPU device.
//! The session decides; the device, which lies outside, executes. An envelope
//! never constitutes Metal support: only what a device actually ran counts.
use vstd::prelude::*;

use crate::codec;
use crate::vf_abi;
use crate::vf_abi::{VfError, VfMsgHeader, VF_FAMILY_SGPU, VF_MSG_BYTES, VF_PAYLOAD_MAX};

pub use crate::sgpu_session::{SgpuCommand, SgpuCommandList, SgpuResource, SgpuSession};

verus! {

/// How many resources may be live at once.
pub const SGPU_MAX_RESOURCES: usize = 64;

/// The largest resource.
pub const SGPU_MAX_RESOURCE_BYTES: u64 = 0x100_0000;

/// The most that all live resources may take together.
pub const SGPU_MAX_TOTAL_RESOURCE_BYTES: u64 = 0x400_0000;

#[derive(Debug)]
pub enum SgpuError {
    ResourceNotFound(u64),
    ResourceExists(u64),
    /// The device failed, for the reason given.
    Gpu(String),
    Vf(VfError),
    Payload,
    /// Resource or transfer allocation limit exceeded.
    ResourceLimit,
}

impl From<VfError> for SgpuError {
    fn from(error: VfError) -> (wrapped: Self) {
        SgpuError::Vf(error)
    }
}

impl vstd::std_specs::convert::FromSpecImpl<VfError> for SgpuError {
    open spec fn obeys_from_spec() -> bool {
        true
    }

    open spec fn from_spec(error: VfError) -> Self {
        SgpuError::Vf(error)
    }
}

#[derive(Debug, Clone, Copy, PartialEq, Eq, Structural)]
pub enum GpuVendor {
    AMD,
    NVIDIA,
    Intel,
    Unknown,
}

#[derive(Debug, Clone, Copy, PartialEq, Eq, Structural)]
pub enum MetalVersion {
    V2_0,
    V3_0,
    V3_1,
    V3_2,
}

/// The number of a vendor on the wire.
pub open spec fn vendor_code(vendor: GpuVendor) -> u8 {
    match vendor {
        GpuVendor::AMD => 0,
        GpuVendor::NVIDIA => 1,
        GpuVendor::Intel => 2,
        GpuVendor::Unknown => 3,
    }
}

/// The vendor of a wire number; those without a name are unknown.
pub open spec fn vendor_of_code(code: u8) -> GpuVendor {
    if code == 0 {
        GpuVendor::AMD
    } else if code == 1 {
        GpuVendor::NVIDIA
    } else if code == 2 {
        GpuVendor::Intel
    } else {
        GpuVendor::Unknown
    }
}

/// The number of a Metal version on the wire.
pub open spec fn metal_code(version: MetalVersion) -> u8 {
    match version {
        MetalVersion::V2_0 => 0,
        MetalVersion::V3_0 => 1,
        MetalVersion::V3_1 => 2,
        MetalVersion::V3_2 => 3,
    }
}

/// The Metal version of a wire number; the newest for those without a name.
pub open spec fn metal_of_code(code: u8) -> MetalVersion {
    if code == 0 {
        MetalVersion::V2_0
    } else if code == 1 {
        MetalVersion::V3_0
    } else if code == 2 {
        MetalVersion::V3_1
    } else {
        MetalVersion::V3_2
    }
}

#[derive(Debug, Clone, Copy, PartialEq, Eq, Structural)]
pub struct SgpuCaps {
    pub vendor: GpuVendor,
    pub metal_version: MetalVersion,
    pub vram_bytes: u64,
    pub max_threads_per_threadgroup: u32,
    pub has_compute_shaders: bool,
    pub software_accelerated: bool,
}

/// One for `true`, zero for `false`.
pub open spec fn flag_code(flag: bool) -> u8 {
    if flag {
        1
    } else {
        0
    }
}

/// `n` zero bytes.
pub open spec fn zeros(n: nat) -> Seq<u8> {
    Seq::new(n, |i: int| 0u8)
}

impl SgpuCaps {
    /// The 40 wire bytes of this record: each narrow field is padded with
    /// zeros to four bytes, and the record to forty.
    pub open spec fn wire(self) -> Seq<u8> {
        seq![vendor_code(self.vendor)] + zeros(3) + seq![metal_code(self.metal_version)] + zeros(3)
            + codec::le_bytes(self.vram_bytes as nat, 8) + codec::le_bytes(
            self.max_threads_per_threadgroup as nat,
            4,
        ) + seq![flag_code(self.has_compute_shaders)] + zeros(3) + seq![
            flag_code(self.software_accelerated),
        ] + zeros(15)
    }
}

/// The record that the first forty of the given bytes spell out.
pub open spec fn caps_of_wire(bytes: Seq<u8>) -> SgpuCaps {
    SgpuCaps {
        vendor: vendor_of_code(bytes[0]),
        metal_version: metal_of_code(bytes[4]),
        vram_bytes: codec::le_value(bytes.subrange(8, 16)) as u64,
        max_threads_per_threadgroup: codec::le_value(bytes.subrange(16, 20)) as u32,
        has_compute_shaders: bytes[20] != 0,
        software_accelerated: bytes[24] != 0,
    }
}

impl GpuVendor {
    fn code(self) -> (code: u8)
        ensures
            code == vendor_code(self),
    {
        match self {
            GpuVendor::AMD => 0,
            GpuVendor::NVIDIA => 1,
            GpuVendor::Intel => 2,
            GpuVendor::Unknown => 3,
        }
    }
}

impl MetalVersion {
    fn code(self) -> (code: u8)
        ensures
            code == metal_code(self),
    {
        match self {
            MetalVersion::V2_0 => 0,
            MetalVersion::V3_0 => 1,
            MetalVersion::V3_1 => 2,
            MetalVersion::V3_2 => 3,
        }
    }
}

/// Appends `n` zero bytes.
fn put_zeros(out: &mut Vec<u8>, n: usize)
    ensures
        final(out)@ == old(out)@ + zeros(n as nat),
{
    let ghost start = out@;
    let mut i: usize = 0;
    while i < n
        invariant
            i <= n,
            out@ == start + zeros(i as nat),
        decreases n - i,
    {
        out.push(0);
        assert(out@ =~= start + zeros((i + 1) as nat));
        i = i + 1;
    }
}

impl SgpuCaps {
    pub fn encode(&self) -> (bytes: [u8; 40])
        ensures
            bytes@ == self.wire(),
    {
        let mut out: Vec<u8> = Vec::with_capacity(40);
        out.push(self.vendor.code());
        put_zeros(&mut out, 3);
        out.push(self.metal_version.code());
        put_zeros(&mut out, 3);
        codec::put_le(&mut out, self.vram_bytes, 8);
        codec::put_le(&mut out, self.max_threads_per_threadgroup as u64, 4);
        out.push(if self.has_compute_shaders { 1 } else { 0 });
        put_zeros(&mut out, 3);
        out.push(if self.software_accelerated { 1 } else { 0 });
        put_zeros(&mut out, 15);
        assert(out@ =~= self.wire());
        proof {
            codec::lemma_le_bytes_len(self.vram_bytes as nat, 8);
            codec::lemma_le_bytes_len(self.max_threads_per_threadgroup as nat, 4);
        }
        let mut bytes: [u8; 40] = [0u8; 40];
        let mut i: usize = 0;
        while i < 40
            invariant
                i <= 40,
                out@.len() == 40,
                bytes@.len() == 40,
                forall|j: int| 0 <= j < i ==> bytes@[j] == out@[j],
            decreases 40 - i,
        {
            bytes[i] = out[i];
            i = i + 1;
        }
        assert(bytes@ =~= out@);
        bytes
    }

    /// Reads the first forty bytes; anything after them is ignored.
    pub fn decode(bytes: &[u8]) -> (caps: Result<Self, SgpuError>)
        ensures
            caps == if bytes@.len() < 40 {
                Err::<SgpuCaps, SgpuError>(SgpuError::Payload)
            } else {
                Ok(caps_of_wire(bytes@))
            },
    {
        if bytes.len() < 40 {
            return Err(SgpuError::Payload);
        }
        proof {
            codec::lemma_byte_spans();
        }
        let vendor: GpuVendor = match bytes[0] {
            0 => GpuVendor::AMD,
            1 => GpuVendor::NVIDIA,
            2 => GpuVendor::Intel,
            _ => GpuVendor::Unknown,
        };
        let metal_version: MetalVersion = match bytes[4] {
            0 => MetalVersion::V2_0,
            1 => MetalVersion::V3_0,
            2 => MetalVersion::V3_1,
            _ => MetalVersion::V3_2,
        };
        Ok(
            SgpuCaps {
                vendor,
                metal_version,
                vram_bytes: codec::get_le(bytes, 8, 8),
                max_threads_per_threadgroup: codec::get_le(bytes, 16, 4) as u32,
                has_compute_shaders: bytes[20] != 0,
                software_accelerated: bytes[24] != 0,
            },
        )
    }
}

/// A capability record reads back from its wire form as itself.
pub proof fn law_caps_roundtrip(caps: SgpuCaps)
    ensures
        caps.wire().len() == 40,
        caps_of_wire(caps.wire()) == caps,
{
    let wire = caps.wire();
    codec::lemma_byte_spans();
    codec::lemma_le_bytes_len(caps.vram_bytes as nat, 8);
    codec::lemma_le_bytes_len(caps.max_threads_per_threadgroup as nat, 4);
    codec::lemma_le_value_of_bytes(caps.vram_bytes as nat, 8);
    codec::lemma_le_value_of_bytes(caps.max_threads_per_threadgroup as nat, 4);
    assert(wire.subrange(8, 16) =~= codec::le_bytes(caps.vram_bytes as nat, 8));
    assert(wire.subrange(16, 20) =~= codec::le_bytes(caps.max_threads_per_threadgroup as nat, 4));
}

/// A complete transfer unit: the 64-byte envelope plus a bounded payload.
#[derive(Debug, Clone, PartialEq)]
pub struct SgpuFrame {
    pub header: VfMsgHeader,
    pub payload: Vec<u8>,
}

/// Where a frame's bytes lie: how long the whole transfer is, and where the
/// payload starts and ends in it.
pub struct FrameLayout {
    pub total: int,
    pub start: int,
    pub end: int,
}

/// What the envelope says of the frame's layout, or why it is refused. The
/// bound covers the whole inline body, padding and all.
pub open spec fn layout_verdict(h: VfMsgHeader) -> Result<FrameLayout, SgpuError> {
    match vf_abi::shape_verdict(h) {
        Err(error) => Err(SgpuError::Vf(error)),
        Ok(_) => if h.family != VF_FAMILY_SGPU {
            Err(SgpuError::Vf(VfError::Eabi("not an SGPU family frame")))
        } else if h.message_bytes > VF_MSG_BYTES + VF_PAYLOAD_MAX {
            Err(SgpuError::Vf(VfError::Erange))
        } else {
            match vf_abi::payload_end_verdict(h) {
                Err(error) => Err(SgpuError::Vf(error)),
                Ok(end) => Ok(
                    FrameLayout {
                        total: h.message_bytes as int,
                        start: VF_MSG_BYTES + h.payload_offset,
                        end: VF_MSG_BYTES + end,
                    },
                ),
            }
        },
    }
}

/// Why a frame is refused, if it is.
pub open spec fn frame_refusal(h: VfMsgHeader, payload: Seq<u8>) -> Option<SgpuError> {
    match layout_verdict(h) {
        Err(error) => Some(error),
        Ok(layout) => if payload.len() != layout.end - layout.start {
            Some(SgpuError::Payload)
        } else {
            None
        },
    }
}

/// The bytes of a frame: the envelope, then the payload at its offset, with
/// zeros around it.
pub open spec fn frame_wire(h: VfMsgHeader, payload: Seq<u8>) -> Seq<u8> {
    let after = h.message_bytes - VF_MSG_BYTES - h.payload_offset - payload.len();
    h.wire() + zeros(h.payload_offset as nat) + payload + zeros(after as nat)
}

/// Why bytes are no frame, if they are none.
pub open spec fn wire_refusal(bytes: Seq<u8>) -> Option<SgpuError> {
    if bytes.len() < 64 {
        Some(SgpuError::Payload)
    } else {
        match layout_verdict(vf_abi::header_of_wire(bytes.take(64))) {
            Err(error) => Some(error),
            Ok(layout) => if bytes.len() != layout.total {
                Some(SgpuError::Payload)
            } else {
                None
            },
        }
    }
}

/// The envelope of a frame on the wire.
pub open spec fn wire_header(bytes: Seq<u8>) -> VfMsgHeader {
    vf_abi::header_of_wire(bytes.take(64))
}

/// The payload of a frame on the wire.
pub open spec fn wire_payload(bytes: Seq<u8>) -> Seq<u8> {
    let h = wire_header(bytes);
    let start = VF_MSG_BYTES + h.payload_offset;
    bytes.subrange(start, start + h.payload_bytes)
}

/// The verdict that goes with a refusal or the lack of one.
pub open spec fn verdict(refusal: Option<SgpuError>) -> Result<(), SgpuError> {
    match refusal {
        Some(error) => Err(error),
        None => Ok(()),
    }
}

/// Reads a frame's layout off its envelope: total, start and end.
fn frame_layout(header: &VfMsgHeader) -> (layout: Result<(usize, usize, usize), SgpuError>)
    ensures
        match layout {
            Ok((total, start, end)) => layout_verdict(*header) == Ok::<FrameLayout, SgpuError>(
                FrameLayout { total: total as int, start: start as int, end: end as int },
            ),
            Err(error) => layout_verdict(*header) == Err::<FrameLayout, SgpuError>(error),
        },
{
    if let Err(error) = header.validate_shape() {
        return Err(SgpuError::Vf(error));
    }
    if header.family != VF_FAMILY_SGPU {
        return Err(SgpuError::Vf(VfError::Eabi("not an SGPU family frame")));
    }
    if header.message_bytes > VF_MSG_BYTES + VF_PAYLOAD_MAX {
        return Err(SgpuError::Vf(VfError::Erange));
    }
    match header.payload_end() {
        Err(error) => Err(SgpuError::Vf(error)),
        Ok(end) => Ok(
            (
                header.message_bytes as usize,
                (VF_MSG_BYTES as u64 + header.payload_offset) as usize,
                (VF_MSG_BYTES as u64 + end) as usize,
            ),
        ),
    }
}

/// Calls `Vec::try_reserve_exact`: whether room could be had depends on the
/// machine; what the vector holds stays the same.
#[verifier::external_body]
pub(crate) fn reserve_exact(bytes: &mut Vec<u8>, additional: usize) -> (reserved: bool)
    ensures
        final(bytes)@ == old(bytes)@,
{
    bytes.try_reserve_exact(additional).is_ok()
}

impl SgpuFrame {
    /// The frame's bytes, for a frame that is known to be valid.
    pub fn to_wire(&self) -> (wire: Vec<u8>)
        requires
            frame_refusal(self.header, self.payload@) is None,
        ensures
            wire@ == frame_wire(self.header, self.payload@),
    {
        let mut wire: Vec<u8> = Vec::new();
        self.write(&mut wire);
        wire
    }

    /// Appends the bytes of a valid frame.
    fn write(&self, out: &mut Vec<u8>)
        requires
            frame_refusal(self.header, self.payload@) is None,
        ensures
            final(out)@ == old(out)@ + frame_wire(self.header, self.payload@),
    {
        let ghost before = out@;
        out.extend_from_slice(self.header.encode().as_slice());
        put_zeros(out, self.header.payload_offset as usize);
        out.extend_from_slice(self.payload.as_slice());
        let after: u64 = (self.header.message_bytes - VF_MSG_BYTES) as u64
            - self.header.payload_offset - self.payload.len() as u64;
        put_zeros(out, after as usize);
        assert(out@ =~= before + frame_wire(self.header, self.payload@));
    }

    /// The frame's bytes, written to a buffer that was reserved for them;
    /// `None` stands for a reservation that failed.
    pub fn to_reserved_wire(&self, reserved: Option<Vec<u8>>) -> (wire: Result<Vec<u8>, SgpuError>)
        ensures
            match (frame_refusal(self.header, self.payload@), reserved) {
                (Some(error), _) => wire == Err::<Vec<u8>, SgpuError>(error),
                (None, None) => wire == Err::<Vec<u8>, SgpuError>(SgpuError::ResourceLimit),
                (None, Some(buffer)) => wire matches Ok(bytes) && bytes@ == buffer@ + frame_wire(
                    self.header,
                    self.payload@,
                ),
            },
    {
        self.validate()?;
        match reserved {
            None => Err(SgpuError::ResourceLimit),
            Some(mut buffer) => {
                self.write(&mut buffer);
                Ok(buffer)
            },
        }
    }

    /// The frame's bytes. The frame is checked before anything is allocated
    /// or copied; the only failure of a valid frame is one to allocate.
    pub fn try_to_wire(&self) -> (wire: Result<Vec<u8>, SgpuError>)
        ensures
            match frame_refusal(self.header, self.payload@) {
                Some(error) => wire == Err::<Vec<u8>, SgpuError>(error),
                None => match wire {
                    Ok(bytes) => bytes@ == frame_wire(self.header, self.payload@),
                    Err(error) => error == SgpuError::ResourceLimit,
                },
            },
    {
        self.validate()?;
        let mut buffer: Vec<u8> = Vec::new();
        let reserved: bool = reserve_exact(&mut buffer, self.header.message_bytes as usize);
        let ghost wire = frame_wire(self.header, self.payload@);
        assert(Seq::<u8>::empty() + wire =~= wire);
        self.to_reserved_wire(
            if reserved {
                Some(buffer)
            } else {
                None
            },
        )
    }

    /// Reads a frame from exactly the bytes of one, into a buffer that was
    /// reserved for its payload; `None` stands for a reservation that failed.
    pub fn from_reserved_wire(bytes: &[u8], reserved: Option<Vec<u8>>) -> (frame: Result<
        Self,
        SgpuError,
    >)
        ensures
            match (wire_refusal(bytes@), reserved) {
                (Some(error), _) => frame == Err::<SgpuFrame, SgpuError>(error),
                (None, None) => frame == Err::<SgpuFrame, SgpuError>(SgpuError::ResourceLimit),
                (None, Some(buffer)) => frame matches Ok(frame) && frame.header == wire_header(
                    bytes@,
                ) && frame.payload@ == buffer@ + wire_payload(bytes@),
            },
    {
        let (header, start, end): (VfMsgHeader, usize, usize) = SgpuFrame::locate(bytes)?;
        match reserved {
            None => Err(SgpuError::ResourceLimit),
            Some(mut payload) => {
                payload.extend_from_slice(vstd::slice::slice_subrange(bytes, start, end));
                Ok(SgpuFrame { header, payload })
            },
        }
    }

    /// Finds the envelope and the payload of a frame in exactly its bytes.
    fn locate(bytes: &[u8]) -> (found: Result<(VfMsgHeader, usize, usize), SgpuError>)
        ensures
            match (wire_refusal(bytes@), found) {
                (Some(refusal), Err(error)) => error == refusal,
                (None, Ok((header, start, end))) => {
                    &&& header == wire_header(bytes@)
                    &&& start <= end <= bytes@.len()
                    &&& bytes@.subrange(start as int, end as int) == wire_payload(bytes@)
                },
                _ => false,
            },
    {
        if bytes.len() < 64 {
            return Err(SgpuError::Payload);
        }
        let raw_header: &[u8] = vstd::slice::slice_subrange(bytes, 0, 64);
        assert(raw_header@ =~= bytes@.take(64));
        let header: VfMsgHeader = match VfMsgHeader::decode(raw_header) {
            Ok(header) => header,
            Err(error) => return Err(SgpuError::Vf(error)),
        };
        let (total, start, end): (usize, usize, usize) = frame_layout(&header)?;
        if bytes.len() != total {
            return Err(SgpuError::Payload);
        }
        Ok((header, start, end))
    }

    /// Reads a frame from exactly the bytes of one. The bytes are checked
    /// before anything is allocated; the only failure on the bytes of a valid
    /// frame is one to allocate room for its payload, where it has one.
    pub fn from_wire(bytes: &[u8]) -> (frame: Result<Self, SgpuError>)
        ensures
            match wire_refusal(bytes@) {
                Some(error) => frame == Err::<SgpuFrame, SgpuError>(error),
                None => match frame {
                    Ok(frame) => frame.header == wire_header(bytes@) && frame.payload@
                        == wire_payload(bytes@),
                    Err(error) => error == SgpuError::ResourceLimit && wire_payload(bytes@).len()
                        > 0,
                },
            },
    {
        let (_, start, end): (VfMsgHeader, usize, usize) = SgpuFrame::locate(bytes)?;
        let mut buffer: Vec<u8> = Vec::new();
        let reserved: bool = start == end || reserve_exact(&mut buffer, end - start);
        assert(Seq::<u8>::empty() + wire_payload(bytes@) =~= wire_payload(bytes@));
        SgpuFrame::from_reserved_wire(
            bytes,
            if reserved {
                Some(buffer)
            } else {
                None
            },
        )
    }

    /// Checks a frame, whether it was read or built by a caller.
    pub fn validate(&self) -> (outcome: Result<(), SgpuError>)
        ensures
            outcome == verdict(frame_refusal(self.header, self.payload@)),
    {
        let (_, start, end): (usize, usize, usize) = frame_layout(&self.header)?;
        if self.payload.len() != end - start {
            return Err(SgpuError::Payload);
        }
        Ok(())
    }
}

/// A valid frame reads back from its bytes as itself, whatever its padding.
pub proof fn law_frame_roundtrip(h: VfMsgHeader, payload: Seq<u8>)
    requires
        frame_refusal(h, payload) is None,
    ensures
        wire_refusal(frame_wire(h, payload)) is None,
        wire_header(frame_wire(h, payload)) == h,
        wire_payload(frame_wire(h, payload)) == payload,
        frame_wire(h, payload).len() == h.message_bytes,
{
    let wire = frame_wire(h, payload);
    vf_abi::lemma_header_lens(h);
    vf_abi::law_header_roundtrip(h);
    assert(wire.take(64) =~= h.wire());
    assert(wire_payload(wire) =~= payload);
}

/// No part of a frame that ends early is accepted.
pub proof fn law_frame_truncation_rejected(bytes: Seq<u8>, k: int)
    requires
        wire_refusal(bytes) is None,
        0 <= k < bytes.len(),
    ensures
        wire_refusal(bytes.take(k)) == Some(SgpuError::Payload),
{
    if k >= 64 {
        assert(bytes.take(k).take(64) =~= bytes.take(64));
    }
}

/// A frame with anything after it is refused.
pub proof fn law_frame_trailing_bytes_rejected(bytes: Seq<u8>, extra: Seq<u8>)
    requires
        wire_refusal(bytes) is None,
        extra.len() > 0,
    ensures
        wire_refusal(bytes + extra) == Some(SgpuError::Payload),
{
    assert((bytes + extra).take(64) =~= bytes.take(64));
}

/// What is read from the wire is a valid frame.
pub proof fn law_read_frame_is_valid(bytes: Seq<u8>)
    requires
        wire_refusal(bytes) is None,
    ensures
        frame_refusal(wire_header(bytes), wire_payload(bytes)) is None,
{
}

} // verus!
