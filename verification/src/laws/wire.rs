//! Envelopes, frames and capability records, byte by byte.
use vstd::prelude::*;

use crate::codec;
use crate::laws::text as text_laws;
use crate::sgpu;
use crate::sgpu::{GpuVendor, MetalVersion, SgpuCaps, SgpuError, SgpuFrame};
use crate::vf_abi;
use crate::vf_abi::{VfError, VfMsgHeader};

verus! {

/// The operations of each family are numbered from one on, in the order in
/// which they are listed, and the families likewise.
pub proof fn law_operation_numbers()
    ensures
        vf_abi::VF_FAMILY_ROOT == 1 && vf_abi::VF_FAMILY_BLOCK == 2 && vf_abi::VF_FAMILY_SGPU == 3,
        vf_abi::VF_OP_CAP_DUP_RESTRICTED == 1 && vf_abi::VF_OP_GRANT_CREATE == 2
            && vf_abi::VF_OP_GRANT_REVOKE == 3 && vf_abi::VF_OP_CELL_NOTIFY == 4
            && vf_abi::VF_OP_DEVICE_MAP_MMIO == 5 && vf_abi::VF_OP_DEVICE_DMA_MAP == 6
            && vf_abi::VF_OP_DEVICE_DMA_UNMAP == 7 && vf_abi::VF_OP_DEVICE_IRQ_BIND == 8
            && vf_abi::VF_OP_DEVICE_QUIESCE_RESET == 9,
        vf_abi::VF_BLOCK_READ == 1 && vf_abi::VF_BLOCK_WRITE == 2 && vf_abi::VF_BLOCK_FLUSH == 3,
        vf_abi::VF_SGPU_QUERY_CAPS == 1 && vf_abi::VF_SGPU_CREATE_RESOURCE == 2
            && vf_abi::VF_SGPU_DESTROY_RESOURCE == 3 && vf_abi::VF_SGPU_CREATE_PIPELINE == 4
            && vf_abi::VF_SGPU_SUBMIT_COMMAND_LIST == 5 && vf_abi::VF_SGPU_QUERY_OR_WAIT_TIMELINE
            == 6 && vf_abi::VF_SGPU_PRESENT == 7,
        vf_abi::VfMsgHeader::SIZE == 64 && vf_abi::VF_MSG_BYTES == 64,
{
}

/// Envelope errors become errors of the session and of the policy as they are.
pub proof fn law_envelope_errors(
    error: VfError,
    wrapped: SgpuError,
    policy: crate::vf_policy::PolicyError,
)
    requires
        call_ensures(<SgpuError as From<VfError>>::from, (error,), wrapped),
        call_ensures(<crate::vf_policy::PolicyError as From<VfError>>::from, (error,), policy),
    ensures
        wrapped == SgpuError::Vf(error),
        policy == crate::vf_policy::PolicyError::Vf(error),
{
}

/// The two bytes from `at` on as a number, the least significant first.
pub open spec fn two(b: Seq<u8>, at: int) -> int {
    b[at] + 0x100 * b[at + 1]
}

/// The four bytes from `at` on as a number, the least significant first.
pub open spec fn four(b: Seq<u8>, at: int) -> int {
    two(b, at) + 0x1_0000 * two(b, at + 2)
}

/// The eight bytes from `at` on as a number, the least significant first.
pub open spec fn eight(b: Seq<u8>, at: int) -> int {
    four(b, at) + 0x1_0000_0000 * four(b, at + 4)
}

/// Whether 64 bytes from the start of `b` hold the fields of an envelope, each
/// at its own place.
pub open spec fn lays_out(b: Seq<u8>, h: VfMsgHeader) -> bool {
    &&& four(b, 0) == h.magic
    &&& two(b, 4) == h.abi_major
    &&& two(b, 6) == h.header_bytes
    &&& four(b, 8) == h.message_bytes
    &&& two(b, 12) == h.family
    &&& two(b, 14) == h.opcode
    &&& eight(b, 16) == h.request_id
    &&& eight(b, 24) == h.object
    &&& eight(b, 32) == h.payload_grant
    &&& eight(b, 40) == h.payload_offset
    &&& four(b, 48) == h.payload_bytes
    &&& four(b, 52) == h.flags
    &&& eight(b, 56) == h.reserved0
}

/// Every field of an envelope is written at its place.
pub proof fn law_envelope_written(h: VfMsgHeader, bytes: [u8; 64])
    requires
        call_ensures(VfMsgHeader::encode, (&h,), bytes),
    ensures
        lays_out(bytes@, h),
{
    vf_abi::law_header_roundtrip(h);
    lemma_layout(bytes@);
}

/// Every field of an envelope is read from its place, and from 64 bytes alone.
pub proof fn law_envelope_read(bytes: &[u8], header: Result<VfMsgHeader, VfError>)
    requires
        call_ensures(VfMsgHeader::decode, (bytes,), header),
    ensures
        match header {
            Ok(h) => bytes@.len() == 64 && lays_out(bytes@, h),
            Err(error) => bytes@.len() != 64 && error == VfError::Erange,
        },
{
    if bytes@.len() == 64 {
        lemma_layout(bytes@);
    }
}

/// A new envelope is for the operation given, and otherwise blank.
pub proof fn law_new_envelope(family: u16, opcode: u16, h: VfMsgHeader)
    requires
        call_ensures(VfMsgHeader::new, (family, opcode), h),
    ensures
        h.family == family && h.opcode == opcode,
        is_blank_otherwise(h),
        h.message_bytes == 64 && h.payload_bytes == 0 && h.request_id == 0,
{
}

/// The default envelope is for no operation, and blank.
pub proof fn law_default_envelope(h: VfMsgHeader)
    requires
        call_ensures(VfMsgHeader::default, (), h),
    ensures
        h.family == 0 && h.opcode == 0,
        is_blank_otherwise(h),
        h.message_bytes == 64 && h.payload_bytes == 0 && h.request_id == 0,
{
}

/// Whether an envelope has its constants, and neither object, grant, offset
/// nor flags.
pub open spec fn is_blank_otherwise(h: VfMsgHeader) -> bool {
    &&& h.magic == 0x314D_4656 && h.abi_major == 1 && h.header_bytes == 64
    &&& h.object == 0 && h.payload_grant == 0 && h.payload_offset == 0
    &&& h.flags == 0 && h.reserved0 == 0
}

/// An envelope has the right shape exactly where its constants are right, the
/// message is no shorter than it, the payload no longer than sixteen MiB, and
/// the family one of three. Each refusal says what is wrong first.
pub proof fn law_shape(h: VfMsgHeader, verdict: Result<(), VfError>)
    requires
        call_ensures(VfMsgHeader::validate_shape, (&h,), verdict),
    ensures
        ({
            let magic = h.magic == 0x314D_4656;
            let abi = magic && h.abi_major == 1;
            let sized = abi && h.header_bytes == 64;
            let long = sized && h.message_bytes >= 64;
            let bounded = long && h.payload_bytes <= 0x100_0000;
            let known = bounded && 1 <= h.family <= 3;
            &&& verdict is Ok <==> known
            &&& !magic ==> verdict == Err::<(), VfError>(VfError::Eabi("bad magic"))
            &&& magic && !abi ==> verdict == Err::<(), VfError>(
                VfError::Eabi("unsupported abi major"),
            )
            &&& abi && !sized ==> verdict == Err::<(), VfError>(VfError::Eabi("bad header size"))
            &&& sized && !long ==> verdict == Err::<(), VfError>(
                VfError::Eabi("message smaller than header"),
            )
            &&& long && !bounded ==> verdict == Err::<(), VfError>(VfError::Erange)
            &&& bounded && !known ==> verdict == Err::<(), VfError>(VfError::Eabi("unknown family"))
        }),
{
}

/// The payload ends as many bytes behind the envelope as its offset and length
/// add up to, if that is inside the message.
pub proof fn law_payload_end(h: VfMsgHeader, end: Result<u64, VfError>)
    requires
        call_ensures(VfMsgHeader::payload_end, (&h,), end),
    ensures
        ({
            let sum = h.payload_offset + h.payload_bytes;
            let whole = sum < 0x1_0000_0000_0000_0000;
            match end {
                Ok(end) => end == sum && sum + 64 <= h.message_bytes,
                Err(error) => {
                    &&& sum + 64 > h.message_bytes
                    &&& !whole ==> error == VfError::Erange
                    &&& whole && h.message_bytes < 64 ==> error == VfError::Eabi("bad message size")
                    &&& h.message_bytes >= 64 ==> error == VfError::Erange
                },
            }
        }),
{
}

/// Whether an envelope is one of an inline graphics frame of a bounded size
/// that holds its payload.
pub open spec fn frames(h: VfMsgHeader) -> bool {
    &&& h.magic == 0x314D_4656 && h.abi_major == 1 && h.header_bytes == 64 && h.family == 3
    &&& 64 <= h.message_bytes <= 64 + 0x100_0000
    &&& h.payload_bytes <= 0x100_0000
    &&& 64 + h.payload_offset + h.payload_bytes <= h.message_bytes
}

/// A frame is valid exactly where its envelope is one of a frame and the
/// payload is as long as it says. An envelope of another family is named, as
/// is a payload of another length.
pub proof fn law_valid_frame(
    frame: SgpuFrame,
    outcome: Result<(), SgpuError>,
    shape: Result<(), VfError>,
)
    requires
        call_ensures(SgpuFrame::validate, (&frame,), outcome),
        call_ensures(VfMsgHeader::validate_shape, (&frame.header,), shape),
    ensures
        outcome is Ok <==> frames(frame.header) && frame.payload@.len() == frame.header.payload_bytes,
        shape is Err ==> outcome == Err::<(), SgpuError>(SgpuError::Vf(shape->Err_0)),
        shape is Ok && frame.header.family != 3 ==> outcome == Err::<(), SgpuError>(
            SgpuError::Vf(VfError::Eabi("not an SGPU family frame")),
        ),
        shape is Ok && frame.header.family == 3 && !frames(frame.header) ==> outcome == Err::<
            (),
            SgpuError,
        >(SgpuError::Vf(VfError::Erange)),
        frames(frame.header) && frame.payload@.len() != frame.header.payload_bytes ==> outcome
            == Err::<(), SgpuError>(SgpuError::Payload),
{
}

/// Whether bytes are those of a frame: the envelope, the payload at its offset
/// behind it, and zeros around it.
pub open spec fn spells_frame(bytes: Seq<u8>, frame: SgpuFrame) -> bool {
    let start = 64 + frame.header.payload_offset;
    &&& bytes.len() == frame.header.message_bytes
    &&& lays_out(bytes, frame.header)
    &&& forall|k: int|
        0 <= k < frame.payload@.len() ==> bytes[start + k] == #[trigger] frame.payload@[k]
    &&& forall|i: int|
        64 <= i < bytes.len() && !(start <= i < start + frame.payload@.len())
            ==> #[trigger] bytes[i] == 0
}

/// A valid frame is written as its bytes.
pub proof fn law_frame_written(frame: SgpuFrame, valid: Result<(), SgpuError>, wire: Vec<u8>)
    requires
        call_ensures(SgpuFrame::validate, (&frame,), valid),
        valid is Ok,
        call_ensures(SgpuFrame::to_wire, (&frame,), wire),
    ensures
        spells_frame(wire@, frame),
{
    lemma_frame(frame);
}

/// A frame is written as its bytes, or refused as invalid, or there is no room
/// for its bytes.
pub proof fn law_frame_checked_and_written(
    frame: SgpuFrame,
    valid: Result<(), SgpuError>,
    wire: Result<Vec<u8>, SgpuError>,
)
    requires
        call_ensures(SgpuFrame::validate, (&frame,), valid),
        call_ensures(SgpuFrame::try_to_wire, (&frame,), wire),
    ensures
        valid is Err ==> wire is Err && wire->Err_0 == valid->Err_0,
        valid is Ok && wire is Ok ==> spells_frame(wire->Ok_0@, frame),
        valid is Ok && wire is Err ==> wire->Err_0 == SgpuError::ResourceLimit,
{
    if valid is Ok {
        lemma_frame(frame);
    }
}

/// A frame is written to the buffer that was reserved for it, after what it
/// holds; without one there is no room.
pub proof fn law_frame_written_to_reserve(
    frame: SgpuFrame,
    reserved: Option<Vec<u8>>,
    valid: Result<(), SgpuError>,
    wire: Result<Vec<u8>, SgpuError>,
)
    requires
        call_ensures(SgpuFrame::validate, (&frame,), valid),
        call_ensures(SgpuFrame::to_reserved_wire, (&frame, reserved), wire),
    ensures
        valid is Err ==> wire is Err && wire->Err_0 == valid->Err_0,
        valid is Ok && reserved is None ==> wire is Err && wire->Err_0 == SgpuError::ResourceLimit,
        valid is Ok && reserved is Some ==> wire is Ok && ({
            let n = reserved->Some_0@.len() as int;
            &&& wire->Ok_0@.take(n) == reserved->Some_0@
            &&& spells_frame(wire->Ok_0@.skip(n), frame)
        }),
{
    if valid is Ok && reserved is Some {
        let n = reserved->Some_0@.len() as int;
        lemma_frame(frame);
        assert(wire->Ok_0@.take(n) =~= reserved->Some_0@);
        assert(wire->Ok_0@.skip(n) =~= sgpu::frame_wire(frame.header, frame.payload@));
    }
}

/// Whether bytes start with the envelope of a frame and are as many as it says.
pub open spec fn spells(bytes: Seq<u8>, h: VfMsgHeader) -> bool {
    bytes.len() >= 64 && lays_out(bytes, h) && frames(h) && bytes.len() == h.message_bytes
}

/// Bytes are read as a frame exactly where they start with the envelope of one
/// and are as many as it says; the frame has that envelope and, for a payload,
/// the bytes that it points to. Only for want of room for a payload can such
/// bytes fail to be read.
pub proof fn law_frame_read(bytes: &[u8], frame: Result<SgpuFrame, SgpuError>)
    requires
        call_ensures(SgpuFrame::from_wire, (bytes,), frame),
    ensures
        match frame {
            Ok(frame) => {
                &&& spells(bytes@, frame.header)
                &&& frame.payload@.len() == frame.header.payload_bytes
                &&& forall|k: int|
                    0 <= k < frame.payload@.len() ==> #[trigger] frame.payload@[k] == bytes@[64
                        + frame.header.payload_offset + k]
            },
            Err(error) => forall|h: VfMsgHeader| #[trigger]
                spells(bytes@, h) ==> h.payload_bytes > 0 && error == SgpuError::ResourceLimit,
        },
        bytes@.len() < 64 ==> frame is Err && frame->Err_0 == SgpuError::Payload,
{
    lemma_read(bytes@);
}

/// The same of reading into a buffer that was reserved for the payload.
pub proof fn law_frame_read_into_reserve(
    bytes: &[u8],
    reserved: Option<Vec<u8>>,
    frame: Result<SgpuFrame, SgpuError>,
)
    requires
        call_ensures(SgpuFrame::from_reserved_wire, (bytes, reserved), frame),
    ensures
        match frame {
            Ok(frame) => {
                &&& reserved is Some
                &&& spells(bytes@, frame.header)
                &&& frame.payload@.len() == reserved->Some_0@.len() + frame.header.payload_bytes
                &&& forall|k: int|
                    0 <= k < frame.header.payload_bytes
                        ==> #[trigger] frame.payload@[reserved->Some_0@.len() + k] == bytes@[64
                        + frame.header.payload_offset + k]
            },
            Err(error) => forall|h: VfMsgHeader| #[trigger]
                spells(bytes@, h) ==> reserved is None && error == SgpuError::ResourceLimit,
        },
        bytes@.len() < 64 ==> frame is Err && frame->Err_0 == SgpuError::Payload,
{
    lemma_read(bytes@);
}

/// Bytes that start with an envelope for which a frame would be refused, are
/// refused for the same reason; those that start with the envelope of a frame
/// but are not as many as it says, for their length.
pub proof fn law_frame_read_refusal(
    bytes: &[u8],
    frame: Result<SgpuFrame, SgpuError>,
    probe: SgpuFrame,
    refusal: VfError,
)
    requires
        call_ensures(SgpuFrame::from_wire, (bytes,), frame),
        bytes@.len() >= 64,
        lays_out(bytes@, probe.header),
    ensures
        call_ensures(
            SgpuFrame::validate,
            (&probe,),
            Err::<(), SgpuError>(SgpuError::Vf(refusal)),
        ) ==> frame is Err && frame->Err_0 == SgpuError::Vf(refusal),
        frames(probe.header) && bytes@.len() != probe.header.message_bytes ==> frame is Err
            && frame->Err_0 == SgpuError::Payload,
{
    lemma_layout_of_start(bytes@, probe.header);
}

/// The place of a vendor in the list of them.
pub open spec fn vendor_place(vendor: GpuVendor) -> int {
    match vendor {
        GpuVendor::AMD => 0,
        GpuVendor::NVIDIA => 1,
        GpuVendor::Intel => 2,
        GpuVendor::Unknown => 3,
    }
}

/// The place of a Metal version in the list of them.
pub open spec fn metal_place(version: MetalVersion) -> int {
    match version {
        MetalVersion::V2_0 => 0,
        MetalVersion::V3_0 => 1,
        MetalVersion::V3_1 => 2,
        MetalVersion::V3_2 => 3,
    }
}

/// Whether forty bytes from the start of `b` hold a capability record.
pub open spec fn holds_caps(b: Seq<u8>, caps: SgpuCaps) -> bool {
    &&& eight(b, 8) == caps.vram_bytes
    &&& four(b, 16) == caps.max_threads_per_threadgroup
    &&& (b[20] != 0) == caps.has_compute_shaders
    &&& (b[24] != 0) == caps.software_accelerated
    &&& vendor_place(caps.vendor) == if b[0] < 3 {
        b[0] as int
    } else {
        3
    }
    &&& metal_place(caps.metal_version) == if b[4] < 3 {
        b[4] as int
    } else {
        3
    }
}

/// A capability record is written in forty bytes, each field at its place:
/// vendor, Metal version and flags in one byte each, and zeros elsewhere.
pub proof fn law_caps_written(caps: SgpuCaps, bytes: [u8; 40])
    requires
        call_ensures(SgpuCaps::encode, (&caps,), bytes),
    ensures
        bytes@.len() == 40,
        holds_caps(bytes@, caps),
        bytes@[0] == vendor_place(caps.vendor) && bytes@[4] == metal_place(caps.metal_version),
        bytes@[20] <= 1 && bytes@[24] <= 1,
        forall|i: int|
            1 <= i < 40 && i != 4 && !(8 <= i < 21) && i != 24 ==> #[trigger] bytes@[i] == 0,
{
    lemma_caps(caps);
}

/// A capability record is read from the first forty bytes, each field from its
/// place; numbers without a name are an unknown vendor and the newest version.
pub proof fn law_caps_read(bytes: &[u8], caps: Result<SgpuCaps, SgpuError>)
    requires
        call_ensures(SgpuCaps::decode, (bytes,), caps),
    ensures
        match caps {
            Ok(caps) => bytes@.len() >= 40 && holds_caps(bytes@, caps),
            Err(error) => bytes@.len() < 40 && error == SgpuError::Payload,
        },
{
    if bytes@.len() >= 40 {
        lemma_numbers(bytes@);
        codec::lemma_byte_spans();
        codec::lemma_le_bytes_of_value(bytes@.subrange(8, 16));
        codec::lemma_le_bytes_of_value(bytes@.subrange(16, 20));
    }
}

/// Where the fields of a capability record stand in its wire form.
pub proof fn lemma_caps(caps: SgpuCaps)
    ensures
        caps.wire().len() == 40,
        holds_caps(caps.wire(), caps),
        caps.wire()[0] == vendor_place(caps.vendor),
        caps.wire()[4] == metal_place(caps.metal_version),
        caps.wire()[20] <= 1 && caps.wire()[24] <= 1,
        forall|i: int|
            1 <= i < 40 && i != 4 && !(8 <= i < 21) && i != 24 ==> #[trigger] caps.wire()[i] == 0,
{
    let b = caps.wire();
    sgpu::law_caps_roundtrip(caps);
    lemma_numbers(b);
    codec::lemma_byte_spans();
    codec::lemma_le_bytes_len(caps.vram_bytes as nat, 8);
    codec::lemma_le_bytes_len(caps.max_threads_per_threadgroup as nat, 4);
    codec::lemma_le_bytes_of_value(b.subrange(8, 16));
    codec::lemma_le_bytes_of_value(b.subrange(16, 20));
}

/// What the numbers in a sequence of bytes read as.
pub proof fn lemma_numbers(b: Seq<u8>)
    ensures
        forall|at: int, to: int|
            0 <= at && to == at + 2 && to <= b.len() ==> codec::le_value(
                #[trigger] b.subrange(at, to),
            ) == two(b, at),
        forall|at: int, to: int|
            0 <= at && to == at + 4 && to <= b.len() ==> codec::le_value(
                #[trigger] b.subrange(at, to),
            ) == four(b, at),
        forall|at: int, to: int|
            0 <= at && to == at + 8 && to <= b.len() ==> codec::le_value(
                #[trigger] b.subrange(at, to),
            ) == eight(b, at),
{
    assert forall|at: int, to: int|
        0 <= at && to == at + 2 && to <= b.len() implies codec::le_value(
        #[trigger] b.subrange(at, to),
    ) == two(b, at) by {
        text_laws::lemma_two(b.subrange(at, to));
    }
    assert forall|at: int, to: int|
        0 <= at && to == at + 4 && to <= b.len() implies codec::le_value(
        #[trigger] b.subrange(at, to),
    ) == four(b, at) by {
        text_laws::lemma_four(b.subrange(at, to));
    }
    assert forall|at: int, to: int|
        0 <= at && to == at + 8 && to <= b.len() implies codec::le_value(
        #[trigger] b.subrange(at, to),
    ) == eight(b, at) by {
        text_laws::lemma_eight(b.subrange(at, to));
    }
}

proof fn lemma_layout(b: Seq<u8>)
    requires
        b.len() == 64,
    ensures
        lays_out(b, vf_abi::header_of_wire(b)),
{
    lemma_numbers(b);
}

/// An envelope is laid out alike in all bytes that start alike.
proof fn lemma_layout_of_start(b: Seq<u8>, h: VfMsgHeader)
    requires
        b.len() >= 64,
    ensures
        lays_out(b, h) == (h == vf_abi::header_of_wire(b.take(64))),
{
    let head = b.take(64);
    lemma_layout(head);
    assert forall|i: int| 0 <= i < 64 implies b[i] == head[i] by {}
    assert(lays_out(b, vf_abi::header_of_wire(head)));
}

proof fn lemma_frame(frame: SgpuFrame)
    requires
        sgpu::frame_refusal(frame.header, frame.payload@) is None,
    ensures
        spells_frame(sgpu::frame_wire(frame.header, frame.payload@), frame),
{
    let h = frame.header;
    let wire = sgpu::frame_wire(h, frame.payload@);
    sgpu::law_frame_roundtrip(h, frame.payload@);
    vf_abi::lemma_header_lens(h);
    lemma_layout_of_start(wire, h);
}

proof fn lemma_read(bytes: Seq<u8>)
    ensures
        bytes.len() >= 64 ==> ({
            let h = sgpu::wire_header(bytes);
            &&& lays_out(bytes, h)
            &&& sgpu::wire_refusal(bytes) is None <==> spells(bytes, h)
            &&& forall|other: VfMsgHeader| #[trigger] spells(bytes, other) ==> other == h
            &&& sgpu::wire_refusal(bytes) is None ==> sgpu::wire_payload(bytes).len()
                == h.payload_bytes
        }),
{
    if bytes.len() >= 64 {
        let h = sgpu::wire_header(bytes);
        lemma_layout_of_start(bytes, h);
        assert forall|other: VfMsgHeader| #[trigger] spells(bytes, other) implies other == h by {
            lemma_layout_of_start(bytes, other);
        }
    }
}

} // verus!
