use std::collections::HashMap;

use nextcore_apls::sgpu::{
    GpuVendor, MetalVersion, SgpuCaps, SgpuCommand, SgpuCommandList, SgpuError, SgpuFrame,
    SgpuResource, SgpuSession, SGPU_MAX_RESOURCES, SGPU_MAX_RESOURCE_BYTES,
    SGPU_MAX_TOTAL_RESOURCE_BYTES,
};
use nextcore_apls::sgpu_session::{BufferRequest, DeviceReport, GpuBuffer, GpuCommand, SgpuAction};
use nextcore_apls::vf_abi::{
    VfError, VfMsgHeader, VF_FAMILY_ROOT, VF_FAMILY_SGPU, VF_MSG_BYTES, VF_PAYLOAD_MAX,
    VF_SGPU_CREATE_RESOURCE, VF_SGPU_DESTROY_RESOURCE, VF_SGPU_PRESENT, VF_SGPU_QUERY_CAPS,
    VF_SGPU_SUBMIT_COMMAND_LIST,
};

const MAX_COMMANDS: usize = 4096;

/// A software device: buffers by handle, and copies between them. A list that
/// holds anything else is refused before it is run.
struct Software {
    report: DeviceReport,
    buffers: HashMap<u64, Vec<u8>>,
    next_handle: u64,
}

impl Software {
    fn new(vendor: GpuVendor) -> Self {
        Software {
            report: DeviceReport {
                vendor,
                metal_version: MetalVersion::V3_1,
                vram_size: 4 << 20,
                max_threads: 1,
                software_accelerated: true,
            },
            buffers: HashMap::new(),
            next_handle: 1,
        }
    }

    fn allocate(&mut self, request: BufferRequest) -> GpuBuffer {
        let handle = self.next_handle;
        self.next_handle += 1;
        self.buffers.insert(handle, vec![0; request.size as usize]);
        GpuBuffer { handle, size: request.size }
    }

    fn free(&mut self, handle: u64) -> Result<(), String> {
        self.buffers.remove(&handle).map(|_| ()).ok_or("no such buffer".to_string())
    }

    fn run(&mut self, commands: &[GpuCommand]) -> Result<(), String> {
        if !commands.iter().all(|c| matches!(c, GpuCommand::CopyBuffer { .. })) {
            return Err("unsupported command".to_string());
        }
        for command in commands {
            if let GpuCommand::CopyBuffer { src, dst, size } = command {
                let data = self.buffers[src][..*size as usize].to_vec();
                self.buffers.get_mut(dst).unwrap()[..*size as usize].copy_from_slice(&data);
            }
        }
        Ok(())
    }
}

/// A session with its device.
struct Cell {
    session: SgpuSession,
    device: Software,
}

impl Cell {
    fn new() -> Self {
        Cell { session: SgpuSession::new(MAX_COMMANDS), device: Software::new(GpuVendor::AMD) }
    }

    fn create(&mut self, size: u64) -> Result<SgpuResource, SgpuError> {
        let request = self.session.create_resource(size)?;
        let buffer = self.device.allocate(request);
        Ok(self.session.adopt_buffer(request, buffer))
    }

    fn destroy(&mut self, handle: u64) -> Result<(), SgpuError> {
        let gpu = self.session.destroy_resource(handle)?;
        self.device.free(gpu).map_err(SgpuError::Gpu)
    }

    fn submit(&mut self, list: &SgpuCommandList) -> Result<usize, SgpuError> {
        let commands = self.session.submit(list)?;
        self.device.run(&commands).map_err(SgpuError::Gpu)?;
        Ok(list.cmds.len())
    }

    fn present(&mut self, handle: u64) -> Result<(), SgpuError> {
        let commands = self.session.present(handle)?;
        self.device.run(&commands).map_err(SgpuError::Gpu)
    }

    /// Serves a request; `list` is what its payload decodes as.
    fn dispatch(
        &mut self,
        frame: &SgpuFrame,
        list: Option<&SgpuCommandList>,
    ) -> Result<SgpuFrame, SgpuError> {
        match self.session.dispatch(frame)? {
            SgpuAction::Query => Ok(self.session.finish_query(frame, &self.device.report)),
            SgpuAction::Allocate(request) => {
                let buffer = self.device.allocate(request);
                Ok(self.session.finish_create(frame, request, buffer))
            }
            SgpuAction::Free(handle) => {
                let freed = self.device.free(handle);
                self.session.finish_destroy(frame, freed)
            }
            SgpuAction::Decode => {
                let commands = self.session.submit_decoded(list)?;
                let ran = self.device.run(&commands);
                self.session.finish_submit(frame, list.unwrap(), ran)
            }
            SgpuAction::Run(commands) => {
                let ran = self.device.run(&commands);
                self.session.finish_present(frame, ran)
            }
        }
    }
}

fn request(opcode: u16, payload: Vec<u8>) -> SgpuFrame {
    let mut header = VfMsgHeader::new(VF_FAMILY_SGPU, opcode);
    header.payload_bytes = payload.len() as u32;
    header.message_bytes = VF_MSG_BYTES + header.payload_bytes;
    SgpuFrame { header, payload }
}

fn colour(value: [f32; 4]) -> SgpuCommand {
    SgpuCommand::RenderClear { color: value.map(f32::to_bits) }
}

#[test]
fn shared_codec_errors_propagate_into_legacy_result_alias() {
    let session = SgpuSession::new(MAX_COMMANDS);
    let empty = SgpuCommandList { cmds: vec![] };
    assert!(session.submit_decoded(Some(&empty)).unwrap().is_empty());
    assert!(matches!(session.submit_decoded(None), Err(SgpuError::Payload)));
}

#[test]
fn inline_frame_roundtrip_preserves_header_and_payload_with_padding() {
    let mut frame = request(VF_SGPU_CREATE_RESOURCE, 256u64.to_le_bytes().to_vec());
    frame.header.payload_offset = 3;
    frame.header.message_bytes += 8;
    frame.header.request_id = 0xfedc_ba98_7654_3210;
    frame.header.object = 0x1234_5678_0000_0001;
    frame.header.payload_grant = 0x8877_6655_4433_2211;
    frame.header.flags = 0x1020_3040;
    frame.header.reserved0 = 0x0102_0304_0506_0708;
    let wire = frame.try_to_wire().unwrap();
    assert_eq!(wire.len(), 80);
    assert_eq!(&wire[64..67], &[0; 3]);
    assert_eq!(&wire[75..], &[0; 5]);
    let decoded = SgpuFrame::from_wire(&wire).unwrap();
    assert_eq!(decoded.header.encode(), frame.header.encode());
    assert_eq!(decoded.payload, frame.payload);
    assert_eq!(decoded.to_wire(), wire);
}

#[test]
fn inline_frame_rejects_every_truncation_and_extra_transfer_bytes() {
    let frame = request(VF_SGPU_CREATE_RESOURCE, 8u64.to_le_bytes().to_vec());
    let wire = frame.try_to_wire().unwrap();
    for length in 0..wire.len() {
        assert!(SgpuFrame::from_wire(&wire[..length]).is_err(), "accepted length {length}");
    }
    let mut trailing = wire.clone();
    trailing.push(0);
    assert!(SgpuFrame::from_wire(&trailing).is_err());
    for declared in [64u32, 71, 73, u32::MAX] {
        let mut bad = wire.clone();
        bad[8..12].copy_from_slice(&declared.to_le_bytes());
        assert!(SgpuFrame::from_wire(&bad).is_err());
    }
    // A query whose declared payload is missing is no frame.
    let mut query = VfMsgHeader::new(VF_FAMILY_SGPU, VF_SGPU_QUERY_CAPS);
    query.message_bytes = 72;
    query.payload_bytes = 8;
    assert!(SgpuFrame::from_wire(&query.encode()).is_err());
}

#[test]
fn inline_frame_checks_overflow_limits_and_typed_payload_consistency() {
    let valid = request(VF_SGPU_CREATE_RESOURCE, 8u64.to_le_bytes().to_vec());
    for offset in [u64::MAX, u64::MAX - 3, 1u64 << 32] {
        let mut bad = valid.clone();
        bad.header.payload_offset = offset;
        assert!(bad.try_to_wire().is_err());
        assert!(SgpuFrame::from_wire(&bad.header.encode()).is_err());
    }
    let mut bad = valid.clone();
    bad.header.message_bytes = VF_MSG_BYTES + VF_PAYLOAD_MAX + 1;
    assert!(bad.try_to_wire().is_err());
    bad = valid.clone();
    bad.header.payload_bytes = VF_PAYLOAD_MAX + 1;
    assert!(bad.try_to_wire().is_err());
    bad = valid.clone();
    bad.payload.push(0);
    assert!(bad.try_to_wire().is_err());
    bad = valid.clone();
    bad.header.magic = 0;
    assert!(bad.try_to_wire().is_err());
    bad = valid;
    bad.header.family = VF_FAMILY_ROOT;
    assert!(bad.try_to_wire().is_err());
}

#[test]
fn dispatch_validates_direct_frames_before_resource_mutation() {
    let mut cell = Cell::new();
    let mut bad = request(VF_SGPU_CREATE_RESOURCE, 8u64.to_le_bytes().to_vec());
    bad.header.payload_bytes = 0;
    assert!(cell.dispatch(&bad, None).is_err());
    bad.header.payload_bytes = 8;
    bad.header.message_bytes = 64;
    assert!(cell.dispatch(&bad, None).is_err());
    let resource = cell.create(8).unwrap();
    assert_eq!(resource.sgp_handle, 1);
    assert_eq!(resource.gpu_handle, 1);
}

#[test]
fn request_opcodes_require_exact_payload_lengths() {
    let mut cell = Cell::new();
    let resource = cell.create(8).unwrap();
    for opcode in [VF_SGPU_CREATE_RESOURCE, VF_SGPU_DESTROY_RESOURCE, VF_SGPU_PRESENT] {
        for length in [7, 9] {
            let mut payload = resource.sgp_handle.to_le_bytes().to_vec();
            payload.resize(length, 0);
            assert!(matches!(
                cell.dispatch(&request(opcode, payload), None),
                Err(SgpuError::Payload)
            ));
        }
    }
    assert!(matches!(
        cell.dispatch(&request(VF_SGPU_QUERY_CAPS, vec![0]), None),
        Err(SgpuError::Payload)
    ));
    assert_eq!(cell.session.gpu_handle(resource.sgp_handle).unwrap(), resource.gpu_handle);
}

#[test]
fn oversized_resource_requests_fail_without_entering_allocator() {
    let mut cell = Cell::new();
    for size in [SGPU_MAX_RESOURCE_BYTES + 1, 1u64 << 32, u64::MAX] {
        let wire = request(VF_SGPU_CREATE_RESOURCE, size.to_le_bytes().to_vec())
            .try_to_wire()
            .unwrap();
        let decoded = SgpuFrame::from_wire(&wire).unwrap();
        assert!(matches!(cell.dispatch(&decoded, None), Err(SgpuError::ResourceLimit)));
    }
    assert!(matches!(cell.create(0), Err(SgpuError::Payload)));
    let resource = cell.create(4).unwrap();
    assert_eq!(resource.sgp_handle, 1);
    assert_eq!(resource.gpu_handle, 1);
}

#[test]
fn resource_count_budget_recovers_after_destroy() {
    let mut cell = Cell::new();
    let resources: Vec<SgpuResource> =
        (0..SGPU_MAX_RESOURCES).map(|_| cell.create(4).unwrap()).collect();
    assert!(matches!(cell.create(4), Err(SgpuError::ResourceLimit)));
    cell.destroy(resources[0].sgp_handle).unwrap();
    assert!(cell.session.gpu_handle(resources[0].sgp_handle).is_err());
    assert!(!cell.device.buffers.contains_key(&resources[0].gpu_handle));
    let replacement = cell.create(4).unwrap();
    assert_eq!(replacement.sgp_handle, SGPU_MAX_RESOURCES as u64 + 1);
}

#[test]
fn resource_byte_budget_recovers_after_destroy() {
    let mut cell = Cell::new();
    let count = SGPU_MAX_TOTAL_RESOURCE_BYTES / SGPU_MAX_RESOURCE_BYTES;
    let resources: Vec<SgpuResource> =
        (0..count).map(|_| cell.create(SGPU_MAX_RESOURCE_BYTES).unwrap()).collect();
    assert!(matches!(cell.create(1), Err(SgpuError::ResourceLimit)));
    cell.destroy(resources[0].sgp_handle).unwrap();
    cell.create(SGPU_MAX_RESOURCE_BYTES).unwrap();
    assert!(matches!(cell.create(1), Err(SgpuError::ResourceLimit)));
}

#[test]
fn caps_roundtrip() {
    let caps = SgpuCaps {
        vendor: GpuVendor::AMD,
        metal_version: MetalVersion::V3_1,
        vram_bytes: 4 << 20,
        max_threads_per_threadgroup: 1,
        has_compute_shaders: false,
        software_accelerated: true,
    };
    assert_eq!(SgpuCaps::decode(&caps.encode()).unwrap(), caps);
}

#[test]
fn copy_buffer_executes_on_software_backend() {
    let mut cell = Cell::new();
    let src = cell.create(256).unwrap();
    let dst = cell.create(256).unwrap();
    // Write pattern into source GPU buffer directly.
    cell.device.buffers.insert(src.gpu_handle, vec![0xEE; 256]);
    cell.submit(&SgpuCommandList {
        cmds: vec![SgpuCommand::CopyBuffer {
            src: src.sgp_handle,
            dst: dst.sgp_handle,
            size: 256,
        }],
    })
    .unwrap();
    assert!(cell.device.buffers[&dst.gpu_handle].iter().all(|&b| b == 0xEE));
}

#[test]
fn dispatch_query_caps_through_vf_frame() {
    let mut cell = Cell::new();
    let mut h = VfMsgHeader::new(VF_FAMILY_SGPU, VF_SGPU_QUERY_CAPS);
    h.request_id = 42;
    h.payload_offset = 0;
    h.message_bytes = VF_MSG_BYTES;
    h.payload_bytes = 0;
    let req = SgpuFrame { header: h, payload: Vec::new() };
    let resp = cell.dispatch(&req, None).unwrap();
    assert_eq!(resp.header.request_id, 42);
    assert_eq!(resp.header.opcode, VF_SGPU_QUERY_CAPS);
    assert!(resp.header.message_bytes >= VF_MSG_BYTES);
    let caps = SgpuCaps::decode(&resp.payload).unwrap();
    assert!(caps.software_accelerated);
    assert_eq!(caps.vendor, GpuVendor::AMD);
}

#[test]
fn dispatch_create_and_copy_via_wire_roundtrip() {
    let mut cell = Cell::new();

    let mut h = VfMsgHeader::new(VF_FAMILY_SGPU, VF_SGPU_CREATE_RESOURCE);
    h.request_id = 1;
    h.payload_offset = 0;
    h.payload_bytes = 8;
    h.message_bytes = VF_MSG_BYTES + 8;
    let req = SgpuFrame { header: h, payload: 256u64.to_le_bytes().to_vec() };
    let wire = req.to_wire();
    let back = SgpuFrame::from_wire(&wire).unwrap();
    let resp = cell.dispatch(&back, None).unwrap();
    let src = u64::from_le_bytes(resp.payload[0..8].try_into().unwrap());

    let mut h = VfMsgHeader::new(VF_FAMILY_SGPU, VF_SGPU_CREATE_RESOURCE);
    h.request_id = 2;
    h.payload_offset = 0;
    h.payload_bytes = 8;
    h.message_bytes = VF_MSG_BYTES + 8;
    let req = SgpuFrame { header: h, payload: 256u64.to_le_bytes().to_vec() };
    let resp = cell.dispatch(&req, None).unwrap();
    let dst = u64::from_le_bytes(resp.payload[0..8].try_into().unwrap());

    let source = cell.session.gpu_handle(src).unwrap();
    cell.device.buffers.insert(source, vec![0xAB; 256]);

    let list = SgpuCommandList { cmds: vec![SgpuCommand::CopyBuffer { src, dst, size: 256 }] };
    let mut req = request(VF_SGPU_SUBMIT_COMMAND_LIST, vec![1, 0, 0, 0]);
    req.header.request_id = 3;
    let resp = cell.dispatch(&req, Some(&list)).unwrap();
    assert_eq!(u32::from_le_bytes(resp.payload[0..4].try_into().unwrap()), 1);
    assert_eq!(resp.header.request_id, 3);

    let copied = cell.session.gpu_handle(dst).unwrap();
    assert!(cell.device.buffers[&copied].iter().all(|&b| b == 0xAB));
}

#[test]
fn present_without_backend_is_rejected() {
    let mut cell = Cell::new();
    let res = cell.create(64).unwrap();
    assert!(matches!(cell.present(res.sgp_handle), Err(SgpuError::Gpu(_))));
}

#[test]
fn unsupported_dispatch_has_no_success_frame_or_partial_copy() {
    let mut cell = Cell::new();
    assert!(!cell.session.query_caps(&cell.device.report).has_compute_shaders);
    let src = cell.create(4).unwrap();
    let dst = cell.create(4).unwrap();
    cell.device.buffers.insert(src.gpu_handle, vec![1, 2, 3, 4]);
    for unsupported in [
        SgpuCommand::ComputeDispatch { kernel_id: 7, grid: (1, 1, 1), block: (1, 1, 1) },
        colour([1.0; 4]),
        SgpuCommand::Present { buffer: dst.sgp_handle },
    ] {
        let list = SgpuCommandList {
            cmds: vec![
                SgpuCommand::CopyBuffer { src: src.sgp_handle, dst: dst.sgp_handle, size: 4 },
                unsupported,
            ],
        };
        let frame = request(VF_SGPU_SUBMIT_COMMAND_LIST, vec![2, 0, 0, 0]);
        let decoded = SgpuFrame::from_wire(&frame.to_wire()).unwrap();
        assert!(matches!(cell.dispatch(&decoded, Some(&list)), Err(SgpuError::Gpu(_))));
        assert_eq!(cell.device.buffers[&dst.gpu_handle], [0; 4]);
    }
}

#[test]
fn unknown_opcode_rejected() {
    let mut cell = Cell::new();
    let h = VfMsgHeader::new(VF_FAMILY_SGPU, 0xF0);
    let frame = SgpuFrame { header: h, payload: Vec::new() };
    assert!(cell.dispatch(&frame, None).is_err());
}

#[test]
fn unknown_resource_rejected() {
    let mut cell = Cell::new();
    let list = SgpuCommandList {
        cmds: vec![SgpuCommand::CopyBuffer { src: 99, dst: 100, size: 1 }],
    };
    assert!(matches!(cell.submit(&list), Err(SgpuError::ResourceNotFound(99))));
}

#[test]
fn caps_bytes_are_pinned_and_unknown_numbers_have_a_meaning() {
    let caps = SgpuCaps {
        vendor: GpuVendor::Intel,
        metal_version: MetalVersion::V3_0,
        vram_bytes: 0x0102_0304_0506_0708,
        max_threads_per_threadgroup: 0x0a0b_0c0d,
        has_compute_shaders: true,
        software_accelerated: false,
    };
    let mut expected = [0u8; 40];
    expected[0] = 2;
    expected[4] = 1;
    expected[8..16].copy_from_slice(&[8, 7, 6, 5, 4, 3, 2, 1]);
    expected[16..20].copy_from_slice(&[0x0d, 0x0c, 0x0b, 0x0a]);
    expected[20] = 1;
    assert_eq!(caps.encode(), expected);
    expected[0] = 200;
    expected[4] = 200;
    expected[24] = 9;
    let read = SgpuCaps::decode(&expected).unwrap();
    assert_eq!(read.vendor, GpuVendor::Unknown);
    assert_eq!(read.metal_version, MetalVersion::V3_2);
    assert!(read.software_accelerated);
    assert!(matches!(SgpuCaps::decode(&expected[..39]), Err(SgpuError::Payload)));
}

#[test]
fn frame_refusals_name_their_reason() {
    let valid = request(VF_SGPU_CREATE_RESOURCE, vec![0; 8]);
    let refusal = |change: fn(&mut SgpuFrame)| {
        let mut frame = valid.clone();
        change(&mut frame);
        frame.validate().unwrap_err()
    };
    assert!(valid.validate().is_ok());
    assert!(matches!(
        refusal(|f| f.header.magic = 0),
        SgpuError::Vf(VfError::Eabi("bad magic"))
    ));
    assert!(matches!(
        refusal(|f| f.header.family = VF_FAMILY_ROOT),
        SgpuError::Vf(VfError::Eabi("not an SGPU family frame"))
    ));
    assert!(matches!(
        refusal(|f| f.header.message_bytes = VF_MSG_BYTES + VF_PAYLOAD_MAX + 1),
        SgpuError::Vf(VfError::Erange)
    ));
    assert!(matches!(
        refusal(|f| f.header.payload_offset = 1),
        SgpuError::Vf(VfError::Erange)
    ));
    assert!(matches!(refusal(|f| f.payload.clear()), SgpuError::Payload));
}

#[test]
fn a_failed_reservation_is_a_resource_limit() {
    let frame = request(VF_SGPU_CREATE_RESOURCE, vec![7; 8]);
    assert!(matches!(frame.to_reserved_wire(None), Err(SgpuError::ResourceLimit)));
    let wire = frame.to_reserved_wire(Some(Vec::new())).unwrap();
    assert_eq!(wire, frame.to_wire());
    assert!(matches!(
        SgpuFrame::from_reserved_wire(&wire, None),
        Err(SgpuError::ResourceLimit)
    ));
    assert_eq!(SgpuFrame::from_reserved_wire(&wire, Some(Vec::new())).unwrap(), frame);
    assert!(matches!(
        SgpuFrame::from_reserved_wire(&wire[1..], None),
        Err(SgpuError::Vf(_))
    ));
    assert_eq!(frame.try_to_wire().unwrap().len(), 72);
    assert_eq!(&frame.try_to_wire().unwrap()[64..], [7; 8]);
}

#[test]
fn a_frame_without_a_payload_is_read() {
    let frame = request(VF_SGPU_QUERY_CAPS, Vec::new());
    let wire = frame.to_wire();
    assert_eq!(wire.len(), 64);
    assert_eq!(SgpuFrame::from_wire(&wire).unwrap(), frame);
}

#[test]
fn commands_are_translated_in_order_and_refused_whole() {
    let mut cell = Cell::new();
    let a = cell.create(16).unwrap();
    let b = cell.create(16).unwrap();
    cell.destroy(a.sgp_handle).unwrap();
    let c = cell.create(16).unwrap();
    assert_eq!((b.sgp_handle, c.sgp_handle), (2, 3));
    let list = SgpuCommandList {
        cmds: vec![
            colour([1.0, 0.5, 0.25, 0.0]),
            SgpuCommand::CopyBuffer { src: c.sgp_handle, dst: b.sgp_handle, size: 5 },
            SgpuCommand::ComputeDispatch { kernel_id: 7, grid: (64, 1, 1), block: (8, 8, 1) },
            SgpuCommand::Present { buffer: b.sgp_handle },
        ],
    };
    assert_eq!(
        cell.session.submit(&list).unwrap(),
        [
            GpuCommand::RenderClear { color: [0x3f80_0000, 0x3f00_0000, 0x3e80_0000, 0] },
            GpuCommand::CopyBuffer { src: c.gpu_handle, dst: b.gpu_handle, size: 5 },
            GpuCommand::ComputeKernel { kernel_id: 7, grid: (64, 1, 1), block: (8, 8, 1) },
            GpuCommand::PresentSwapchain { buffer: b.gpu_handle },
        ]
    );
    let mut stale = list.clone();
    stale.cmds.push(SgpuCommand::Present { buffer: a.sgp_handle });
    assert!(matches!(
        cell.session.submit(&stale),
        Err(SgpuError::ResourceNotFound(1))
    ));
    let short = SgpuSession::new(3);
    assert!(matches!(short.submit(&list), Err(SgpuError::Payload)));
}

#[test]
fn a_failed_free_is_reported_and_the_resource_stays_gone() {
    let mut cell = Cell::new();
    let resource = cell.create(8).unwrap();
    cell.device.buffers.clear();
    let frame = request(VF_SGPU_DESTROY_RESOURCE, resource.sgp_handle.to_le_bytes().to_vec());
    assert!(matches!(cell.dispatch(&frame, None), Err(SgpuError::Gpu(_))));
    assert!(matches!(
        cell.dispatch(&frame, None),
        Err(SgpuError::ResourceNotFound(1))
    ));
    let other = cell.create(8).unwrap();
    let frame = request(VF_SGPU_DESTROY_RESOURCE, other.sgp_handle.to_le_bytes().to_vec());
    let reply = cell.dispatch(&frame, None).unwrap();
    assert_eq!(reply.header.opcode, VF_SGPU_DESTROY_RESOURCE);
    assert!(reply.payload.is_empty() && reply.validate().is_ok());
}

#[test]
fn a_presented_buffer_is_answered_when_the_device_can() {
    let mut session = SgpuSession::new(1);
    let admitted = session.create_resource(8).unwrap();
    let made = session.adopt_buffer(admitted, GpuBuffer { handle: 77, size: 8 });
    let frame = request(VF_SGPU_PRESENT, made.sgp_handle.to_le_bytes().to_vec());
    assert_eq!(
        session.dispatch(&frame).unwrap(),
        SgpuAction::Run(vec![GpuCommand::PresentSwapchain { buffer: 77 }])
    );
    let reply = session.finish_present(&frame, Ok(())).unwrap();
    assert_eq!(reply.header.opcode, VF_SGPU_PRESENT);
    assert!(matches!(
        session.finish_present(&frame, Err("lost".into())),
        Err(SgpuError::Gpu(reason)) if reason == "lost"
    ));
}

#[test]
fn envelope_errors_become_session_errors() {
    assert!(matches!(SgpuError::from(VfError::Ebusy), SgpuError::Vf(VfError::Ebusy)));
}
