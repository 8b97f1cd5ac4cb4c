use nextcore_apls::sgpu::{SgpuError, SgpuFrame};
use nextcore_apls::sgpu_grant::{
    decode_grant_header, inline_to_grant, validate_grant_header, validate_payload_grant,
    GrantError, GrantSubmitError, SgpuGrantSession, SgpuSubmissionError, VfCapEntry, VfGrantEntry,
    VfGrantSnapshot, VF_CAP_LIVE, VF_GRANT_LIVE, VF_OBJECT_GRANT, VF_POLICY_TABLE_MAX,
    VF_RIGHT_READ, VF_RIGHT_WRITE,
};
use nextcore_apls::vf_abi::{
    VfMsgHeader, VF_FAMILY_SGPU, VF_PAYLOAD_MAX, VF_SGPU_SUBMIT_COMMAND_LIST,
};

const CELL: u32 = 42;
const ENDPOINT: u64 = 0x1122_3344_0000_0005;
const HANDLE: u64 = 0xaabb_ccdd_0000_0007;

/// A toy executor: each payload byte past the four-byte count is a command;
/// zero copies, one is refused before anything runs, two fails when reached.
#[derive(Debug)]
struct Executor {
    copies: usize,
}

impl Executor {
    fn submit_wire(&mut self, payload: &[u8]) -> Result<usize, SgpuSubmissionError> {
        let refused = |completed: usize, command_index: Option<usize>| SgpuSubmissionError {
            completed,
            command_index,
            reason: "backend unavailable".to_string(),
        };
        let commands = payload.get(4..).ok_or_else(|| refused(0, None))?;
        if commands.contains(&1) {
            return Err(refused(0, None));
        }
        for (index, command) in commands.iter().enumerate() {
            if *command == 2 {
                return Err(refused(index, Some(index)));
            }
            self.copies += 1;
        }
        Ok(commands.len())
    }
}

fn grant() -> VfGrantEntry {
    VfGrantEntry {
        cap: VfCapEntry {
            slot: 7,
            generation: 0xaabb_ccdd,
            holder_cell: CELL,
            object_type: VF_OBJECT_GRANT,
            rights: VF_RIGHT_READ,
            state: VF_CAP_LIVE,
            object_id: 0x9988_7766_5544_3322,
            valid_from: 10,
            expires_at: 20,
        },
        bytes: 1024,
        owner_cell: 11,
        state: VF_GRANT_LIVE,
    }
}

fn header(len: usize) -> VfMsgHeader {
    let mut h = VfMsgHeader::new(VF_FAMILY_SGPU, VF_SGPU_SUBMIT_COMMAND_LIST);
    h.request_id = 0xfedc_ba98_7654_3210;
    h.object = ENDPOINT;
    h.payload_grant = HANDLE;
    h.payload_offset = 8;
    h.payload_bytes = len as u32;
    h
}

fn session() -> SgpuGrantSession<Executor> {
    SgpuGrantSession::new(Executor { copies: 0 }, CELL, ENDPOINT).unwrap()
}

/// Admits a message and has it run.
fn submit(
    session: &mut SgpuGrantSession<Executor>,
    header: &[u8],
    views: &[VfGrantSnapshot<'_>],
    caller: u32,
    now: u64,
) -> Result<usize, GrantSubmitError> {
    let payload = session.submit(header, views, caller, now)?;
    let ran = session.compute_mut().submit_wire(payload);
    session.finish_submit(ran)
}

fn policy(h: &VfMsgHeader, entries: &[VfGrantEntry], caller: u32, rights: u32, now: u64) -> i32 {
    let views: Vec<VfGrantSnapshot> = entries
        .iter()
        .map(|entry| VfGrantSnapshot { entry, snapshot_offset: 0, data: &[] })
        .collect();
    match validate_payload_grant(h, &views, caller, rights, now) {
        Ok(_) => 0,
        Err(error) => error.status(),
    }
}

#[test]
fn strict_header_profile_and_copy_in() {
    let h = header(4);
    let mut unaligned = vec![99];
    unaligned.extend(h.encode());
    assert_eq!(decode_grant_header(&unaligned[1..]).unwrap(), h);
    for size in 0..64 {
        assert_eq!(decode_grant_header(&unaligned[..size]), Err(GrantError::Eabi));
    }
    assert_eq!(decode_grant_header(&unaligned), Err(GrantError::Eabi));
    for (h, expected) in [
        (VfMsgHeader { message_bytes: 68, ..h }, GrantError::Eabi),
        (VfMsgHeader { flags: 1, ..h }, GrantError::Einval),
        (VfMsgHeader { reserved0: 1, ..h }, GrantError::Eabi),
        (VfMsgHeader { opcode: 8, ..h }, GrantError::Enotsup),
        (VfMsgHeader { payload_offset: 1, ..h }, GrantError::Einval),
        (
            VfMsgHeader { payload_offset: u64::MAX - 7, payload_bytes: 8, ..h },
            GrantError::Erange,
        ),
        (VfMsgHeader { payload_bytes: VF_PAYLOAD_MAX + 1, ..h }, GrantError::Erange),
        (VfMsgHeader { payload_bytes: 0, ..h }, GrantError::Einval),
    ] {
        assert_eq!(validate_grant_header(&h), Err(expected));
    }
}

#[test]
fn policy_generation_rights_validity_duplicates_and_range() {
    let h = header(4);
    let g = grant();
    assert_eq!(policy(&h, &[g], CELL, VF_RIGHT_READ, 10), 0);
    for now in [0, 9, 20, u64::MAX] {
        assert_eq!(policy(&h, &[g], CELL, VF_RIGHT_READ, now), -4);
    }
    assert_eq!(policy(&h, &[g], CELL, VF_RIGHT_WRITE, 15), -5);
    assert_eq!(policy(&h, &[g], CELL + 1, VF_RIGHT_READ, 15), -4);
    assert_eq!(policy(&h, &[g, g], CELL, VF_RIGHT_READ, 15), -9);
    assert_eq!(
        policy(&h, &vec![g; VF_POLICY_TABLE_MAX + 1], CELL, VF_RIGHT_READ, 15),
        -1
    );
    assert_eq!(policy(&h, &[g], 0, VF_RIGHT_READ, 15), -1);
    for rights in [0, 4, 8, 255] {
        assert_eq!(policy(&h, &[g], CELL, rights, 15), -1);
    }
    for (field, want) in [(0, -4), (1, -4), (2, -5), (3, -5), (4, -4), (5, -4), (6, -6)] {
        let mut changed = g;
        match field {
            0 => changed.cap.generation += 1,
            1 => changed.cap.state = 2,
            2 => changed.cap.object_id = 0,
            3 => changed.cap.rights |= 256,
            4 => changed.state = 2,
            5 => changed.owner_cell = 0,
            _ => changed.bytes = 11,
        }
        assert_eq!(policy(&h, &[changed], CELL, VF_RIGHT_READ, 15), want);
    }
    // Owner and holder are distinct; delegated READ is valid without owner==caller.
    assert_ne!(g.owner_cell, CELL);
}

#[test]
fn inline_grant_conversion_normalizes_only_data_and_rechecks_revocation() {
    let payload = 0u32.to_le_bytes().to_vec();
    let mut inline_header = header(4);
    inline_header.message_bytes = 76;
    let frame = SgpuFrame { header: inline_header, payload };
    let (wire, bytes) = inline_to_grant(&frame, HANDLE, 8).unwrap();
    let mut g = grant();
    let session = session();
    {
        let views = [VfGrantSnapshot { entry: &g, snapshot_offset: 8, data: bytes }];
        let normalized = session.to_inline(&wire, &views, CELL, 15).unwrap();
        assert_eq!(normalized.payload, frame.payload);
        assert_eq!(normalized.header.message_bytes, 68);
        assert_eq!(normalized.header.payload_offset, 0);
        assert_eq!(normalized.header.payload_grant, 0);
        assert_eq!(normalized.header.request_id, frame.header.request_id);
        assert_eq!(
            SgpuFrame::from_wire(&normalized.try_to_wire().unwrap()).unwrap(),
            normalized
        );
        assert!(session.to_inline(&normalized.header.encode(), &views, CELL, 15).is_err());
    }
    g.state = 2;
    g.cap.state = 2;
    let views = [VfGrantSnapshot { entry: &g, snapshot_offset: 8, data: bytes }];
    assert!(matches!(
        session.to_inline(&wire, &views, CELL, 15),
        Err(GrantSubmitError::Grant(GrantError::Estale))
    ));
}

#[test]
fn snapshot_ranges_route_and_supported_opcode_are_checked_before_execution() {
    let bytes = [0, 0, 0, 0];
    let g = grant();
    let h = header(4);
    let mut session = session();
    for (offset, data) in [
        (9, bytes.as_slice()),
        (8, &bytes[..3]),
        (u64::MAX, bytes.as_slice()),
        (1022, bytes.as_slice()),
    ] {
        let views = [VfGrantSnapshot { entry: &g, snapshot_offset: offset, data }];
        assert!(matches!(
            submit(&mut session, &h.encode(), &views, CELL, 15),
            Err(GrantSubmitError::Grant(GrantError::Erange))
        ));
    }
    let views = [VfGrantSnapshot { entry: &g, snapshot_offset: 8, data: &bytes }];
    assert!(matches!(
        submit(&mut session, &h.encode(), &views, CELL + 1, 15),
        Err(GrantSubmitError::Grant(GrantError::Eperm))
    ));
    let wrong = VfMsgHeader { object: ENDPOINT + 1, ..h };
    assert!(matches!(
        submit(&mut session, &wrong.encode(), &views, CELL, 15),
        Err(GrantSubmitError::Grant(GrantError::Eperm))
    ));
    for opcode in [1, 2, 3, 4, 6, 7] {
        let wrong = VfMsgHeader { opcode, ..h };
        assert!(matches!(
            submit(&mut session, &wrong.encode(), &views, CELL, 15),
            Err(GrantSubmitError::Grant(GrantError::Enotsup))
        ));
    }
    assert_eq!(submit(&mut session, &h.encode(), &views, CELL, 15).unwrap(), 0);
}

#[test]
fn grant_to_existing_executor_copy_and_atomic_preflight() {
    let mut session = session();
    let g = grant();
    for unsupported in [true, false] {
        let mut bytes = vec![1, 0, 0, 0, 0];
        if unsupported {
            bytes.push(1);
        }
        let h = header(bytes.len());
        let views = [VfGrantSnapshot { entry: &g, snapshot_offset: 8, data: &bytes }];
        let result = submit(&mut session, &h.encode(), &views, CELL, 15);
        if unsupported {
            assert!(matches!(result, Err(GrantSubmitError::Submission(ref e)) if e.completed == 0));
            assert_eq!(session.compute().copies, 0);
        } else {
            assert_eq!(result.unwrap(), 1);
            assert_eq!(session.compute().copies, 1);
        }
    }
    assert_eq!(session.into_compute().copies, 1);
}

#[test]
fn backend_failure_retains_only_completed_prefix_through_grant_adapter() {
    let payload = vec![3, 0, 0, 0, 0, 2, 0];
    let mut session = session();
    let g = grant();
    let views = [VfGrantSnapshot { entry: &g, snapshot_offset: 8, data: &payload }];
    let error =
        submit(&mut session, &header(payload.len()).encode(), &views, CELL, 15).unwrap_err();
    assert!(matches!(
        error,
        GrantSubmitError::Submission(ref e) if e.completed == 1 && e.command_index == Some(1)
    ));
    assert_eq!(session.compute().copies, 1);
}

#[test]
fn statuses_are_those_of_the_c_interface() {
    for (error, status) in [
        (GrantError::Einval, -1),
        (GrantError::Eabi, -2),
        (GrantError::Enotsup, -3),
        (GrantError::Estale, -4),
        (GrantError::Eperm, -5),
        (GrantError::Erange, -6),
        (GrantError::Eambig, -9),
    ] {
        assert_eq!(error.status(), status);
    }
}

#[test]
fn a_route_needs_a_cell_and_a_whole_endpoint_handle() {
    for (cell, endpoint) in [(0, ENDPOINT), (CELL, 5), (CELL, 0x1122_3344_0000_0000), (CELL, 0)] {
        assert!(matches!(
            SgpuGrantSession::new((), cell, endpoint),
            Err(GrantError::Einval)
        ));
    }
    assert!(SgpuGrantSession::new((), CELL, ENDPOINT).is_ok());
}

#[test]
fn opcodes_are_known_by_family() {
    for (family, last) in [(1u16, 9u16), (2, 3), (3, 7)] {
        for opcode in 0..12 {
            let mut h = VfMsgHeader::new(family, opcode);
            h.payload_bytes = 0;
            let expected = if opcode >= 1 && opcode <= last {
                Ok(())
            } else {
                Err(GrantError::Enotsup)
            };
            assert_eq!(validate_grant_header(&h), expected, "family {family} opcode {opcode}");
        }
    }
    assert_eq!(validate_grant_header(&VfMsgHeader::new(9, 1)), Err(GrantError::Enotsup));
}

#[test]
fn the_named_range_of_the_object_is_read() {
    let object: Vec<u8> = (0..64).collect();
    let g = VfGrantEntry { bytes: 64, ..grant() };
    let mut h = header(4);
    h.payload_offset = 16;
    let views = [VfGrantSnapshot { entry: &g, snapshot_offset: 10, data: &object[10..30] }];
    let session = session();
    assert_eq!(session.submit(&h.encode(), &views, CELL, 15).unwrap(), [16, 17, 18, 19]);
    let (admitted, payload) = session.authorize(&h.encode(), &views, CELL, 15).unwrap();
    assert_eq!((admitted, payload), (h, &object[16..20]));
}

#[test]
fn a_message_without_a_payload_needs_no_grant() {
    let mut h = header(0);
    h.payload_grant = 0;
    h.payload_offset = 0;
    assert!(session().submit(&h.encode(), &[], CELL, 15).unwrap().is_empty());
    let mut unnamed = header(4);
    unnamed.payload_grant = 0;
    assert!(matches!(
        session().submit(&unnamed.encode(), &[], CELL, 15),
        Err(GrantSubmitError::Grant(GrantError::Einval))
    ));
}

#[test]
fn a_message_without_a_payload_becomes_a_frame_without_one() {
    let mut h = header(0);
    h.payload_grant = 0;
    h.payload_offset = 0;
    let frame = session().to_inline(&h.encode(), &[], CELL, 15).unwrap();
    assert_eq!(frame.header, h);
    assert!(frame.payload.is_empty());
}

#[test]
fn admission_depends_on_the_callers_own_grants_alone() {
    let own = grant();
    let mut spare = grant();
    spare.cap.slot = 8;
    let mut foreign = grant();
    foreign.cap.holder_cell = CELL + 1;
    let mut dead = foreign;
    dead.cap.state = 0;
    let h = header(4);
    let bytes = [1, 2, 3, 4];
    let plain = |entry| VfGrantSnapshot { entry, snapshot_offset: 0, data: &[] };
    let filled = |entry| VfGrantSnapshot { entry, snapshot_offset: 8, data: &bytes };
    for table in [
        vec![plain(&own), plain(&spare)],
        vec![plain(&spare), plain(&own)],
        vec![plain(&foreign), plain(&spare), plain(&own)],
        vec![plain(&spare), plain(&dead), plain(&own), plain(&foreign)],
        vec![filled(&own), filled(&spare)],
    ] {
        let found = validate_payload_grant(&h, &table, CELL, VF_RIGHT_READ, 15).unwrap().unwrap();
        assert_eq!(*found.entry, own);
    }
    for table in [
        vec![plain(&own), plain(&spare), plain(&own)],
        vec![filled(&own), plain(&own), plain(&foreign)],
    ] {
        assert_eq!(
            validate_payload_grant(&h, &table, CELL, VF_RIGHT_READ, 15).err(),
            Some(GrantError::Eambig)
        );
    }
}

#[test]
fn conversion_errors_come_from_the_frame_first() {
    let mut frame = SgpuFrame { header: header(4), payload: vec![0; 3] };
    frame.header.message_bytes = 76;
    assert!(matches!(
        inline_to_grant(&frame, HANDLE, 8),
        Err(GrantSubmitError::Inline(SgpuError::Payload))
    ));
    frame.payload.push(0);
    assert!(matches!(
        inline_to_grant(&frame, HANDLE, 9),
        Err(GrantSubmitError::Grant(GrantError::Einval))
    ));
    let (wire, payload) = inline_to_grant(&frame, HANDLE, 16).unwrap();
    let granted = decode_grant_header(&wire).unwrap();
    assert_eq!(granted.payload_offset, 16);
    assert_eq!(granted.payload_grant, HANDLE);
    assert_eq!(payload, frame.payload.as_slice());
}

#[test]
fn a_failed_copy_is_a_resource_limit() {
    let bytes = [5, 6, 7, 8];
    let g = grant();
    let views = [VfGrantSnapshot { entry: &g, snapshot_offset: 8, data: &bytes }];
    let wire = header(4).encode();
    assert!(matches!(
        session().to_reserved_inline(&wire, &views, CELL, 15, None),
        Err(GrantSubmitError::Inline(SgpuError::ResourceLimit))
    ));
    let frame = session().to_reserved_inline(&wire, &views, CELL, 15, Some(Vec::new())).unwrap();
    assert_eq!(frame.payload, bytes);
}

#[test]
fn refusals_become_submission_errors() {
    assert!(matches!(
        GrantSubmitError::from(GrantError::Eperm),
        GrantSubmitError::Grant(GrantError::Eperm)
    ));
    assert!(matches!(
        GrantSubmitError::from(SgpuError::Payload),
        GrantSubmitError::Inline(SgpuError::Payload)
    ));
    let failed =
        SgpuSubmissionError { completed: 3, command_index: None, reason: "lost".to_string() };
    assert!(matches!(
        GrantSubmitError::from(failed),
        GrantSubmitError::Submission(e) if e.completed == 3
    ));
}
