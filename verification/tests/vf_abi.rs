use nextcore_apls::vf_abi::{
    VfError, VfMsgHeader, VF_FAMILY_BLOCK, VF_FAMILY_ROOT, VF_FAMILY_SGPU, VF_MSG_BYTES,
    VF_MSG_MAGIC, VF_OP_GRANT_CREATE, VF_PAYLOAD_MAX, VF_SGPU_CREATE_RESOURCE, VF_SGPU_QUERY_CAPS,
    VF_SGPU_SUBMIT_COMMAND_LIST,
};

fn blank() -> VfMsgHeader {
    VfMsgHeader {
        magic: 0,
        abi_major: 0,
        header_bytes: 0,
        message_bytes: 0,
        family: 0,
        opcode: 0,
        request_id: 0,
        object: 0,
        payload_grant: 0,
        payload_offset: 0,
        payload_bytes: 0,
        flags: 0,
        reserved0: 0,
    }
}

/// Where the only nonzero bytes of an envelope start.
fn first_byte(header: VfMsgHeader) -> usize {
    header.encode().iter().position(|b| *b != 0).unwrap()
}

#[test]
fn layout_matches_vf_abi_header_offsets() {
    assert_eq!(first_byte(VfMsgHeader { magic: u32::MAX, ..blank() }), 0);
    assert_eq!(first_byte(VfMsgHeader { abi_major: u16::MAX, ..blank() }), 4);
    assert_eq!(first_byte(VfMsgHeader { header_bytes: u16::MAX, ..blank() }), 6);
    assert_eq!(first_byte(VfMsgHeader { message_bytes: u32::MAX, ..blank() }), 8);
    assert_eq!(first_byte(VfMsgHeader { family: u16::MAX, ..blank() }), 12);
    assert_eq!(first_byte(VfMsgHeader { opcode: u16::MAX, ..blank() }), 14);
    assert_eq!(first_byte(VfMsgHeader { request_id: u64::MAX, ..blank() }), 16);
    assert_eq!(first_byte(VfMsgHeader { object: u64::MAX, ..blank() }), 24);
    assert_eq!(first_byte(VfMsgHeader { payload_grant: u64::MAX, ..blank() }), 32);
    assert_eq!(first_byte(VfMsgHeader { payload_offset: u64::MAX, ..blank() }), 40);
    assert_eq!(first_byte(VfMsgHeader { payload_bytes: u32::MAX, ..blank() }), 48);
    assert_eq!(first_byte(VfMsgHeader { flags: u32::MAX, ..blank() }), 52);
    assert_eq!(first_byte(VfMsgHeader { reserved0: u64::MAX, ..blank() }), 56);
    assert_eq!(blank().encode().len(), 64);
    assert_eq!(core::mem::size_of::<VfMsgHeader>(), 64);
}

#[test]
fn roundtrip() {
    let mut h = VfMsgHeader::new(VF_FAMILY_SGPU, VF_SGPU_SUBMIT_COMMAND_LIST);
    h.request_id = 0x1234;
    h.payload_bytes = 16;
    let bytes = h.encode();
    let back = VfMsgHeader::decode(&bytes).unwrap();
    assert_eq!(h, back);
}

#[test]
fn decode_rejects_wrong_size() {
    assert!(VfMsgHeader::decode(&[0u8; 63]).is_err());
    assert!(VfMsgHeader::decode(&[0u8; 65]).is_err());
    assert_eq!(VfMsgHeader::decode(&[]), Err(VfError::Erange));
}

#[test]
fn validate_shape_rejects_bad_magic() {
    let mut h = VfMsgHeader::new(VF_FAMILY_ROOT, VF_OP_GRANT_CREATE);
    h.magic = 0;
    assert!(matches!(h.validate_shape(), Err(VfError::Eabi(_))));
}

#[test]
fn validate_shape_rejects_bad_family() {
    let mut h = VfMsgHeader::new(VF_FAMILY_ROOT, VF_OP_GRANT_CREATE);
    h.family = 0xF00D;
    assert!(h.validate_shape().is_err());
}

#[test]
fn payload_bounds_checked() {
    let mut h = VfMsgHeader::new(VF_FAMILY_SGPU, VF_SGPU_CREATE_RESOURCE);
    h.message_bytes = 128;
    h.payload_offset = 0;
    h.payload_bytes = 16;
    assert_eq!(h.payload_end().unwrap(), 16);

    // Payload may not overrun the message region after the header.
    h.payload_offset = 64;
    assert!(h.payload_end().is_err());

    h.payload_offset = 0;
    h.payload_bytes = VF_PAYLOAD_MAX + 1;
    assert!(h.validate_shape().is_err());
}

#[test]
fn encode_uses_little_endian() {
    let mut h = VfMsgHeader::new(VF_FAMILY_SGPU, VF_SGPU_QUERY_CAPS);
    h.request_id = 1;
    h.object = 2;
    let bytes = h.encode();
    assert_eq!(u32::from_le_bytes(bytes[0..4].try_into().unwrap()), VF_MSG_MAGIC);
    assert_eq!(u16::from_le_bytes(bytes[12..14].try_into().unwrap()), VF_FAMILY_SGPU);
    assert_eq!(u64::from_le_bytes(bytes[16..24].try_into().unwrap()), 1);
    assert_eq!(u64::from_le_bytes(bytes[24..32].try_into().unwrap()), 2);
}

#[test]
fn every_shape_refusal_has_its_own_reason() {
    let good = VfMsgHeader::new(VF_FAMILY_BLOCK, 1);
    assert_eq!(good.validate_shape(), Ok(()));
    let cases = [
        (VfMsgHeader { magic: 1, ..good }, VfError::Eabi("bad magic")),
        (VfMsgHeader { abi_major: 9, ..good }, VfError::Eabi("unsupported abi major")),
        (VfMsgHeader { header_bytes: 63, ..good }, VfError::Eabi("bad header size")),
        (VfMsgHeader { message_bytes: 63, ..good }, VfError::Eabi("message smaller than header")),
        (VfMsgHeader { payload_bytes: VF_PAYLOAD_MAX + 1, ..good }, VfError::Erange),
        (VfMsgHeader { family: 0xF00D, ..good }, VfError::Eabi("unknown family")),
    ];
    for (header, reason) in cases {
        assert_eq!(header.validate_shape(), Err(reason));
    }
}

#[test]
fn payload_end_refuses_overflow_and_short_messages() {
    let good = VfMsgHeader::new(VF_FAMILY_SGPU, 1);
    let overflow = VfMsgHeader { payload_offset: u64::MAX, payload_bytes: 1, ..good };
    assert_eq!(overflow.payload_end(), Err(VfError::Erange));
    let short = VfMsgHeader { message_bytes: VF_MSG_BYTES - 1, ..good };
    assert_eq!(short.payload_end(), Err(VfError::Eabi("bad message size")));
    assert_eq!(VfMsgHeader::default(), VfMsgHeader::new(0, 0));
    assert_eq!(VfMsgHeader::SIZE, 64);
}

#[test]
fn any_sixty_four_bytes_decode_and_encode_back() {
    let mut bytes = [0u8; 64];
    for (i, byte) in bytes.iter_mut().enumerate() {
        *byte = (i * 37 + 11) as u8;
    }
    assert_eq!(VfMsgHeader::decode(&bytes).unwrap().encode(), bytes);
}
