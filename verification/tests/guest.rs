use nextcore_apls::guest::{
    current_backend, AppleVirtualizationBackend, GuestError, GuestLaunchPlan, GuestSpec,
    HostBackend, UnsupportedBackend, VirtualizationBackend, XstateDomain,
};
use nextcore_apls::mode::{detect, probe, AplsMode};

#[test]
fn spec_validation() {
    assert!(GuestSpec { cpu_count: 0, memory_bytes: 1 << 30 }.validate().is_err());
    assert!(GuestSpec { cpu_count: 2, memory_bytes: 64 << 20 }.validate().is_err());
    assert!(GuestSpec { cpu_count: 2, memory_bytes: 1 << 30 }.validate().is_ok());
    assert!(GuestSpec { cpu_count: 300, memory_bytes: 1 << 30 }.validate().is_err());
}

#[test]
fn launch_plan_roundtrip() {
    let spec = GuestSpec { cpu_count: 8, memory_bytes: 8192 << 20 };
    let mut plan = GuestLaunchPlan::new(spec, "synthetic-boot.dmg".into()).unwrap();
    plan.smbios("product_name".into(), "Mac16,1".into());
    plan.map_device(0x106B, 0x1E00, 0x10000);
    let encoded = plan.encode();
    let back = GuestLaunchPlan::decode(&encoded).unwrap();
    assert_eq!(plan, back);
}

#[test]
fn iso_boot_disk_rejected() {
    let spec = GuestSpec { cpu_count: 4, memory_bytes: 1 << 30 };
    assert!(GuestLaunchPlan::new(spec, String::new()).is_err());
}

#[test]
fn launch_plan_decode_rejects_truncation() {
    let spec = GuestSpec { cpu_count: 4, memory_bytes: 1 << 30 };
    let plan = GuestLaunchPlan::new(spec, "synthetic-boot.dmg".into()).unwrap();
    let encoded = plan.encode();
    assert!(GuestLaunchPlan::decode(&encoded[..encoded.len() - 1]).is_err());
}

#[test]
fn xstate_domain_floor() {
    let floor = XstateDomain::from_xcr0(XstateDomain::XCR0_SSE4_2_FLOOR);
    assert!(floor.has_floored_state());
    assert!(!floor.has_avx_state());
    let avx = XstateDomain::from_xcr0(XstateDomain::XCR0_SSE4_2_FLOOR | XstateDomain::XCR0_AVX);
    assert!(avx.has_avx_state());
    let below = XstateDomain::from_xcr0(XstateDomain::XCR0_X87);
    assert!(!below.has_floored_state());
    assert_eq!(avx.ise_gpr_saved_count(), 16);
}

#[test]
fn unsupported_backend_fails_closed() {
    let backend = UnsupportedBackend;
    assert!(!backend.available());
    let spec = GuestSpec { cpu_count: 4, memory_bytes: 1 << 30 };
    let plan = GuestLaunchPlan::new(spec, "synthetic-boot.dmg".into()).unwrap();
    assert!(matches!(backend.launch(&plan), Err(GuestError::UnsupportedHost(_))));
}

#[test]
fn xstate_bits_are_the_architectural_ones() {
    assert_eq!(XstateDomain::XCR0_X87, 1 << 0);
    assert_eq!(XstateDomain::XCR0_SSE, 1 << 1);
    assert_eq!(XstateDomain::XCR0_AVX, 1 << 2);
    assert_eq!(
        XstateDomain::XCR0_SSE4_2_FLOOR,
        XstateDomain::XCR0_X87 | XstateDomain::XCR0_SSE
    );
    assert!(!XstateDomain::from_xcr0(XstateDomain::XCR0_SSE).has_floored_state());
    assert!(XstateDomain::from_xcr0(u64::MAX).has_floored_state());
    assert!(!XstateDomain::from_xcr0(u64::MAX - 4).has_avx_state());
}

#[test]
fn spec_refusals_name_the_bound() {
    let refusal = |cpu_count: u32, memory_bytes: u64| {
        GuestSpec { cpu_count, memory_bytes }.validate()
    };
    assert_eq!(refusal(0, 0), Err(GuestError::InvalidSpec("cpu_count out of range")));
    assert_eq!(refusal(256, 1 << 30), Err(GuestError::InvalidSpec("cpu_count out of range")));
    assert_eq!(
        refusal(255, (128 << 20) - 1),
        Err(GuestError::InvalidSpec("memory below 128 MiB"))
    );
    assert_eq!(refusal(255, 128 << 20), Ok(()));
}

fn sample() -> GuestLaunchPlan {
    let spec = GuestSpec { cpu_count: 2, memory_bytes: 1 << 30 };
    let mut plan = GuestLaunchPlan::new(spec, "disk-é".into()).unwrap();
    plan.smbios("a".into(), "".into()).smbios("".into(), "b".into());
    plan.map_device(1, 2, 3).map_device(u32::MAX, 0, u64::MAX);
    plan
}

#[test]
fn launch_plan_bytes_are_pinned() {
    let spec = GuestSpec { cpu_count: 2, memory_bytes: 1 << 30 };
    let mut plan = GuestLaunchPlan::new(spec, "d".into()).unwrap();
    plan.smbios("k".into(), "vw".into());
    plan.map_device(0x106B, 0x1E00, 0x10000);
    let expected: Vec<u8> = vec![
        2, 0, 0, 0, 0, 0, 0, 0x40, 0, 0, 0, 0, 1, 0, 0, 0, b'd', 1, 0, 0, 0, 1, 0, 0, 0, b'k', 2, 0,
        0, 0, b'v', b'w', 1, 0, 0, 0, 0x6B, 0x10, 0, 0, 0, 0x1E, 0, 0, 0, 0, 1, 0, 0, 0, 0, 0,
    ];
    assert_eq!(plan.encode(), expected);
}

#[test]
fn every_truncation_and_any_trailing_byte_of_a_plan_is_rejected() {
    let wire = sample().encode();
    assert_eq!(GuestLaunchPlan::decode(&wire), Ok(sample()));
    assert_eq!(GuestLaunchPlan::decode(&wire).unwrap().encode(), wire);
    for length in 0..wire.len() {
        assert_eq!(
            GuestLaunchPlan::decode(&wire[..length]),
            Err(GuestError::InvalidSpec("truncated plan")),
            "length {length}"
        );
    }
    let mut longer = wire.clone();
    longer.push(0);
    assert_eq!(
        GuestLaunchPlan::decode(&longer),
        Err(GuestError::InvalidSpec("trailing bytes"))
    );
    assert_eq!(GuestLaunchPlan::decode(&[]), Err(GuestError::InvalidSpec("truncated plan")));
}

#[test]
fn plan_texts_must_be_utf8() {
    let wire = sample().encode();
    // The disk's name starts behind the guest size and its own length.
    let mut disk = wire.clone();
    disk[16] = 0xFF;
    assert_eq!(
        GuestLaunchPlan::decode(&disk),
        Err(GuestError::InvalidSpec("boot disk not utf-8"))
    );
    let key_at = wire.iter().position(|b| *b == b'a').unwrap();
    let mut key = wire.clone();
    key[key_at] = 0xFF;
    assert_eq!(
        GuestLaunchPlan::decode(&key),
        Err(GuestError::InvalidSpec("smbios key not utf-8"))
    );
    let value_at = wire.iter().position(|b| *b == b'b').unwrap();
    let mut value = wire.clone();
    value[value_at] = 0xFF;
    assert_eq!(
        GuestLaunchPlan::decode(&value),
        Err(GuestError::InvalidSpec("smbios value not utf-8"))
    );
}

#[test]
fn plan_refuses_an_invalid_size_and_an_empty_disk() {
    let mut wire = sample().encode();
    wire[0] = 0;
    assert_eq!(
        GuestLaunchPlan::decode(&wire),
        Err(GuestError::InvalidSpec("cpu_count out of range"))
    );
    let mut empty: Vec<u8> = vec![1, 0, 0, 0, 0, 0, 0, 0x40, 0, 0, 0, 0];
    empty.extend([0u8; 12]);
    assert_eq!(
        GuestLaunchPlan::decode(&empty),
        Err(GuestError::InvalidSpec("empty boot disk"))
    );
    let mut huge = sample().encode();
    huge[12..16].copy_from_slice(&u32::MAX.to_le_bytes());
    assert_eq!(GuestLaunchPlan::decode(&huge), Err(GuestError::InvalidSpec("truncated plan")));
}

#[test]
fn framework_probe_decides_the_backend() {
    assert!(matches!(
        AppleVirtualizationBackend::probe(None::<u8>, true),
        Err(GuestError::BackendUnavailable)
    ));
    assert!(matches!(
        AppleVirtualizationBackend::probe(Some(1u8), false),
        Err(GuestError::FrameworkSymbol("VZVirtualMachineConfiguration"))
    ));
    let failed = current_backend(AppleVirtualizationBackend::probe(None::<u8>, false));
    assert!(matches!(failed, HostBackend::Unsupported(_)));
    assert_eq!(failed.name(), "unsupported");
    assert!(!failed.available());
    assert_eq!(failed.pause(), Err(GuestError::BackendUnavailable));
    assert_eq!(failed.resume(), Err(GuestError::BackendUnavailable));
    let apple = current_backend(AppleVirtualizationBackend::probe(Some(1u8), true));
    assert_eq!(apple.name(), "apple-virtualization");
    assert!(apple.available());
    assert!(matches!(apple.pause(), Err(GuestError::AbiPending(_))));
    assert!(matches!(apple.resume(), Err(GuestError::AbiPending(_))));
}

#[test]
fn no_backend_reports_a_started_guest() {
    let plan = sample();
    let mut invalid = sample();
    invalid.spec.cpu_count = 0;
    let apple = current_backend(AppleVirtualizationBackend::probe(Some(()), true));
    assert!(matches!(apple.launch(&plan), Err(GuestError::AbiPending(_))));
    assert!(matches!(apple.launch(&invalid), Err(GuestError::InvalidSpec(_))));
    let other = current_backend(AppleVirtualizationBackend::probe(None::<()>, true));
    assert!(matches!(other.launch(&plan), Err(GuestError::UnsupportedHost(_))));
}

#[test]
fn detect_is_environment_consistent() {
    assert_eq!(detect(true), AplsMode::AppleSiliconSandbox);
    assert_eq!(detect(false), AplsMode::NativeEfiX86);
    assert_eq!(AplsMode::AppleSiliconSandbox.as_str(), "apls-sandbox");
    assert_eq!(AplsMode::NativeEfiX86.as_str(), "native-efi-x86");
}

#[test]
fn probe_reports_arch_and_mode() {
    let none = current_backend(AppleVirtualizationBackend::probe(None::<()>, false));
    let apple = current_backend(AppleVirtualizationBackend::probe(Some(()), true));
    let env = probe(false, "x86_64", &apple);
    assert_eq!(env.arch, "x86_64");
    assert_eq!(env.mode, AplsMode::NativeEfiX86);
    assert!(!env.virtualization_backend_available);
    let env = probe(true, "aarch64", &apple);
    assert_eq!(env.arch, "aarch64");
    assert_eq!(env.mode, AplsMode::AppleSiliconSandbox);
    assert!(env.virtualization_backend_available);
    assert!(!probe(true, "aarch64", &none).virtualization_backend_available);
}
