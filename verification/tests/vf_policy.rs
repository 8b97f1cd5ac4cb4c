use nextcore_apls::vf_abi::VfError;
use nextcore_apls::vf_policy::{
    CpuConfig, DenialReason, GraphicsConfig, GuestConfig, GuestProfile, MemoryConfig,
    PlatformPolicy, PolicyError, RawPolicy, SecurityConfig, StorageDevice, VfGrant, VskPolicy,
};
use plist::{Dictionary, Value};

const GT_TEMPLATE: &str = "<?xml version=\"1.0\" encoding=\"UTF-8\"?>
<!DOCTYPE plist PUBLIC \"-//Apple//DTD PLIST 1.0//EN\" \"http://www.apple.com/DTDs/PropertyList-1.0.dtd\">
<plist version=\"1.0\">
<dict>
\t<key>SchemaVersion</key>
\t<integer>1</integer>
\t<key>PlatformPolicy</key>
\t<string>AppleIntelOnly</string>
\t<key>CPU</key>
\t<dict>
\t\t<key>MinimumISA</key>
\t\t<string>SSE4.2</string>
\t\t<key>VCPUs</key>
\t\t<string>auto</string>
\t\t<key>ServiceLogicalCPUs</key>
\t\t<integer>2</integer>
\t</dict>
\t<key>Security</key>
\t<dict>
\t\t<key>VMXRequired</key>
\t\t<true/>
\t\t<key>EPTRequired</key>
\t\t<true/>
\t\t<key>IOMMURequired</key>
\t\t<true/>
\t\t<key>InterruptRemappingRequired</key>
\t\t<true/>
\t\t<key>DMABypass</key>
\t\t<false/>
\t</dict>
\t<key>Memory</key>
\t<dict>
\t\t<key>GuestMiB</key>
\t\t<integer>8192</integer>
\t\t<key>HostReserveMiB</key>
\t\t<integer>2048</integer>
\t\t<key>JITCacheMiB</key>
\t\t<integer>512</integer>
\t</dict>
\t<key>Storage</key>
\t<array>
\t\t<dict>
\t\t\t<key>ID</key>
\t\t\t<string>root</string>
\t\t\t<key>SectorBytes</key>
\t\t\t<integer>4096</integer>
\t\t\t<key>ReadOnly</key>
\t\t\t<true/>
\t\t</dict>
\t</array>
\t<key>Graphics</key>
\t<dict>
\t\t<key>Device</key>
\t\t<string>auto</string>
\t</dict>
\t<key>Guest</key>
\t<dict>
\t\t<key>ProfileID</key>
\t\t<string></string>
\t\t<key>RequireMetal</key>
\t\t<true/>
\t</dict>
</dict>
</plist>
";

fn section(value: &Value, keys: &[&str]) -> Result<Dictionary, String> {
    let dictionary = value.as_dictionary().ok_or("not a dictionary")?;
    match dictionary.keys().find(|key| !keys.contains(&key.as_str())) {
        Some(key) => Err(format!("unknown field {key}")),
        None => Ok(dictionary.clone()),
    }
}

fn text(section: &Dictionary, key: &str) -> Option<String> {
    section.get(key).map(|value| value.as_string().unwrap().to_string())
}

fn flag(section: &Dictionary, key: &str) -> Option<bool> {
    section.get(key).map(|value| value.as_boolean().unwrap())
}

fn number(section: &Dictionary, key: &str) -> Option<u64> {
    section.get(key).map(|value| value.as_unsigned_integer().unwrap())
}

fn cpu(value: &Value) -> Result<CpuConfig, String> {
    let s = section(
        value,
        &["MinimumISA", "Codegen", "HybridScheduling", "VCPUs", "ServiceLogicalCPUs", "SMTPolicy"],
    )?;
    Ok(CpuConfig {
        minimum_isa: text(&s, "MinimumISA"),
        codegen: text(&s, "Codegen"),
        hybrid_scheduling: text(&s, "HybridScheduling"),
        vcpus: text(&s, "VCPUs"),
        service_logical_cpus: number(&s, "ServiceLogicalCPUs").map(|n| n as u32),
        smt_policy: text(&s, "SMTPolicy"),
    })
}

fn security(value: &Value) -> Result<SecurityConfig, String> {
    let s = section(
        value,
        &["VMXRequired", "EPTRequired", "IOMMURequired", "InterruptRemappingRequired", "DMABypass"],
    )?;
    Ok(SecurityConfig {
        vmx_required: flag(&s, "VMXRequired"),
        ept_required: flag(&s, "EPTRequired"),
        iommu_required: flag(&s, "IOMMURequired"),
        interrupt_remapping_required: flag(&s, "InterruptRemappingRequired"),
        dma_bypass: flag(&s, "DMABypass"),
    })
}

fn memory(value: &Value) -> Result<MemoryConfig, String> {
    let s = section(value, &["GuestMiB", "HostReserveMiB", "JITCacheMiB"])?;
    Ok(MemoryConfig {
        guest_mib: number(&s, "GuestMiB"),
        host_reserve_mib: number(&s, "HostReserveMiB"),
        jit_cache_mib: number(&s, "JITCacheMiB"),
    })
}

fn graphics(value: &Value) -> Result<GraphicsConfig, String> {
    let s = section(value, &["Device", "DriverPolicy", "MinimumProfile", "OnUnsupported"])?;
    Ok(GraphicsConfig {
        device: text(&s, "Device"),
        driver_policy: text(&s, "DriverPolicy"),
        minimum_profile: text(&s, "MinimumProfile"),
        on_unsupported: text(&s, "OnUnsupported"),
    })
}

fn storage(value: &Value) -> Result<Vec<StorageDevice>, String> {
    let mut devices = Vec::new();
    for device in value.as_array().ok_or("not an array")? {
        let s = section(
            device,
            &[
                "ID", "Backend", "DeviceSerial", "DiskGUID", "PartitionGUID", "SectorBytes",
                "ReadOnly",
            ],
        )?;
        devices.push(StorageDevice {
            id: text(&s, "ID"),
            backend: text(&s, "Backend"),
            device_serial: text(&s, "DeviceSerial"),
            disk_guid: text(&s, "DiskGUID"),
            partition_guid: text(&s, "PartitionGUID"),
            sector_bytes: number(&s, "SectorBytes").map(|n| n as u32),
            read_only: flag(&s, "ReadOnly"),
        });
    }
    Ok(devices)
}

fn guest(value: &Value) -> Result<GuestConfig, String> {
    let s = section(value, &["ProfileID", "RequireMetal"])?;
    Ok(GuestConfig { profile_id: text(&s, "ProfileID"), require_metal: flag(&s, "RequireMetal") })
}

/// Reads the settings of a property list; unknown keys are refused.
fn read(bytes: &[u8]) -> Result<RawPolicy, String> {
    let value: Value = plist::from_bytes(bytes).map_err(|e| e.to_string())?;
    let top = section(
        &value,
        &[
            "SchemaVersion", "PlatformPolicy", "CPU", "Security", "Memory", "Storage", "Graphics",
            "Guest",
        ],
    )?;
    Ok(RawPolicy {
        schema_version: top.get("SchemaVersion").and_then(|v| v.as_signed_integer()),
        platform_policy: text(&top, "PlatformPolicy"),
        cpu: top.get("CPU").map(cpu).transpose()?,
        security: top.get("Security").map(security).transpose()?,
        memory: top.get("Memory").map(memory).transpose()?,
        storage: top.get("Storage").map(storage).transpose()?,
        graphics: top.get("Graphics").map(graphics).transpose()?,
        guest: top.get("Guest").map(guest).transpose()?,
    })
}

fn from_plist(text: &str) -> Result<VskPolicy, PolicyError> {
    VskPolicy::from_plist_bytes(text.as_bytes(), read(text.as_bytes()))
}

fn template() -> RawPolicy {
    read(GT_TEMPLATE.as_bytes()).unwrap()
}

fn normalize(change: fn(&mut RawPolicy)) -> Result<VskPolicy, PolicyError> {
    let mut raw = template();
    change(&mut raw);
    VskPolicy::from_plist_bytes(b"abc", Ok(raw))
}

#[test]
fn golden_gate_template_parses_and_denies() {
    let policy = from_plist(GT_TEMPLATE).unwrap();
    assert_eq!(policy.platform, PlatformPolicy::AppleIntelOnly);
    assert!(policy.require_vmx);
    assert!(policy.require_ept);
    assert!(policy.require_iommu);
    assert!(policy.require_interrupt_remapping);
    assert_eq!(policy.guest_mib, 8192);
    assert!(!policy.boot_authorized());
    assert_eq!(policy.deny(), (false, "no signature verifier"));
    assert_eq!(policy.config_sha256.len(), 32);
    assert_eq!(policy.config_hash_hex().len(), 64);
}

#[test]
fn required_features_gate() {
    let policy = from_plist(GT_TEMPLATE).unwrap();
    assert!(policy.required_features_present(true, true, true));
    assert!(!policy.required_features_present(false, true, true));
    assert!(!policy.required_features_present(true, false, true));
    assert!(!policy.required_features_present(true, true, false));
}

#[test]
fn weakens_security_is_rejected() {
    let weak = GT_TEMPLATE.replace(
        "<key>DMABypass</key>\n\t\t<false/>",
        "<key>DMABypass</key>\n\t\t<true/>",
    );
    assert_ne!(weak, GT_TEMPLATE);
    let res = from_plist(&weak);
    assert!(matches!(res, Err(PolicyError::WeakenedSecurity(_))));
}

#[test]
fn unknown_key_is_rejected() {
    let unknown = GT_TEMPLATE.replace("<key>Guest</key>", "<key>NotARealKey</key>");
    let res = from_plist(&unknown);
    assert!(res.is_err());
}

#[test]
fn unsupported_platform_policy_rejected() {
    let changed = GT_TEMPLATE.replace("AppleIntelOnly", "AnyPC");
    let res = from_plist(&changed);
    assert!(matches!(res, Err(PolicyError::PlatformPolicy(_))));
}

#[test]
fn unregistered_guest_profile_rejected() {
    let changed = GT_TEMPLATE.replace(
        "<key>ProfileID</key>\n\t\t<string></string>",
        "<key>ProfileID</key>\n\t\t<string>macos28-void</string>",
    );
    assert_ne!(changed, GT_TEMPLATE);
    let res = from_plist(&changed);
    assert!(matches!(res, Err(PolicyError::GuestProfile(_))));
}

#[test]
fn grant_range_check() {
    let grant = VfGrant::new(0x10, 0, 4096);
    assert!(grant.range_check(8192).is_ok());
    assert!(grant.range_check(2048).is_err());

    let overflow = VfGrant::new(0x10, u64::MAX - 1, 16);
    assert!(overflow.range_check(u64::MAX).is_err());
}

#[test]
fn bounded_key_set() {
    let raw = template();
    let present = [
        raw.platform_policy.is_some(),
        raw.cpu.is_some(),
        raw.security.is_some(),
        raw.memory.is_some(),
        raw.graphics.is_some(),
        raw.guest.is_some(),
    ];
    assert!(present.iter().filter(|there| **there).count() >= 5);
}

#[test]
fn the_configuration_itself_is_hashed() {
    let policy = normalize(|_| ()).unwrap();
    assert_eq!(
        policy.config_hash_hex(),
        "ba7816bf8f01cfea414140de5dae2223b00361a396177a9cb410ff61f20015ad"
    );
    assert!(!policy.boot_authorized);
    assert_eq!(policy.denial_reason, DenialReason::NoSignatureVerifier);
    assert_eq!((policy.host_reserve_mib, policy.jit_cache_mib), (2048, 512));
    assert_eq!(policy.guest_profile, None);
}

#[test]
fn missing_sections_and_sizes_are_unknown_keys() {
    let missing: [fn(&mut RawPolicy); 6] = [
        |raw| raw.cpu = None,
        |raw| raw.security = None,
        |raw| raw.memory = None,
        |raw| raw.guest = None,
        |raw| raw.memory.as_mut().unwrap().jit_cache_mib = Some(0),
        |raw| raw.memory.as_mut().unwrap().guest_mib = None,
    ];
    for change in missing {
        assert!(matches!(normalize(change), Err(PolicyError::UnknownKey)));
    }
    let unread = VskPolicy::from_plist_bytes(b"", Err("no plist".into()));
    assert!(matches!(unread, Err(PolicyError::Plist(reason)) if reason == "no plist"));
}

#[test]
fn instruction_sets_below_the_floor_are_refused() {
    assert!(normalize(|raw| raw.cpu.as_mut().unwrap().minimum_isa = Some("sSe42".into())).is_ok());
    assert!(normalize(|raw| raw.cpu.as_mut().unwrap().minimum_isa = None).is_ok());
    assert!(matches!(
        normalize(|raw| raw.cpu.as_mut().unwrap().minimum_isa = Some("sse4.1".into())),
        Err(PolicyError::GuestProfile(isa)) if isa == "sse4.1"
    ));
}

#[test]
fn registered_profiles_are_chosen_by_name() {
    let chosen = |change: fn(&mut RawPolicy)| normalize(change).unwrap().guest_profile;
    assert_eq!(
        chosen(|raw| raw.guest.as_mut().unwrap().profile_id = Some("macos26-tahoe".into())),
        Some(GuestProfile::MacOS26Tahoe)
    );
    assert_eq!(
        chosen(|raw| raw.guest.as_mut().unwrap().profile_id = Some("macos27-golden-gate".into())),
        Some(GuestProfile::MacOS27GoldenGate)
    );
    assert_eq!(chosen(|raw| raw.guest.as_mut().unwrap().profile_id = None), None);
    assert_eq!(GuestProfile::MacOS26Tahoe.as_str(), "macos26-tahoe");
    assert_eq!(GuestProfile::MacOS27GoldenGate.as_str(), "macos27-golden-gate");
    assert_eq!(PlatformPolicy::AppleIntelOnly.as_str(), "AppleIntelOnly");
    assert_eq!(DenialReason::NoHardwareExecutor.as_str(), "no hardware executor");
    assert_eq!(DenialReason::UnknownConfig.as_str(), "unknown config");
}

fn disabled(key: &str) -> Result<VskPolicy, PolicyError> {
    let on = format!("<key>{key}</key>\n\t\t<true/>");
    let off = format!("<key>{key}</key>\n\t\t<false/>");
    let weak = GT_TEMPLATE.replace(&on, &off);
    assert_ne!(weak, GT_TEMPLATE);
    from_plist(&weak)
}

#[test]
fn a_disabled_vmx_requirement_is_rejected() {
    assert!(matches!(
        disabled("VMXRequired"),
        Err(PolicyError::WeakenedSecurity("VMX requirement disabled"))
    ));
}

#[test]
fn a_disabled_ept_requirement_is_rejected() {
    assert!(matches!(
        disabled("EPTRequired"),
        Err(PolicyError::WeakenedSecurity("EPT requirement disabled"))
    ));
}

#[test]
fn a_disabled_iommu_requirement_is_rejected() {
    assert!(matches!(
        disabled("IOMMURequired"),
        Err(PolicyError::WeakenedSecurity("IOMMU requirement disabled"))
    ));
}

#[test]
fn a_disabled_interrupt_remapping_requirement_is_rejected() {
    assert!(matches!(
        disabled("InterruptRemappingRequired"),
        Err(PolicyError::WeakenedSecurity("interrupt remapping requirement disabled"))
    ));
}

#[test]
fn a_dma_bypass_is_named_before_a_disabled_requirement_and_both_before_sizes() {
    let both = normalize(|raw| {
        let security = raw.security.as_mut().unwrap();
        security.dma_bypass = Some(true);
        security.vmx_required = Some(false);
    });
    assert!(matches!(both, Err(PolicyError::WeakenedSecurity("DMA bypass enabled"))));
    let unsized_guest = normalize(|raw| {
        raw.security.as_mut().unwrap().iommu_required = Some(false);
        raw.memory = None;
    });
    assert!(matches!(unsized_guest, Err(PolicyError::WeakenedSecurity(_))));
}

#[test]
fn unset_requirements_are_not_required() {
    let policy = normalize(|raw| raw.security.as_mut().unwrap().vmx_required = None).unwrap();
    assert!(!policy.require_vmx && policy.require_ept);
    assert!(policy.required_features_present(false, true, true));
}

#[test]
fn grants_are_new_and_unrestricted() {
    let grant = VfGrant::new(1, 2, 3);
    assert_eq!(grant, VfGrant { object_id: 1, offset: 2, length: 3, restricted: false });
    assert_eq!(grant.range_check(5), Ok(()));
    assert_eq!(grant.range_check(4), Err(VfError::Erange));
}

#[test]
fn envelope_errors_become_policy_errors() {
    assert!(matches!(
        PolicyError::from(VfError::Enoent),
        PolicyError::Vf(VfError::Enoent)
    ));
}
