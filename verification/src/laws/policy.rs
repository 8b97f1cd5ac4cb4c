//! Which configurations are accepted, and what they come to.
use vstd::prelude::*;

use crate::digest;
use crate::laws::text as text_laws;
use crate::text;
use crate::vf_abi::VfError;
use crate::vf_policy;
use crate::vf_policy::{
    DenialReason, GuestProfile, PlatformPolicy, PolicyError, RawPolicy, SecurityConfig, VfGrant,
    VskPolicy,
};

verus! {

/// Whether `bytes`, which read as `raw`, were judged as `policy`.
pub open spec fn normalizes(
    bytes: &[u8],
    raw: RawPolicy,
    policy: Result<VskPolicy, PolicyError>,
) -> bool {
    call_ensures(
        VskPolicy::from_plist_bytes,
        (bytes, Ok::<RawPolicy, String>(raw)),
        policy,
    )
}

/// Whether two texts are the same but for ASCII case.
pub open spec fn alike(a: Seq<char>, b: Seq<char>) -> bool {
    a.len() == b.len() && forall|i: int|
        0 <= i < a.len() ==> text_laws::same_letter(#[trigger] a[i], b[i])
}

/// Whether the platform is left open or the product's.
pub open spec fn platform_fits(raw: RawPolicy) -> bool {
    raw.platform_policy matches Some(name) ==> name@ == "AppleIntelOnly"@
}

/// Whether the instruction set is left open or the product's floor.
pub open spec fn isa_fits(raw: RawPolicy) -> bool {
    raw.cpu matches Some(cpu) && (cpu.minimum_isa matches Some(isa) ==> alike(isa@, "sse4.2"@)
        || alike(isa@, "sse42"@))
}

/// Whether security is spelled out and nothing in it is weakened.
pub open spec fn security_fits(raw: RawPolicy) -> bool {
    raw.security matches Some(security) && security.dma_bypass != Some(true)
        && security.vmx_required != Some(false) && security.ept_required != Some(false)
        && security.iommu_required != Some(false) && security.interrupt_remapping_required != Some(
        false,
    )
}

/// Whether every size is given and above zero.
pub open spec fn memory_fits(raw: RawPolicy) -> bool {
    raw.memory matches Some(memory) && (memory.guest_mib matches Some(guest) && guest > 0) && (
    memory.host_reserve_mib matches Some(host) && host > 0) && (memory.jit_cache_mib matches Some(
        jit,
    ) && jit > 0)
}

/// The profile that a configuration names, where it names one.
pub open spec fn profile_named(raw: RawPolicy) -> Option<Seq<char>> {
    match raw.guest {
        Some(guest) => match guest.profile_id {
            Some(name) => if name@.len() == 0 {
                None
            } else {
                Some(name@)
            },
            None => None,
        },
        None => None,
    }
}

/// Whether the guest is spelled out and its profile, if one is named, known.
pub open spec fn guest_fits(raw: RawPolicy) -> bool {
    raw.guest is Some && (profile_named(raw) matches Some(name) ==> name == "macos26-tahoe"@
        || name == "macos27-golden-gate"@)
}

/// A configuration is accepted exactly where platform, instruction set,
/// security, memory and guest all fit.
pub proof fn law_acceptance(
    bytes: &[u8],
    raw: RawPolicy,
    policy: Result<VskPolicy, PolicyError>,
)
    requires
        normalizes(bytes, raw, policy),
    ensures
        policy is Ok <==> platform_fits(raw) && isa_fits(raw) && security_fits(raw) && memory_fits(
            raw,
        ) && guest_fits(raw),
{
    lemma_isa(raw);
    lemma_settings(raw);
    assert(vf_policy::policy_verdict(Ok::<RawPolicy, String>(raw)) == vf_policy::normalized(raw));
}

/// An accepted configuration comes to what it says: its sizes, its guest
/// profile, and every requirement that it turns on and no other.
pub proof fn law_accepted_terms(bytes: &[u8], raw: RawPolicy, policy: VskPolicy)
    requires
        normalizes(bytes, raw, Ok::<VskPolicy, PolicyError>(policy)),
    ensures
        raw.memory matches Some(memory) && memory.guest_mib == Some(policy.guest_mib)
            && memory.host_reserve_mib == Some(policy.host_reserve_mib) && memory.jit_cache_mib
            == Some(policy.jit_cache_mib),
        raw.security matches Some(security) && (policy.require_vmx <==> security.vmx_required
            == Some(true)) && (policy.require_ept <==> security.ept_required == Some(true)) && (
        policy.require_iommu <==> security.iommu_required == Some(true)) && (
        policy.require_interrupt_remapping <==> security.interrupt_remapping_required == Some(
            true,
        )),
        match policy.guest_profile {
            None => profile_named(raw) is None,
            Some(GuestProfile::MacOS26Tahoe) => profile_named(raw) == Some("macos26-tahoe"@),
            Some(GuestProfile::MacOS27GoldenGate) => profile_named(raw) == Some(
                "macos27-golden-gate"@,
            ),
        },
        policy.config_sha256@ == digest::sha256(bytes@),
        policy.platform == PlatformPolicy::AppleIntelOnly,
        !policy.boot_authorized,
        policy.denial_reason == DenialReason::NoSignatureVerifier,
{
    assert(vf_policy::policy_verdict(Ok::<RawPolicy, String>(raw)) == vf_policy::normalized(raw));
    assert(vf_policy::terms_of(policy).guest_profile == policy.guest_profile);
}

/// What is weakened in the security settings first.
pub open spec fn weakness(security: SecurityConfig) -> Seq<char> {
    match (
        security.dma_bypass,
        security.vmx_required,
        security.ept_required,
        security.iommu_required,
    ) {
        (Some(true), _, _, _) => "DMA bypass enabled"@,
        (_, Some(false), _, _) => "VMX requirement disabled"@,
        (_, _, Some(false), _) => "EPT requirement disabled"@,
        (_, _, _, Some(false)) => "IOMMU requirement disabled"@,
        _ => "interrupt remapping requirement disabled"@,
    }
}

/// The error of a refused configuration is about the first section that does
/// not fit: platform, processor, security, memory, guest.
pub proof fn law_first_misfit(bytes: &[u8], raw: RawPolicy, error: PolicyError)
    requires
        normalizes(bytes, raw, Err::<VskPolicy, PolicyError>(error)),
    ensures
        ({
            let platform = platform_fits(raw);
            let isa = platform && isa_fits(raw);
            let secure = isa && security_fits(raw);
            let sized = secure && memory_fits(raw);
            &&& !platform ==> (error matches PolicyError::PlatformPolicy(name) && name@
                == raw.platform_policy->Some_0@)
            &&& platform && raw.cpu is None ==> error is UnknownKey
            &&& platform && raw.cpu is Some && !isa ==> (error matches PolicyError::GuestProfile(
                name,
            ) && name@ == raw.cpu->Some_0.minimum_isa->Some_0@)
            &&& isa && raw.security is None ==> error is UnknownKey
            &&& isa && raw.security is Some && !secure ==> (
            error matches PolicyError::WeakenedSecurity(what) && what@ == weakness(
                raw.security->Some_0,
            ))
            &&& secure && !sized ==> error is UnknownKey
            &&& sized && raw.guest is None ==> error is UnknownKey
            &&& sized && raw.guest is Some ==> (error matches PolicyError::GuestProfile(name)
                && Some(name@) == profile_named(raw))
        }),
{
    lemma_isa(raw);
    lemma_settings(raw);
    assert(vf_policy::policy_verdict(Ok::<RawPolicy, String>(raw)) == vf_policy::normalized(raw));
}

/// A configuration that cannot be read is refused for the reason given.
pub proof fn law_unreadable_configuration(
    bytes: &[u8],
    reason: String,
    policy: Result<VskPolicy, PolicyError>,
)
    requires
        call_ensures(
            VskPolicy::from_plist_bytes,
            (bytes, Err::<RawPolicy, String>(reason)),
            policy,
        ),
    ensures
        policy matches Err(error) && (error matches PolicyError::Plist(told) && told@ == reason@),
{
    assert(vf_policy::policy_verdict(Err::<RawPolicy, String>(reason)) is Err);
}

/// No policy authorizes a boot: neither the answer nor the verdict does, and
/// the verdict names the policy's reason.
pub proof fn law_boot_is_denied(
    policy: VskPolicy,
    authorized: bool,
    verdict: (bool, &'static str),
    words: &'static str,
)
    requires
        call_ensures(VskPolicy::boot_authorized, (&policy,), authorized),
        call_ensures(VskPolicy::deny, (&policy,), verdict),
        call_ensures(DenialReason::as_str, (&policy.denial_reason,), words),
    ensures
        !authorized,
        !verdict.0,
        verdict.1@ == words@,
        policy.denial_reason is NoSignatureVerifier ==> words@ == "no signature verifier"@,
        policy.denial_reason is NoHardwareExecutor ==> words@ == "no hardware executor"@,
        policy.denial_reason is UnknownConfig ==> words@ == "unknown config"@,
{
}

/// A host lacks what a policy requires exactly where one of VMX, EPT and
/// interrupt remapping is required and missing.
pub proof fn law_required_features(
    policy: VskPolicy,
    has_vmx: bool,
    has_ept: bool,
    has_irq: bool,
    present: bool,
)
    requires
        call_ensures(
            VskPolicy::required_features_present,
            (&policy, has_vmx, has_ept, has_irq),
            present,
        ),
    ensures
        !present <==> (policy.require_vmx && !has_vmx) || (policy.require_ept && !has_ept) || (
        policy.require_interrupt_remapping && !has_irq),
{
}

/// The digest of an accepted configuration is given as 64 hexadecimal digits,
/// two to a byte.
pub proof fn law_digest_in_digits(
    bytes: &[u8],
    raw: RawPolicy,
    policy: VskPolicy,
    digits: String,
)
    requires
        normalizes(bytes, raw, Ok::<VskPolicy, PolicyError>(policy)),
        call_ensures(VskPolicy::config_hash_hex, (&policy,), digits),
    ensures
        digits@.len() == 64,
        forall|i: int|
            0 <= i < 32 ==> #[trigger] digest::sha256(bytes@)[i] == 16 * text_laws::nibble(
                digits@[2 * i],
            ) + text_laws::nibble(digits@[2 * i + 1]),
{
    text_laws::lemma_hex(policy.config_sha256@);
}

/// A platform and a profile are known by their registered names.
pub proof fn law_names(
    platform: PlatformPolicy,
    named: &'static str,
    profile: GuestProfile,
    registered: &'static str,
)
    requires
        call_ensures(PlatformPolicy::as_str, (&platform,), named),
        call_ensures(GuestProfile::as_str, (&profile,), registered),
    ensures
        named@ == "AppleIntelOnly"@,
        registered@ == if profile is MacOS26Tahoe {
            "macos26-tahoe"@
        } else {
            "macos27-golden-gate"@
        },
{
}

/// A configuration that names a profile by its registered name is for that
/// profile.
pub proof fn law_profile_by_its_name(
    bytes: &[u8],
    raw: RawPolicy,
    policy: VskPolicy,
    profile: GuestProfile,
    registered: &'static str,
)
    requires
        normalizes(bytes, raw, Ok::<VskPolicy, PolicyError>(policy)),
        call_ensures(GuestProfile::as_str, (&profile,), registered),
        profile_named(raw) == Some(registered@),
    ensures
        policy.guest_profile == Some(profile),
{
    reveal_strlit("macos26-tahoe");
    reveal_strlit("macos27-golden-gate");
    assert(vf_policy::policy_verdict(Ok::<RawPolicy, String>(raw)) == vf_policy::normalized(raw));
    assert("macos26-tahoe"@.len() != "macos27-golden-gate"@.len());
    assert(vf_policy::terms_of(policy).guest_profile == policy.guest_profile);
}

/// A new grant is the range given, unrestricted; it lies inside an object
/// exactly where it ends no later.
pub proof fn law_grant_range(
    object_id: u64,
    offset: u64,
    length: u64,
    grant: VfGrant,
    object_length: u64,
    outcome: Result<(), VfError>,
)
    requires
        call_ensures(VfGrant::new, (object_id, offset, length), grant),
        call_ensures(VfGrant::range_check, (&grant, object_length), outcome),
    ensures
        grant.object_id == object_id && grant.offset == offset && grant.length == length
            && !grant.restricted,
        outcome is Ok <==> offset + length <= object_length,
        outcome is Err ==> outcome->Err_0 == VfError::Erange,
{
}

proof fn lemma_isa(raw: RawPolicy)
    ensures
        raw.cpu matches Some(cpu) ==> (cpu.minimum_isa matches Some(isa) ==> vf_policy::isa_admitted(
            isa@,
        ) == (alike(isa@, "sse4.2"@) || alike(isa@, "sse42"@))),
{
    if let Some(cpu) = raw.cpu {
        if let Some(isa) = cpu.minimum_isa {
            text_laws::lemma_ignoring_case(isa@, "sse4.2"@);
            text_laws::lemma_ignoring_case(isa@, "sse42"@);
        }
    }
}

proof fn lemma_settings(raw: RawPolicy)
    ensures
        raw.security matches Some(security) ==> (vf_policy::weakened_setting(security) is None
            <==> security_fits(raw)),
{
}

} // verus!
