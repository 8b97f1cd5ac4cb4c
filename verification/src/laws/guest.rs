//! Guest sizes, launch plans and backends.
use vstd::prelude::*;

use crate::codec;
use crate::guest;
use crate::guest::{
    AppleVirtualizationBackend, GuestError, GuestLaunchPlan, GuestSpec, GuestState, HostBackend,
    UnsupportedBackend, VirtualizationBackend, XstateDomain,
};
use crate::laws::wire;
use crate::mode;
use crate::mode::{AplsMode, BootEnv};

verus! {

/// Whether a guest has between one and 255 processors.
pub open spec fn processors_fit(spec: GuestSpec) -> bool {
    0 < spec.cpu_count < 256
}

/// Whether a guest has at least 128 MiB.
pub open spec fn memory_fits(spec: GuestSpec) -> bool {
    spec.memory_bytes >= 0x800_0000
}

/// A guest size is refused exactly where its processors or else its memory do
/// not fit.
pub proof fn law_guest_size(spec: GuestSpec, outcome: Result<(), GuestError>)
    requires
        call_ensures(GuestSpec::validate, (&spec,), outcome),
    ensures
        outcome is Ok <==> processors_fit(spec) && memory_fits(spec),
        !processors_fit(spec) ==> outcome == Err::<(), GuestError>(
            GuestError::InvalidSpec("cpu_count out of range"),
        ),
        processors_fit(spec) && !memory_fits(spec) ==> outcome == Err::<(), GuestError>(
            GuestError::InvalidSpec("memory below 128 MiB"),
        ),
{
}

/// The register state is read off the three low-order bits: x87 and SSE make up
/// the floor, AVX is the third. Sixteen registers are saved in any case.
pub proof fn law_register_state(
    xcr0: u64,
    domain: XstateDomain,
    floored: bool,
    avx: bool,
    saved: u32,
)
    requires
        call_ensures(XstateDomain::from_xcr0, (xcr0,), domain),
        call_ensures(XstateDomain::has_floored_state, (&domain,), floored),
        call_ensures(XstateDomain::has_avx_state, (&domain,), avx),
        call_ensures(XstateDomain::ise_gpr_saved_count, (&domain,), saved),
    ensures
        floored <==> xcr0 % 4 == 3,
        avx <==> (xcr0 / 4) % 2 == 1,
        saved == 16,
{
    assert((((xcr0 >> 0) & 1 == 1) && ((xcr0 >> 1) & 1 == 1)) == (xcr0 % 4 == 3)) by (bit_vector);
    assert(((xcr0 >> 2) & 1 == 1) == ((xcr0 / 4) % 2 == 1)) by (bit_vector);
}

/// The register state of x87, SSE and AVX has the bits from the lowest up, and
/// the floor is the first two together.
pub proof fn law_register_bits()
    ensures
        XstateDomain::XCR0_SSE == 2 * XstateDomain::XCR0_X87,
        XstateDomain::XCR0_AVX == 2 * XstateDomain::XCR0_SSE,
        XstateDomain::XCR0_X87 == 1,
        XstateDomain::XCR0_SSE4_2_FLOOR == XstateDomain::XCR0_X87 + XstateDomain::XCR0_SSE,
{
}

/// A plan is started exactly where its size fits and it has a boot disk; it has
/// them, and neither overrides nor devices.
pub proof fn law_new_plan(
    spec: GuestSpec,
    disk: String,
    plan: Result<GuestLaunchPlan, GuestError>,
    size: Result<(), GuestError>,
)
    requires
        call_ensures(GuestLaunchPlan::new, (spec, disk), plan),
        call_ensures(GuestSpec::validate, (&spec,), size),
    ensures
        match plan {
            Ok(plan) => {
                &&& size is Ok && disk@.len() > 0
                &&& plan.spec == spec && plan.boot_disk@ == disk@
                &&& plan.smbios_override@.len() == 0 && plan.device_map@.len() == 0
            },
            Err(error) => if size is Err {
                error == size->Err_0
            } else {
                disk@.len() == 0 && error == GuestError::InvalidSpec("empty boot disk")
            },
        },
{
    if let Ok(plan) = plan {
        assert(guest::plan_outcome(Ok(plan)) == Ok::<guest::PlanModel, GuestError>(plan@));
        assert(plan@.smbios.len() == plan.smbios_override@.len());
    }
}

/// An override goes behind those that a plan has, and changes nothing else.
pub proof fn law_override_added(
    plan: &mut GuestLaunchPlan,
    key: String,
    value: String,
    same: &mut GuestLaunchPlan,
)
    requires
        call_ensures(GuestLaunchPlan::smbios, (plan, key, value), same),
    ensures
        ({
            let n = old(plan).smbios_override@.len() as int;
            &&& old(same).smbios_override@.len() == n + 1
            &&& old(same).smbios_override@[n].0@ == key@ && old(same).smbios_override@[n].1@
                == value@
            &&& forall|i: int|
                0 <= i < n ==> (#[trigger] old(same).smbios_override@[i]).0@ == old(
                    plan,
                ).smbios_override@[i].0@ && old(same).smbios_override@[i].1@ == old(
                    plan,
                ).smbios_override@[i].1@
            &&& old(same).spec == old(plan).spec && old(same).boot_disk@ == old(plan).boot_disk@
            &&& old(same).device_map@ == old(plan).device_map@
            &&& *final(plan) == *final(same)
        }),
{
    let n = old(plan).smbios_override@.len() as int;
    let before = old(plan)@.smbios;
    let after = old(same)@.smbios;
    assert(after == before.push((key@, value@)));
    assert(after.len() == old(same).smbios_override@.len());
    assert(after[n] == (key@, value@));
    assert(after[n] == (old(same).smbios_override@[n].0@, old(same).smbios_override@[n].1@));
    assert forall|i: int| 0 <= i < n implies (#[trigger] old(same).smbios_override@[i]).0@ == old(
        plan,
    ).smbios_override@[i].0@ && old(same).smbios_override@[i].1@ == old(
        plan,
    ).smbios_override@[i].1@ by {
        assert(after[i] == before[i]);
        assert(after[i] == (old(same).smbios_override@[i].0@, old(same).smbios_override@[i].1@));
        assert(before[i] == (old(plan).smbios_override@[i].0@, old(plan).smbios_override@[i].1@));
    }
    assert(old(same)@.spec == old(plan)@.spec);
    assert(old(same)@.boot_disk == old(plan)@.boot_disk);
    assert(old(same)@.devices == old(plan)@.devices);
}

/// A device goes behind those that a plan has, vendor before device before
/// length, and changes nothing else.
pub proof fn law_device_added(
    plan: &mut GuestLaunchPlan,
    vendor_id: u32,
    device_id: u32,
    mmio_len: u64,
    same: &mut GuestLaunchPlan,
)
    requires
        call_ensures(GuestLaunchPlan::map_device, (plan, vendor_id, device_id, mmio_len), same),
    ensures
        old(same).device_map@ == old(plan).device_map@.push((vendor_id, device_id, mmio_len)),
        old(same).spec == old(plan).spec && old(same).boot_disk@ == old(plan).boot_disk@,
        guest::text_pairs(old(same).smbios_override@) == guest::text_pairs(
            old(plan).smbios_override@,
        ),
        *final(plan) == *final(same),
{
    assert(old(same)@.spec == old(plan)@.spec);
    assert(old(same)@.boot_disk == old(plan)@.boot_disk);
    assert(old(same)@.smbios == old(plan)@.smbios);
    assert(old(same)@.devices == old(plan)@.devices.push((vendor_id, device_id, mmio_len)));
}

/// The UTF-8 form of a text.
pub open spec fn utf8(written: Seq<char>) -> Seq<u8> {
    vstd::utf8::encode_utf8(written)
}

/// Whether a text of no more than 32 bits in length stands at `at`: its length
/// in four bytes, then its UTF-8 form.
pub open spec fn text_stands_at(bytes: Seq<u8>, at: int, written: Seq<char>) -> bool {
    let n = utf8(written).len() as int;
    &&& at + 4 + n <= bytes.len()
    &&& n < 0x1_0000_0000 ==> wire::four(bytes, at) == n
    &&& bytes.subrange(at + 4, at + 4 + n) == utf8(written)
}

/// How many bytes a text takes.
pub open spec fn text_takes(written: Seq<char>) -> int {
    4 + utf8(written).len() as int
}

/// A plan without overrides and devices is its processors in four bytes, its
/// memory in eight, its boot disk, and two counts of zero.
pub proof fn law_bare_plan_written(plan: GuestLaunchPlan, bytes: Vec<u8>)
    requires
        call_ensures(GuestLaunchPlan::encode, (&plan,), bytes),
        plan.smbios_override@.len() == 0,
        plan.device_map@.len() == 0,
    ensures
        wire::four(bytes@, 0) == plan.spec.cpu_count,
        wire::eight(bytes@, 4) == plan.spec.memory_bytes,
        text_stands_at(bytes@, 12, plan.boot_disk@),
        ({
            let p = 12 + text_takes(plan.boot_disk@);
            &&& bytes@.len() == p + 8
            &&& wire::four(bytes@, p) == 0
            &&& wire::four(bytes@, p + 4) == 0
        }),
{
    lemma_plan_parts(plan@);
    let p = 12 + text_takes(plan.boot_disk@);
    let b = bytes@;
    wire::lemma_numbers(b);
    assert(guest::pairs_wire(plan@.smbios).len() == 0);
    assert(guest::devices_wire(plan@.devices).len() == 0);
    lemma_number_at(b, 0, plan.spec.cpu_count as nat, 4);
    lemma_number_at(b, 4, plan.spec.memory_bytes as nat, 8);
    lemma_number_at(b, p, 0, 4);
    lemma_number_at(b, p + 4, 0, 4);
}

/// One more device adds sixteen bytes at the end of a plan, vendor, device and
/// length, and one to their count; nothing else changes.
pub proof fn law_device_written(
    plan: GuestLaunchPlan,
    more: GuestLaunchPlan,
    device: (u32, u32, u64),
    bytes: Vec<u8>,
    longer: Vec<u8>,
)
    requires
        call_ensures(GuestLaunchPlan::encode, (&plan,), bytes),
        call_ensures(GuestLaunchPlan::encode, (&more,), longer),
        more@ == (guest::PlanModel { devices: plan@.devices.push(device), ..plan@ }),
        plan.device_map@.len() < 0xffff_ffff,
    ensures
        ({
            let end = bytes@.len() as int;
            let count = end - 4 - 16 * plan.device_map@.len();
            &&& longer@.len() == end + 16
            &&& wire::four(longer@, end) == device.0
            &&& wire::four(longer@, end + 4) == device.1
            &&& wire::eight(longer@, end + 8) == device.2
            &&& wire::four(bytes@, count) == plan.device_map@.len()
            &&& wire::four(longer@, count) == plan.device_map@.len() + 1
            &&& forall|i: int|
                0 <= i < end && !(count <= i < count + 4) ==> #[trigger] longer@[i] == bytes@[i]
        }),
{
    let a = plan@;
    let z = more@;
    lemma_plan_parts(a);
    lemma_plan_parts(z);
    lemma_devices_push(a.devices, device);
    lemma_devices_len(a.devices);
    lemma_devices_len(z.devices);
    let b = bytes@;
    let c = longer@;
    let end = b.len() as int;
    let count = end - 4 - 16 * a.devices.len();
    wire::lemma_numbers(b);
    wire::lemma_numbers(c);
    codec::lemma_le_bytes_len(device.0 as nat, 4);
    codec::lemma_le_bytes_len(device.1 as nat, 4);
    codec::lemma_le_bytes_len(device.2 as nat, 8);
    lemma_number_at(b, count, a.devices.len(), 4);
    lemma_number_at(c, count, z.devices.len(), 4);
    assert(c.subrange(end, end + 4) =~= codec::le_bytes(device.0 as nat, 4));
    assert(c.subrange(end + 4, end + 8) =~= codec::le_bytes(device.1 as nat, 4));
    assert(c.subrange(end + 8, end + 16) =~= codec::le_bytes(device.2 as nat, 8));
    lemma_number_at(c, end, device.0 as nat, 4);
    lemma_number_at(c, end + 4, device.1 as nat, 4);
    lemma_number_at(c, end + 8, device.2 as nat, 8);
}

/// One more override adds its key and then its value before the devices, and
/// one to the count of overrides; nothing else changes.
pub proof fn law_override_written(
    plan: GuestLaunchPlan,
    more: GuestLaunchPlan,
    pair: (Seq<char>, Seq<char>),
    bytes: Vec<u8>,
    longer: Vec<u8>,
)
    requires
        call_ensures(GuestLaunchPlan::encode, (&plan,), bytes),
        call_ensures(GuestLaunchPlan::encode, (&more,), longer),
        more@ == (guest::PlanModel { smbios: plan@.smbios.push(pair), ..plan@ }),
        plan.smbios_override@.len() < 0xffff_ffff,
    ensures
        ({
            let count = 12 + text_takes(plan.boot_disk@);
            let tail = 4 + 16 * plan.device_map@.len();
            let at = bytes@.len() - tail;
            let added = text_takes(pair.0) + text_takes(pair.1);
            &&& longer@.len() == bytes@.len() + added
            &&& text_stands_at(longer@, at, pair.0)
            &&& text_stands_at(longer@, at + text_takes(pair.0), pair.1)
            &&& wire::four(bytes@, count) == plan.smbios_override@.len()
            &&& wire::four(longer@, count) == plan.smbios_override@.len() + 1
            &&& forall|i: int|
                0 <= i < at && !(count <= i < count + 4) ==> #[trigger] longer@[i] == bytes@[i]
            &&& forall|i: int| at <= i < bytes@.len() ==> longer@[i + added] == #[trigger] bytes@[i]
        }),
{
    let a = plan@;
    let z = more@;
    lemma_plan_parts(a);
    lemma_plan_parts(z);
    lemma_pairs_push(a.smbios, pair);
    lemma_devices_len(a.devices);
    let b = bytes@;
    let c = longer@;
    let count = 12 + text_takes(plan.boot_disk@);
    let tail = 4 + 16 * a.devices.len();
    let at = b.len() - tail;
    wire::lemma_numbers(b);
    wire::lemma_numbers(c);
    assert(a.smbios.len() == plan.smbios_override@.len());
    lemma_number_at(b, count, a.smbios.len(), 4);
    lemma_number_at(c, count, z.smbios.len(), 4);
    let first = guest::text_wire(pair.0);
    let second = guest::text_wire(pair.1);
    lemma_text_len(pair.0);
    lemma_text_len(pair.1);
    assert(c.subrange(at, at + first.len()) =~= first);
    assert(c.subrange(at + first.len(), at + first.len() + second.len()) =~= second);
    lemma_text_stands(c, at, pair.0);
    lemma_text_stands(c, at + first.len(), pair.1);
}

/// What a plan that can be started is written as reads back as it, and only
/// that does.
pub proof fn law_plan_read_back(
    plan: GuestLaunchPlan,
    bytes: Vec<u8>,
    buf: &[u8],
    read: Result<GuestLaunchPlan, GuestError>,
)
    requires
        call_ensures(GuestLaunchPlan::encode, (&plan,), bytes),
        call_ensures(GuestLaunchPlan::decode, (buf,), read),
        buf@ == bytes@,
        processors_fit(plan.spec) && memory_fits(plan.spec) && plan.boot_disk@.len() > 0,
        guest::plan_fits(plan@),
    ensures
        read matches Ok(same) && same.spec == plan.spec && same.boot_disk@ == plan.boot_disk@
            && guest::text_pairs(same.smbios_override@) == guest::text_pairs(plan.smbios_override@)
            && same.device_map@ == plan.device_map@,
{
    guest::law_plan_roundtrip(plan@);
    assert(guest::plan_outcome(read) == Ok::<guest::PlanModel, GuestError>(plan@));
    let same = read->Ok_0;
    assert(same@ == plan@);
    assert(same@.smbios == plan@.smbios);
}

/// Bytes that read as a plan are what that plan is written as, and the plan is
/// one that can be started.
pub proof fn law_plan_read(
    buf: &[u8],
    plan: GuestLaunchPlan,
    bytes: Vec<u8>,
)
    requires
        call_ensures(
            GuestLaunchPlan::decode,
            (buf,),
            Ok::<GuestLaunchPlan, GuestError>(plan),
        ),
        call_ensures(GuestLaunchPlan::encode, (&plan,), bytes),
    ensures
        bytes@ == buf@,
        processors_fit(plan.spec) && memory_fits(plan.spec) && plan.boot_disk@.len() > 0,
{
    assert(guest::decoded_plan(buf@) == Ok::<guest::PlanModel, GuestError>(plan@));
    guest::law_plan_wire_is_faithful(buf@);
}

/// Bytes too few for a size are a truncated plan; a size that does not fit is
/// refused as such, whatever comes behind it.
pub proof fn law_plan_size_comes_first(
    buf: &[u8],
    read: Result<GuestLaunchPlan, GuestError>,
    spec: GuestSpec,
    size: Result<(), GuestError>,
)
    requires
        call_ensures(GuestLaunchPlan::decode, (buf,), read),
        call_ensures(GuestSpec::validate, (&spec,), size),
        buf@.len() >= 12 ==> spec.cpu_count == wire::four(buf@, 0) && spec.memory_bytes
            == wire::eight(buf@, 4),
    ensures
        buf@.len() < 12 ==> read is Err && read->Err_0 == GuestError::InvalidSpec("truncated plan"),
        buf@.len() >= 12 && size is Err ==> read is Err && read->Err_0 == size->Err_0,
{
    assert(guest::plan_outcome(read) == guest::decoded_plan(buf@));
    if buf@.len() >= 12 {
        wire::lemma_numbers(buf@);
    }
}

/// A boot disk that runs past the end is a truncated plan; one that is not
/// UTF-8 is named, and so is an empty one.
pub proof fn law_plan_disk_comes_second(
    buf: &[u8],
    read: Result<GuestLaunchPlan, GuestError>,
    spec: GuestSpec,
)
    requires
        call_ensures(GuestLaunchPlan::decode, (buf,), read),
        call_ensures(GuestSpec::validate, (&spec,), Ok::<(), GuestError>(())),
        buf@.len() >= 12,
        spec.cpu_count == wire::four(buf@, 0),
        spec.memory_bytes == wire::eight(buf@, 4),
    ensures
        ({
            let long = buf@.len() >= 16 && 16 + wire::four(buf@, 12) <= buf@.len();
            let disk = buf@.subrange(16, 16 + wire::four(buf@, 12));
            &&& !long ==> read is Err && read->Err_0 == GuestError::InvalidSpec("truncated plan")
            &&& long && !vstd::utf8::valid_utf8(disk) ==> read is Err && read->Err_0
                == GuestError::InvalidSpec("boot disk not utf-8")
            &&& long && wire::four(buf@, 12) == 0 ==> read is Err && read->Err_0
                == GuestError::InvalidSpec("empty boot disk")
        }),
{
    assert(guest::plan_outcome(read) == guest::decoded_plan(buf@));
    wire::lemma_numbers(buf@);
    if buf@.len() >= 16 && 16 + wire::four(buf@, 12) <= buf@.len() && wire::four(buf@, 12) == 0 {
        let disk = buf@.subrange(16, 16);
        assert(disk =~= utf8(Seq::empty()));
        vstd::utf8::encode_utf8_valid_utf8(Seq::empty());
        vstd::utf8::encode_utf8_decode_utf8(Seq::empty());
    }
}

/// Of the bytes that read as a plan, fewer are a truncated plan, and more have
/// trailing bytes.
pub proof fn law_plan_is_all_of_its_bytes(
    buf: &[u8],
    plan: GuestLaunchPlan,
    other: &[u8],
    read: Result<GuestLaunchPlan, GuestError>,
)
    requires
        call_ensures(
            GuestLaunchPlan::decode,
            (buf,),
            Ok::<GuestLaunchPlan, GuestError>(plan),
        ),
        call_ensures(GuestLaunchPlan::decode, (other,), read),
    ensures
        other@.len() < buf@.len() && other@ == buf@.take(other@.len() as int) ==> read is Err
            && read->Err_0 == GuestError::InvalidSpec("truncated plan"),
        other@.len() > buf@.len() && other@.take(buf@.len() as int) == buf@ ==> read is Err
            && read->Err_0 == GuestError::InvalidSpec("trailing bytes"),
{
    assert(guest::decoded_plan(buf@) == Ok::<guest::PlanModel, GuestError>(plan@));
    assert(guest::plan_outcome(read) == guest::decoded_plan(other@));
    if other@.len() < buf@.len() {
        guest::law_plan_truncation_rejected(buf@, other@.len() as int);
    } else if other@.len() > buf@.len() && other@.take(buf@.len() as int) == buf@ {
        let extra = other@.skip(buf@.len() as int);
        guest::law_plan_trailing_bytes_rejected(buf@, extra);
        assert(buf@ + extra =~= other@);
    }
}

/// Without the framework there is no backend, for want of it; without its
/// configuration class there is none either, and the class is named.
pub proof fn law_probe<F>(
    framework: Option<F>,
    found: bool,
    backend: Result<AppleVirtualizationBackend<F>, GuestError>,
)
    requires
        call_ensures(AppleVirtualizationBackend::<F>::probe, (framework, found), backend),
    ensures
        backend is Ok <==> framework is Some && found,
        framework is None ==> backend is Err && backend->Err_0 == GuestError::BackendUnavailable,
        framework is Some && !found ==> backend is Err && backend->Err_0
            == GuestError::FrameworkSymbol("VZVirtualMachineConfiguration"),
        backend matches Ok(loaded) ==> framework == Some(loaded.framework()),
{
}

/// A host has the framework's backend exactly where the probe found it, and one
/// that supports nothing otherwise. Neither starts, pauses or resumes a guest.
pub proof fn law_host_backend<F>(
    probed: Result<AppleVirtualizationBackend<F>, GuestError>,
    backend: HostBackend<F>,
    name: &'static str,
    available: bool,
    plan: GuestLaunchPlan,
    size: Result<(), GuestError>,
    launched: Result<GuestState, GuestError>,
    paused: Result<GuestState, GuestError>,
    resumed: Result<GuestState, GuestError>,
)
    requires
        call_ensures(guest::current_backend::<F>, (probed,), backend),
        call_ensures(HostBackend::<F>::name, (&backend,), name),
        call_ensures(HostBackend::<F>::available, (&backend,), available),
        call_ensures(GuestSpec::validate, (&plan.spec,), size),
        call_ensures(HostBackend::<F>::launch, (&backend, &plan), launched),
        call_ensures(HostBackend::<F>::pause, (&backend,), paused),
        call_ensures(HostBackend::<F>::resume, (&backend,), resumed),
    ensures
        available <==> probed is Ok,
        backend matches HostBackend::Apple(apple) ==> probed == Ok::<
            AppleVirtualizationBackend<F>,
            GuestError,
        >(apple),
        launched is Err && paused is Err && resumed is Err,
        probed is Ok ==> name@ == "apple-virtualization"@ && launched->Err_0 == (if size is Err {
            size->Err_0
        } else {
            GuestError::AbiPending(
                "VZ launch requires verified Objective-C ABI on an Apple Silicon host",
            )
        }) && paused->Err_0 == GuestError::AbiPending("VZ pause selector unverified")
            && resumed->Err_0 == GuestError::AbiPending("VZ resume selector unverified"),
        probed is Err ==> name@ == "unsupported"@ && launched->Err_0 == GuestError::UnsupportedHost(
            "no virtualization backend on this host",
        ) && paused->Err_0 == GuestError::BackendUnavailable && resumed->Err_0
            == GuestError::BackendUnavailable,
{
}

/// The backend that supports nothing says so.
pub proof fn law_unsupported_backend(
    backend: UnsupportedBackend,
    name: &'static str,
    available: bool,
    plan: GuestLaunchPlan,
    launched: Result<GuestState, GuestError>,
    paused: Result<GuestState, GuestError>,
    resumed: Result<GuestState, GuestError>,
)
    requires
        call_ensures(UnsupportedBackend::name, (&backend,), name),
        call_ensures(UnsupportedBackend::available, (&backend,), available),
        call_ensures(UnsupportedBackend::launch, (&backend, &plan), launched),
        call_ensures(UnsupportedBackend::pause, (&backend,), paused),
        call_ensures(UnsupportedBackend::resume, (&backend,), resumed),
    ensures
        name@ == "unsupported"@,
        !available,
        launched is Err && launched->Err_0 == GuestError::UnsupportedHost(
            "no virtualization backend on this host",
        ),
        paused is Err && paused->Err_0 == GuestError::BackendUnavailable,
        resumed is Err && resumed->Err_0 == GuestError::BackendUnavailable,
{
}

/// The framework's backend is available, and says what it still lacks.
pub proof fn law_framework_backend<F>(
    backend: AppleVirtualizationBackend<F>,
    name: &'static str,
    available: bool,
    plan: GuestLaunchPlan,
    size: Result<(), GuestError>,
    launched: Result<GuestState, GuestError>,
    paused: Result<GuestState, GuestError>,
    resumed: Result<GuestState, GuestError>,
)
    requires
        call_ensures(AppleVirtualizationBackend::<F>::name, (&backend,), name),
        call_ensures(AppleVirtualizationBackend::<F>::available, (&backend,), available),
        call_ensures(GuestSpec::validate, (&plan.spec,), size),
        call_ensures(AppleVirtualizationBackend::<F>::launch, (&backend, &plan), launched),
        call_ensures(AppleVirtualizationBackend::<F>::pause, (&backend,), paused),
        call_ensures(AppleVirtualizationBackend::<F>::resume, (&backend,), resumed),
    ensures
        name@ == "apple-virtualization"@,
        available,
        launched is Err && launched->Err_0 == (if size is Err {
            size->Err_0
        } else {
            GuestError::AbiPending(
                "VZ launch requires verified Objective-C ABI on an Apple Silicon host",
            )
        }),
        paused is Err && paused->Err_0 == GuestError::AbiPending("VZ pause selector unverified"),
        resumed is Err && resumed->Err_0 == GuestError::AbiPending("VZ resume selector unverified"),
{
}

/// The mode is the sandbox on Apple Silicon alone, and only there does a
/// backend count: exactly where the probe found it.
pub proof fn law_mode<F>(
    apple_silicon: bool,
    arch: &'static str,
    probed: Result<AppleVirtualizationBackend<F>, GuestError>,
    backend: HostBackend<F>,
    detected: AplsMode,
    name: &'static str,
    env: BootEnv,
)
    requires
        call_ensures(guest::current_backend::<F>, (probed,), backend),
        call_ensures(mode::detect, (apple_silicon,), detected),
        call_ensures(AplsMode::as_str, (&detected,), name),
        call_ensures(mode::probe::<F>, (apple_silicon, arch, &backend), env),
    ensures
        detected is AppleSiliconSandbox <==> apple_silicon,
        name@ == if apple_silicon {
            "apls-sandbox"@
        } else {
            "native-efi-x86"@
        },
        env.mode == detected,
        env.arch@ == arch@,
        env.virtualization_backend_available <==> apple_silicon && probed is Ok,
{
}

proof fn lemma_number_at(b: Seq<u8>, at: int, value: nat, n: nat)
    requires
        0 <= at,
        n == 4 || n == 8,
        at + n <= b.len(),
        b.subrange(at, at + n) == codec::le_bytes(value, n),
        value < codec::byte_span(n),
    ensures
        n == 4 ==> wire::four(b, at) == value,
        n == 8 ==> wire::eight(b, at) == value,
{
    codec::lemma_le_value_of_bytes(value, n);
    wire::lemma_numbers(b);
}

proof fn lemma_text_len(written: Seq<char>)
    ensures
        guest::text_wire(written).len() == text_takes(written),
{
    codec::lemma_le_bytes_len(utf8(written).len(), 4);
}

proof fn lemma_text_stands(b: Seq<u8>, at: int, written: Seq<char>)
    requires
        0 <= at,
        at + text_takes(written) <= b.len(),
        b.subrange(at, at + text_takes(written)) == guest::text_wire(written),
    ensures
        text_stands_at(b, at, written),
{
    let n = utf8(written).len() as int;
    let whole = b.subrange(at, at + text_takes(written));
    codec::lemma_byte_spans();
    codec::lemma_le_bytes_len(n as nat, 4);
    assert(b.subrange(at, at + 4) =~= whole.subrange(0, 4));
    assert(whole.subrange(0, 4) =~= codec::le_bytes(n as nat, 4));
    assert(b.subrange(at + 4, at + 4 + n) =~= whole.subrange(4, 4 + n));
    assert(whole.subrange(4, 4 + n) =~= utf8(written));
    if n < 0x1_0000_0000 {
        lemma_number_at(b, at, n as nat, 4);
    }
}

/// Where the parts of a plan stand in its wire form.
proof fn lemma_plan_parts(plan: guest::PlanModel)
    ensures
        ({
            let b = guest::plan_wire(plan);
            let p = 12 + text_takes(plan.boot_disk);
            let pairs = guest::pairs_wire(plan.smbios);
            let q = p + 4 + pairs.len();
            let devices = guest::devices_wire(plan.devices);
            &&& b.len() == q + 4 + devices.len()
            &&& b.subrange(0, 4) == codec::le_bytes(plan.spec.cpu_count as nat, 4)
            &&& b.subrange(4, 12) == codec::le_bytes(plan.spec.memory_bytes as nat, 8)
            &&& b.subrange(12, p) == guest::text_wire(plan.boot_disk)
            &&& text_stands_at(b, 12, plan.boot_disk)
            &&& b.subrange(p, p + 4) == codec::le_bytes(plan.smbios.len(), 4)
            &&& b.subrange(p + 4, q) == pairs
            &&& b.subrange(q, q + 4) == codec::le_bytes(plan.devices.len(), 4)
            &&& b.subrange(q + 4, b.len() as int) == devices
            &&& codec::byte_span(4) == 0x1_0000_0000
            &&& codec::byte_span(8) == 0x1_0000_0000_0000_0000
        }),
{
    let b = guest::plan_wire(plan);
    let p = 12 + text_takes(plan.boot_disk);
    let pairs = guest::pairs_wire(plan.smbios);
    let q = p + 4 + pairs.len();
    let devices = guest::devices_wire(plan.devices);
    codec::lemma_byte_spans();
    codec::lemma_le_bytes_len(plan.spec.cpu_count as nat, 4);
    codec::lemma_le_bytes_len(plan.spec.memory_bytes as nat, 8);
    codec::lemma_le_bytes_len(plan.smbios.len(), 4);
    codec::lemma_le_bytes_len(plan.devices.len(), 4);
    lemma_text_len(plan.boot_disk);
    assert(b.subrange(0, 4) =~= codec::le_bytes(plan.spec.cpu_count as nat, 4));
    assert(b.subrange(4, 12) =~= codec::le_bytes(plan.spec.memory_bytes as nat, 8));
    assert(b.subrange(12, p) =~= guest::text_wire(plan.boot_disk));
    lemma_text_stands(b, 12, plan.boot_disk);
    assert(b.subrange(p, p + 4) =~= codec::le_bytes(plan.smbios.len(), 4));
    assert(b.subrange(p + 4, q) =~= pairs);
    assert(b.subrange(q, q + 4) =~= codec::le_bytes(plan.devices.len(), 4));
    assert(b.subrange(q + 4, b.len() as int) =~= devices);
}

proof fn lemma_devices_len(devices: Seq<(u32, u32, u64)>)
    ensures
        guest::devices_wire(devices).len() == 16 * devices.len(),
    decreases devices.len(),
{
    if devices.len() > 0 {
        lemma_devices_len(devices.drop_first());
        codec::lemma_le_bytes_len(devices[0].0 as nat, 4);
        codec::lemma_le_bytes_len(devices[0].1 as nat, 4);
        codec::lemma_le_bytes_len(devices[0].2 as nat, 8);
    }
}

proof fn lemma_devices_push(devices: Seq<(u32, u32, u64)>, device: (u32, u32, u64))
    ensures
        guest::devices_wire(devices.push(device)) == guest::devices_wire(devices)
            + guest::device_wire(device),
    decreases devices.len(),
{
    let more = devices.push(device);
    if devices.len() > 0 {
        lemma_devices_push(devices.drop_first(), device);
        assert(more.drop_first() =~= devices.drop_first().push(device));
        assert(more[0] == devices[0]);
    } else {
        assert(more.drop_first() =~= Seq::empty());
        assert(guest::devices_wire(more.drop_first()) =~= Seq::empty());
    }
    assert(guest::devices_wire(more) =~= guest::devices_wire(devices) + guest::device_wire(device));
}

proof fn lemma_pairs_push(pairs: Seq<(Seq<char>, Seq<char>)>, pair: (Seq<char>, Seq<char>))
    ensures
        guest::pairs_wire(pairs.push(pair)) == guest::pairs_wire(pairs) + guest::pair_wire(pair),
    decreases pairs.len(),
{
    let more = pairs.push(pair);
    if pairs.len() > 0 {
        lemma_pairs_push(pairs.drop_first(), pair);
        assert(more.drop_first() =~= pairs.drop_first().push(pair));
        assert(more[0] == pairs[0]);
    } else {
        assert(more.drop_first() =~= Seq::empty());
        assert(guest::pairs_wire(more.drop_first()) =~= Seq::empty());
    }
    assert(guest::pairs_wire(more) =~= guest::pairs_wire(pairs) + guest::pair_wire(pair));
}

} // verus!
