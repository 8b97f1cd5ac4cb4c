//! Guest virtualization boundary.
//!
//! On Apple Silicon a guest runs on Apple's Virtualization framework;
//! everywhere else the backend is deliberately absent and every launch fails
//! closed. Nothing in this module reports that macOS booted.
use vstd::prelude::*;

use crate::codec;

verus! {

#[derive(Debug, PartialEq, Eq)]
pub enum GuestError {
    UnsupportedHost(&'static str),
    InvalidSpec(&'static str),
    BackendUnavailable,
    FrameworkSymbol(&'static str),
    AbiPending(&'static str),
}

/// The size of a guest.
#[derive(Debug, Clone, Copy, PartialEq, Eq, Structural)]
pub struct GuestSpec {
    pub cpu_count: u32,
    pub memory_bytes: u64,
}

#[derive(Debug, Clone, PartialEq, Eq)]
pub enum GuestState {
    Stopped,
    Running,
    Paused,
    Faulted(String),
}

/// Why a guest size is refused, if it is.
pub open spec fn spec_refusal(spec: GuestSpec) -> Option<GuestError> {
    if !(1 <= spec.cpu_count <= 255) {
        Some(GuestError::InvalidSpec("cpu_count out of range"))
    } else if spec.memory_bytes < 128 * 1024 * 1024 {
        Some(GuestError::InvalidSpec("memory below 128 MiB"))
    } else {
        None
    }
}

/// The verdict that goes with a refusal or the lack of one.
pub open spec fn verdict(refusal: Option<GuestError>) -> Result<(), GuestError> {
    match refusal {
        Some(error) => Err(error),
        None => Ok(()),
    }
}

impl GuestSpec {
    pub fn validate(&self) -> (outcome: Result<(), GuestError>)
        ensures
            outcome == verdict(spec_refusal(*self)),
    {
        if self.cpu_count == 0 || self.cpu_count > 255 {
            return Err(GuestError::InvalidSpec("cpu_count out of range"));
        }
        if self.memory_bytes < 128 * 1024 * 1024 {
            return Err(GuestError::InvalidSpec("memory below 128 MiB"));
        }
        Ok(())
    }
}

/// XSTATE migration domain. An execution cell must carry exactly the enabled
/// register state that a guest ABI expects: the SSE4.2 floor plus any enabled
/// vector state.
#[derive(Debug, Clone, Copy, PartialEq, Eq, Structural)]
pub struct XstateDomain {
    pub xcr0: u64,
}

/// Whether bit `n` of `value` is set.
pub open spec fn bit_set(value: u64, n: u64) -> bool {
    (value >> n) & 1 == 1
}

impl XstateDomain {
    pub const XCR0_X87: u64 = 1;

    pub const XCR0_SSE: u64 = 2;

    pub const XCR0_AVX: u64 = 4;

    pub const XCR0_SSE4_2_FLOOR: u64 = 3;

    pub fn from_xcr0(xcr0: u64) -> (domain: Self)
        ensures
            domain.xcr0 == xcr0,
    {
        XstateDomain { xcr0 }
    }

    /// Whether the x87 and the SSE state are both enabled.
    pub fn has_floored_state(&self) -> (yes: bool)
        ensures
            yes == (bit_set(self.xcr0, 0) && bit_set(self.xcr0, 1)),
    {
        let x: u64 = self.xcr0;
        assert(((x & 3) == 3) == (((x >> 0) & 1 == 1) && ((x >> 1) & 1 == 1))) by (bit_vector);
        (self.xcr0 & Self::XCR0_SSE4_2_FLOOR) == Self::XCR0_SSE4_2_FLOOR
    }

    /// Whether the AVX state is enabled.
    pub fn has_avx_state(&self) -> (yes: bool)
        ensures
            yes == bit_set(self.xcr0, 2),
    {
        let x: u64 = self.xcr0;
        assert(((x & 4) != 0) == ((x >> 2) & 1 == 1)) by (bit_vector);
        (self.xcr0 & Self::XCR0_AVX) != 0
    }

    /// How many general-purpose registers instruction emulation preserves
    /// across a trap.
    pub fn ise_gpr_saved_count(&self) -> (count: u32)
        ensures
            count == 16,
    {
        16
    }
}

/// Serialized guest launch plan. The plan is host-independent and fully
/// validated; applying it to a real VM is the backend's job.
#[derive(Debug, Clone, PartialEq, Eq)]
pub struct GuestLaunchPlan {
    pub spec: GuestSpec,
    pub boot_disk: String,
    pub smbios_override: Vec<(String, String)>,
    pub device_map: Vec<(u32, u32, u64)>,
}

/// The mathematical content of a launch plan.
#[verifier::ext_equal]
pub struct PlanModel {
    pub spec: GuestSpec,
    pub boot_disk: Seq<char>,
    pub smbios: Seq<(Seq<char>, Seq<char>)>,
    pub devices: Seq<(u32, u32, u64)>,
}

/// Pairs of texts as pairs of character sequences.
pub open spec fn text_pairs(pairs: Seq<(String, String)>) -> Seq<(Seq<char>, Seq<char>)> {
    Seq::new(pairs.len(), |i: int| (pairs[i].0@, pairs[i].1@))
}

impl View for GuestLaunchPlan {
    type V = PlanModel;

    open spec fn view(&self) -> PlanModel {
        PlanModel {
            spec: self.spec,
            boot_disk: self.boot_disk@,
            smbios: text_pairs(self.smbios_override@),
            devices: self.device_map@,
        }
    }
}

/// A length or a count on the wire: its 32 low-order bits.
pub open spec fn count_wire(n: nat) -> Seq<u8> {
    codec::le_bytes(n, 4)
}

/// A text on the wire: its length in bytes, then its UTF-8 form.
pub open spec fn text_wire(text: Seq<char>) -> Seq<u8> {
    let bytes = vstd::utf8::encode_utf8(text);
    count_wire(bytes.len()) + bytes
}

pub open spec fn pair_wire(pair: (Seq<char>, Seq<char>)) -> Seq<u8> {
    text_wire(pair.0) + text_wire(pair.1)
}

/// Firmware table overrides on the wire, one after the other.
pub open spec fn pairs_wire(pairs: Seq<(Seq<char>, Seq<char>)>) -> Seq<u8>
    decreases pairs.len(),
{
    if pairs.len() == 0 {
        Seq::empty()
    } else {
        pair_wire(pairs[0]) + pairs_wire(pairs.drop_first())
    }
}

pub open spec fn device_wire(device: (u32, u32, u64)) -> Seq<u8> {
    codec::le_bytes(device.0 as nat, 4) + codec::le_bytes(device.1 as nat, 4) + codec::le_bytes(
        device.2 as nat,
        8,
    )
}

/// Mapped devices on the wire, one after the other.
pub open spec fn devices_wire(devices: Seq<(u32, u32, u64)>) -> Seq<u8>
    decreases devices.len(),
{
    if devices.len() == 0 {
        Seq::empty()
    } else {
        device_wire(devices[0]) + devices_wire(devices.drop_first())
    }
}

/// A launch plan on the wire.
pub open spec fn plan_wire(plan: PlanModel) -> Seq<u8> {
    codec::le_bytes(plan.spec.cpu_count as nat, 4) + codec::le_bytes(
        plan.spec.memory_bytes as nat,
        8,
    ) + text_wire(plan.boot_disk) + count_wire(plan.smbios.len()) + pairs_wire(plan.smbios)
        + count_wire(plan.devices.len()) + devices_wire(plan.devices)
}

/// The error of a plan that ends too early.
pub open spec fn truncated_plan() -> GuestError {
    GuestError::InvalidSpec("truncated plan")
}

/// Reads a text from `p`: the text and where it ends.
pub open spec fn text_at(buf: Seq<u8>, p: int, refusal: GuestError) -> Result<
    (Seq<char>, int),
    GuestError,
> {
    if p + 4 > buf.len() {
        Err(truncated_plan())
    } else {
        let end = p + 4 + codec::le_value(buf.subrange(p, p + 4));
        if end > buf.len() {
            Err(truncated_plan())
        } else if !vstd::utf8::valid_utf8(buf.subrange(p + 4, end)) {
            Err(refusal)
        } else {
            Ok((vstd::utf8::decode_utf8(buf.subrange(p + 4, end)), end))
        }
    }
}

/// Reads `count` firmware table overrides from `p`, after those in `found`.
pub open spec fn pairs_at(
    buf: Seq<u8>,
    p: int,
    count: nat,
    found: Seq<(Seq<char>, Seq<char>)>,
) -> Result<(Seq<(Seq<char>, Seq<char>)>, int), GuestError>
    decreases count,
{
    if count == 0 {
        Ok((found, p))
    } else {
        match text_at(buf, p, GuestError::InvalidSpec("smbios key not utf-8")) {
            Err(error) => Err(error),
            Ok((key, q)) => match text_at(
                buf,
                q,
                GuestError::InvalidSpec("smbios value not utf-8"),
            ) {
                Err(error) => Err(error),
                Ok((value, r)) => pairs_at(buf, r, (count - 1) as nat, found.push((key, value))),
            },
        }
    }
}

/// Reads `count` mapped devices from `p`, after those in `found`.
pub open spec fn devices_at(
    buf: Seq<u8>,
    p: int,
    count: nat,
    found: Seq<(u32, u32, u64)>,
) -> Result<(Seq<(u32, u32, u64)>, int), GuestError>
    decreases count,
{
    if count == 0 {
        Ok((found, p))
    } else if p + 16 > buf.len() {
        Err(truncated_plan())
    } else {
        let device = (
            codec::le_value(buf.subrange(p, p + 4)) as u32,
            codec::le_value(buf.subrange(p + 4, p + 8)) as u32,
            codec::le_value(buf.subrange(p + 8, p + 16)) as u64,
        );
        devices_at(buf, p + 16, (count - 1) as nat, found.push(device))
    }
}

/// Reads the devices that end a plan, with their count, from `p`.
pub open spec fn device_list_at(buf: Seq<u8>, p: int) -> Result<
    (Seq<(u32, u32, u64)>, int),
    GuestError,
> {
    if p + 4 > buf.len() {
        Err(truncated_plan())
    } else {
        devices_at(buf, p + 4, codec::le_value(buf.subrange(p, p + 4)), Seq::empty())
    }
}

/// Reads the firmware table overrides, with their count, from `p`.
pub open spec fn pair_list_at(buf: Seq<u8>, p: int) -> Result<
    (Seq<(Seq<char>, Seq<char>)>, int),
    GuestError,
> {
    if p + 4 > buf.len() {
        Err(truncated_plan())
    } else {
        pairs_at(buf, p + 4, codec::le_value(buf.subrange(p, p + 4)), Seq::empty())
    }
}

/// Reads the guest size that starts a plan.
pub open spec fn spec_at_start(buf: Seq<u8>) -> Result<GuestSpec, GuestError> {
    if buf.len() < 12 {
        Err(truncated_plan())
    } else {
        let spec = GuestSpec {
            cpu_count: codec::le_value(buf.subrange(0, 4)) as u32,
            memory_bytes: codec::le_value(buf.subrange(4, 12)) as u64,
        };
        match spec_refusal(spec) {
            Some(error) => Err(error),
            None => Ok(spec),
        }
    }
}

/// Reads a plan from the start of `buf`: the plan and where it ends.
pub open spec fn plan_at_start(buf: Seq<u8>) -> Result<(PlanModel, int), GuestError> {
    match spec_at_start(buf) {
        Err(error) => Err(error),
        Ok(spec) => match text_at(buf, 12, GuestError::InvalidSpec("boot disk not utf-8")) {
            Err(error) => Err(error),
            Ok((boot_disk, p)) => if boot_disk.len() == 0 {
                Err(GuestError::InvalidSpec("empty boot disk"))
            } else {
                match pair_list_at(buf, p) {
                    Err(error) => Err(error),
                    Ok((smbios, q)) => match device_list_at(buf, q) {
                        Err(error) => Err(error),
                        Ok((devices, end)) => Ok(
                            (PlanModel { spec, boot_disk, smbios, devices }, end),
                        ),
                    },
                }
            },
        },
    }
}

/// The plan that `buf` is the wire form of, or why it is none.
pub open spec fn decoded_plan(buf: Seq<u8>) -> Result<PlanModel, GuestError> {
    match plan_at_start(buf) {
        Err(error) => Err(error),
        Ok((plan, end)) => if end != buf.len() {
            Err(GuestError::InvalidSpec("trailing bytes"))
        } else {
            Ok(plan)
        },
    }
}

/// What a decoding amounts to.
pub open spec fn plan_outcome(plan: Result<GuestLaunchPlan, GuestError>) -> Result<
    PlanModel,
    GuestError,
> {
    match plan {
        Ok(plan) => Ok(plan@),
        Err(error) => Err(error),
    }
}

/// Appends a text.
fn put_text(out: &mut Vec<u8>, text: &str)
    ensures
        final(out)@ == old(out)@ + text_wire(text@),
{
    let bytes: &[u8] = text.as_bytes();
    codec::put_le(out, bytes.len() as u64, 4);
    out.extend_from_slice(bytes);
}

/// Calls `String::from_utf8`: it succeeds on exactly the byte sequences that
/// are UTF-8, and gives the text that they encode.
#[verifier::external_body]
fn text_of_utf8(bytes: Vec<u8>) -> (text: Option<String>)
    ensures
        text is Some == vstd::utf8::valid_utf8(bytes@),
        text matches Some(t) ==> t@ == vstd::utf8::decode_utf8(bytes@),
{
    String::from_utf8(bytes).ok()
}

/// Reads a text from `p`.
fn read_text(buf: &[u8], p: usize, refusal: GuestError) -> (text: Result<
    (String, usize),
    GuestError,
>)
    requires
        p <= buf@.len(),
    ensures
        match text {
            Ok((text, end)) => text_at(buf@, p as int, refusal) == Ok::<(Seq<char>, int), GuestError>(
                (text@, end as int),
            ) && end <= buf@.len(),
            Err(error) => text_at(buf@, p as int, refusal) == Err::<(Seq<char>, int), GuestError>(
                error,
            ),
        },
{
    let left: usize = buf.len() - p;
    if left < 4 {
        return Err(GuestError::InvalidSpec("truncated plan"));
    }
    proof {
        codec::lemma_byte_spans();
    }
    let len: u64 = codec::get_le(buf, p, 4);
    if len > (left - 4) as u64 {
        return Err(GuestError::InvalidSpec("truncated plan"));
    }
    let end: usize = p + 4 + len as usize;
    let raw: Vec<u8> = vstd::slice::slice_to_vec(vstd::slice::slice_subrange(buf, p + 4, end));
    match text_of_utf8(raw) {
        Some(text) => Ok((text, end)),
        None => Err(refusal),
    }
}

impl GuestLaunchPlan {
    /// A plan without overrides and devices.
    pub fn new(spec: GuestSpec, boot_disk: String) -> (plan: Result<Self, GuestError>)
        ensures
            plan_outcome(plan) == match spec_refusal(spec) {
                Some(error) => Err(error),
                None => if boot_disk@.len() == 0 {
                    Err(GuestError::InvalidSpec("empty boot disk"))
                } else {
                    Ok(
                        (PlanModel {
                            spec,
                            boot_disk: boot_disk@,
                            smbios: Seq::empty(),
                            devices: Seq::empty(),
                        }),
                    )
                },
            },
    {
        spec.validate()?;
        if boot_disk.as_str().unicode_len() == 0 {
            return Err(GuestError::InvalidSpec("empty boot disk"));
        }
        let plan: GuestLaunchPlan = GuestLaunchPlan {
            spec,
            boot_disk,
            smbios_override: Vec::new(),
            device_map: Vec::new(),
        };
        assert(plan@.smbios =~= Seq::empty());
        Ok(plan)
    }

    /// Adds a firmware table override.
    pub fn smbios(&mut self, key: String, value: String) -> (plan: &mut Self)
        ensures
            plan@ == (PlanModel { smbios: old(self)@.smbios.push((key@, value@)), ..old(self)@ }),
            *final(self) == *final(plan),
    {
        self.smbios_override.push((key, value));
        self
    }

    /// Adds a mapped device.
    pub fn map_device(&mut self, vendor_id: u32, device_id: u32, mmio_len: u64) -> (plan: &mut Self)
        ensures
            plan@ == (PlanModel {
                devices: old(self)@.devices.push((vendor_id, device_id, mmio_len)),
                ..old(self)@
            }),
            *final(self) == *final(plan),
    {
        self.device_map.push((vendor_id, device_id, mmio_len));
        self
    }

    /// The wire form of the plan. Lengths and counts take 32 bits.
    pub fn encode(&self) -> (bytes: Vec<u8>)
        ensures
            bytes@ == plan_wire(self@),
    {
        let mut out: Vec<u8> = Vec::new();
        codec::put_le(&mut out, self.spec.cpu_count as u64, 4);
        codec::put_le(&mut out, self.spec.memory_bytes, 8);
        put_text(&mut out, self.boot_disk.as_str());
        codec::put_le(&mut out, self.smbios_override.len() as u64, 4);
        let ghost pairs = self@.smbios;
        let ghost start = out@;
        let mut i: usize = 0;
        assert(pairs.skip(0) =~= pairs);
        while i < self.smbios_override.len()
            invariant
                i <= self.smbios_override@.len(),
                pairs == text_pairs(self.smbios_override@),
                out@ + pairs_wire(pairs.skip(i as int)) == start + pairs_wire(pairs),
            decreases self.smbios_override@.len() - i,
        {
            let ghost rest = pairs.skip(i as int);
            let ghost before = out@;
            put_text(&mut out, self.smbios_override[i].0.as_str());
            put_text(&mut out, self.smbios_override[i].1.as_str());
            assert(rest[0] == pairs[i as int]);
            assert(rest.drop_first() =~= pairs.skip(i + 1));
            assert(out@ =~= before + pair_wire(pairs[i as int]));
            assert(out@ + pairs_wire(pairs.skip(i + 1)) =~= before + pairs_wire(rest));
            i = i + 1;
        }
        assert(out@ + pairs_wire(pairs.skip(i as int)) =~= out@);
        codec::put_le(&mut out, self.device_map.len() as u64, 4);
        let ghost devices = self@.devices;
        let ghost start = out@;
        let mut j: usize = 0;
        assert(devices.skip(0) =~= devices);
        while j < self.device_map.len()
            invariant
                j <= self.device_map@.len(),
                devices == self.device_map@,
                out@ + devices_wire(devices.skip(j as int)) == start + devices_wire(devices),
            decreases self.device_map@.len() - j,
        {
            let ghost rest = devices.skip(j as int);
            let ghost before = out@;
            codec::put_le(&mut out, self.device_map[j].0 as u64, 4);
            codec::put_le(&mut out, self.device_map[j].1 as u64, 4);
            codec::put_le(&mut out, self.device_map[j].2, 8);
            assert(rest[0] == devices[j as int]);
            assert(rest.drop_first() =~= devices.skip(j + 1));
            assert(out@ =~= before + device_wire(devices[j as int]));
            assert(out@ + devices_wire(devices.skip(j + 1)) =~= before + devices_wire(rest));
            j = j + 1;
        }
        assert(out@ + devices_wire(devices.skip(j as int)) =~= out@);
        out
    }

    /// The plan that `buf` is the wire form of.
    pub fn decode(buf: &[u8]) -> (plan: Result<Self, GuestError>)
        ensures
            plan_outcome(plan) == decoded_plan(buf@),
    {
        proof {
            codec::lemma_byte_spans();
        }
        if buf.len() < 12 {
            return Err(GuestError::InvalidSpec("truncated plan"));
        }
        let spec: GuestSpec = GuestSpec {
            cpu_count: codec::get_le(buf, 0, 4) as u32,
            memory_bytes: codec::get_le(buf, 4, 8),
        };
        spec.validate()?;
        let (boot_disk, at): (String, usize) = read_text(
            buf,
            12,
            GuestError::InvalidSpec("boot disk not utf-8"),
        )?;
        let mut plan: GuestLaunchPlan = GuestLaunchPlan::new(spec, boot_disk)?;
        let mut p: usize = at;
        if buf.len() - p < 4 {
            return Err(GuestError::InvalidSpec("truncated plan"));
        }
        let smbios_count: u64 = codec::get_le(buf, p, 4);
        p = p + 4;
        let ghost start = plan@;
        let ghost pairs = pair_list_at(buf@, at as int);
        let mut i: u64 = 0;
        while i < smbios_count
            invariant
                i <= smbios_count,
                p <= buf@.len(),
                plan@ == (PlanModel { smbios: plan@.smbios, ..start }),
                pairs == pairs_at(buf@, p as int, (smbios_count - i) as nat, plan@.smbios),
                pairs is Err ==> decoded_plan(buf@) == Err::<PlanModel, GuestError>(pairs->Err_0),
            decreases smbios_count - i,
        {
            let (key, q): (String, usize) = read_text(
                buf,
                p,
                GuestError::InvalidSpec("smbios key not utf-8"),
            )?;
            let (value, r): (String, usize) = read_text(
                buf,
                q,
                GuestError::InvalidSpec("smbios value not utf-8"),
            )?;
            let ghost found = plan@.smbios;
            plan.smbios_override.push((key, value));
            assert(plan@.smbios =~= found.push((key@, value@)));
            p = r;
            i = i + 1;
        }
        if buf.len() - p < 4 {
            return Err(GuestError::InvalidSpec("truncated plan"));
        }
        let ghost listed = plan@;
        let ghost devices = device_list_at(buf@, p as int);
        let device_count: u64 = codec::get_le(buf, p, 4);
        p = p + 4;
        let mut j: u64 = 0;
        while j < device_count
            invariant
                j <= device_count,
                p <= buf@.len(),
                plan@ == (PlanModel { devices: plan@.devices, ..listed }),
                devices == devices_at(buf@, p as int, (device_count - j) as nat, plan@.devices),
                devices is Err ==> decoded_plan(buf@) == Err::<PlanModel, GuestError>(
                    devices->Err_0,
                ),
            decreases device_count - j,
        {
            proof {
                codec::lemma_byte_spans();
            }
            if buf.len() - p < 16 {
                return Err(GuestError::InvalidSpec("truncated plan"));
            }
            let device: (u32, u32, u64) = (
                codec::get_le(buf, p, 4) as u32,
                codec::get_le(buf, p + 4, 4) as u32,
                codec::get_le(buf, p + 8, 8),
            );
            plan.device_map.push(device);
            p = p + 16;
            j = j + 1;
        }
        if p != buf.len() {
            return Err(GuestError::InvalidSpec("trailing bytes"));
        }
        Ok(plan)
    }
}

/// Backend contract for launching the guest.
pub trait VirtualizationBackend {
    fn name(&self) -> &'static str;

    fn available(&self) -> bool;

    fn launch(&self, plan: &GuestLaunchPlan) -> Result<GuestState, GuestError>;

    fn pause(&self) -> Result<GuestState, GuestError>;

    fn resume(&self) -> Result<GuestState, GuestError>;
}

/// Fail-closed backend used on every host that is not a supported Apple
/// Silicon target, or where the framework probe fails.
#[derive(Debug)]
pub struct UnsupportedBackend;

impl VirtualizationBackend for UnsupportedBackend {
    fn name(&self) -> (name: &'static str)
        ensures
            name@ == "unsupported"@,
    {
        "unsupported"
    }

    fn available(&self) -> (yes: bool)
        ensures
            !yes,
    {
        false
    }

    fn launch(&self, plan: &GuestLaunchPlan) -> (state: Result<GuestState, GuestError>)
        ensures
            state == Err::<GuestState, GuestError>(
                GuestError::UnsupportedHost("no virtualization backend on this host"),
            ),
    {
        Err(GuestError::UnsupportedHost("no virtualization backend on this host"))
    }

    fn pause(&self) -> (state: Result<GuestState, GuestError>)
        ensures
            state == Err::<GuestState, GuestError>(GuestError::BackendUnavailable),
    {
        Err(GuestError::BackendUnavailable)
    }

    fn resume(&self) -> (state: Result<GuestState, GuestError>)
        ensures
            state == Err::<GuestState, GuestError>(GuestError::BackendUnavailable),
    {
        Err(GuestError::BackendUnavailable)
    }
}

/// Apple Silicon backend over Apple's Virtualization framework, which stays
/// loaded for as long as `framework` lives. Starting a machine through the
/// framework needs an Objective-C message flow whose selector and block ABI
/// is not verified yet: a launch says so instead of claiming success.
#[derive(Debug)]
pub struct AppleVirtualizationBackend<F> {
    framework: F,
}

impl<F> AppleVirtualizationBackend<F> {
    /// The loaded framework.
    pub closed spec fn framework(&self) -> F {
        self.framework
    }

    /// Judges a discovery: the framework, if it could be loaded, and whether
    /// its configuration class was found in it.
    pub fn probe(framework: Option<F>, config_class_found: bool) -> (backend: Result<
        Self,
        GuestError,
    >)
        ensures
            match (backend, framework) {
                (Err(error), None) => error == GuestError::BackendUnavailable,
                (Err(error), Some(_)) => !config_class_found && error
                    == GuestError::FrameworkSymbol("VZVirtualMachineConfiguration"),
                (Ok(backend), Some(loaded)) => config_class_found && backend.framework() == loaded,
                (Ok(_), None) => false,
            },
    {
        match framework {
            None => Err(GuestError::BackendUnavailable),
            Some(framework) => if config_class_found {
                Ok(AppleVirtualizationBackend { framework })
            } else {
                Err(GuestError::FrameworkSymbol("VZVirtualMachineConfiguration"))
            },
        }
    }
}

impl<F> VirtualizationBackend for AppleVirtualizationBackend<F> {
    fn name(&self) -> (name: &'static str)
        ensures
            name@ == "apple-virtualization"@,
    {
        "apple-virtualization"
    }

    fn available(&self) -> (yes: bool)
        ensures
            yes,
    {
        true
    }

    fn launch(&self, plan: &GuestLaunchPlan) -> (state: Result<GuestState, GuestError>)
        ensures
            state == Err::<GuestState, GuestError>(
                match spec_refusal(plan.spec) {
                    Some(error) => error,
                    None => GuestError::AbiPending(
                        "VZ launch requires verified Objective-C ABI on an Apple Silicon host",
                    ),
                },
            ),
    {
        plan.spec.validate()?;
        Err(
            GuestError::AbiPending(
                "VZ launch requires verified Objective-C ABI on an Apple Silicon host",
            ),
        )
    }

    fn pause(&self) -> (state: Result<GuestState, GuestError>)
        ensures
            state == Err::<GuestState, GuestError>(
                GuestError::AbiPending("VZ pause selector unverified"),
            ),
    {
        Err(GuestError::AbiPending("VZ pause selector unverified"))
    }

    fn resume(&self) -> (state: Result<GuestState, GuestError>)
        ensures
            state == Err::<GuestState, GuestError>(
                GuestError::AbiPending("VZ resume selector unverified"),
            ),
    {
        Err(GuestError::AbiPending("VZ resume selector unverified"))
    }
}

/// The backend of a host.
#[derive(Debug)]
pub enum HostBackend<F> {
    Apple(AppleVirtualizationBackend<F>),
    Unsupported(UnsupportedBackend),
}

impl<F> VirtualizationBackend for HostBackend<F> {
    fn name(&self) -> (name: &'static str)
        ensures
            name@ == if self is Apple {
                "apple-virtualization"@
            } else {
                "unsupported"@
            },
    {
        match self {
            HostBackend::Apple(backend) => backend.name(),
            HostBackend::Unsupported(backend) => backend.name(),
        }
    }

    fn available(&self) -> (yes: bool)
        ensures
            yes == (self is Apple),
    {
        match self {
            HostBackend::Apple(backend) => backend.available(),
            HostBackend::Unsupported(backend) => backend.available(),
        }
    }

    /// No backend reports a guest as started.
    fn launch(&self, plan: &GuestLaunchPlan) -> (state: Result<GuestState, GuestError>)
        ensures
            state is Err,
            self is Unsupported ==> state == Err::<GuestState, GuestError>(
                GuestError::UnsupportedHost("no virtualization backend on this host"),
            ),
            self is Apple ==> state == Err::<GuestState, GuestError>(
                match spec_refusal(plan.spec) {
                    Some(error) => error,
                    None => GuestError::AbiPending(
                        "VZ launch requires verified Objective-C ABI on an Apple Silicon host",
                    ),
                },
            ),
    {
        match self {
            HostBackend::Apple(backend) => backend.launch(plan),
            HostBackend::Unsupported(backend) => backend.launch(plan),
        }
    }

    fn pause(&self) -> (state: Result<GuestState, GuestError>)
        ensures
            state == Err::<GuestState, GuestError>(
                match self {
                    HostBackend::Apple(_) => GuestError::AbiPending("VZ pause selector unverified"),
                    HostBackend::Unsupported(_) => GuestError::BackendUnavailable,
                },
            ),
    {
        match self {
            HostBackend::Apple(backend) => backend.pause(),
            HostBackend::Unsupported(backend) => backend.pause(),
        }
    }

    fn resume(&self) -> (state: Result<GuestState, GuestError>)
        ensures
            state == Err::<GuestState, GuestError>(
                match self {
                    HostBackend::Apple(_) => GuestError::AbiPending("VZ resume selector unverified"),
                    HostBackend::Unsupported(_) => GuestError::BackendUnavailable,
                },
            ),
    {
        match self {
            HostBackend::Apple(backend) => backend.resume(),
            HostBackend::Unsupported(backend) => backend.resume(),
        }
    }
}

/// Selects the backend for a host whose framework probe gave `probed`. A host
/// that has no such framework counts as one whose probe failed.
pub fn current_backend<F>(
    probed: Result<AppleVirtualizationBackend<F>, GuestError>,
) -> (backend: HostBackend<F>)
    ensures
        backend == match probed {
            Ok(apple) => HostBackend::Apple(apple),
            Err(_) => HostBackend::Unsupported(UnsupportedBackend),
        },
{
    match probed {
        Ok(apple) => HostBackend::Apple(apple),
        Err(_) => HostBackend::Unsupported(UnsupportedBackend),
    }
}

/// Whether a text's length in bytes fits in 32 bits.
pub open spec fn text_fits(text: Seq<char>) -> bool {
    vstd::utf8::encode_utf8(text).len() < 0x1_0000_0000
}

/// Whether every text and count of a plan fits in 32 bits.
pub open spec fn plan_fits(plan: PlanModel) -> bool {
    &&& text_fits(plan.boot_disk)
    &&& plan.smbios.len() < 0x1_0000_0000
    &&& pairs_fit(plan.smbios)
    &&& plan.devices.len() < 0x1_0000_0000
}

pub open spec fn pairs_fit(pairs: Seq<(Seq<char>, Seq<char>)>) -> bool {
    forall|i: int|
        0 <= i < pairs.len() ==> text_fits((#[trigger] pairs[i]).0) && text_fits(pairs[i].1)
}

/// Whether a plan is one that `GuestLaunchPlan::new` can start.
pub open spec fn plan_valid(plan: PlanModel) -> bool {
    spec_refusal(plan.spec) is None && plan.boot_disk.len() > 0
}

/// A count reads back as it was written.
proof fn lemma_count_at(buf: Seq<u8>, p: int, n: nat)
    requires
        0 <= p,
        p + 4 <= buf.len(),
        buf.subrange(p, p + 4) == count_wire(n),
        n < 0x1_0000_0000,
    ensures
        codec::le_value(buf.subrange(p, p + 4)) == n,
{
    codec::lemma_byte_spans();
    codec::lemma_le_value_of_bytes(n, 4);
}

/// A text reads back as it was written.
proof fn lemma_text_at(buf: Seq<u8>, p: int, text: Seq<char>, refusal: GuestError)
    requires
        0 <= p,
        p + text_wire(text).len() <= buf.len(),
        buf.subrange(p, p + text_wire(text).len()) == text_wire(text),
        text_fits(text),
    ensures
        text_at(buf, p, refusal) == Ok::<(Seq<char>, int), GuestError>(
            (text, p + text_wire(text).len()),
        ),
        text_wire(text).len() == 4 + vstd::utf8::encode_utf8(text).len(),
{
    let bytes = vstd::utf8::encode_utf8(text);
    codec::lemma_le_bytes_len(bytes.len(), 4);
    let whole = buf.subrange(p, p + text_wire(text).len());
    assert(buf.subrange(p, p + 4) =~= whole.subrange(0, 4));
    assert(whole.subrange(0, 4) =~= count_wire(bytes.len()));
    lemma_count_at(buf, p, bytes.len());
    assert(buf.subrange(p + 4, p + 4 + bytes.len()) =~= whole.subrange(
        4,
        4 + bytes.len() as int,
    ));
    assert(whole.subrange(4, 4 + bytes.len() as int) =~= bytes);
    vstd::utf8::encode_utf8_valid_utf8(text);
    vstd::utf8::encode_utf8_decode_utf8(text);
}

/// Firmware table overrides read back as they were written.
proof fn lemma_pairs_at(
    buf: Seq<u8>,
    p: int,
    pairs: Seq<(Seq<char>, Seq<char>)>,
    found: Seq<(Seq<char>, Seq<char>)>,
)
    requires
        0 <= p,
        p + pairs_wire(pairs).len() <= buf.len(),
        buf.subrange(p, p + pairs_wire(pairs).len()) == pairs_wire(pairs),
        pairs_fit(pairs),
    ensures
        pairs_at(buf, p, pairs.len(), found) == Ok::<
            (Seq<(Seq<char>, Seq<char>)>, int),
            GuestError,
        >((found + pairs, p + pairs_wire(pairs).len())),
    decreases pairs.len(),
{
    if pairs.len() == 0 {
        assert(found + pairs =~= found);
    } else {
        let (key, value) = pairs[0];
        let rest = pairs.drop_first();
        let whole = buf.subrange(p, p + pairs_wire(pairs).len());
        let a = text_wire(key).len() as int;
        let b = text_wire(value).len() as int;
        assert(buf.subrange(p, p + a) =~= whole.subrange(0, a));
        assert(whole.subrange(0, a) =~= text_wire(key));
        lemma_text_at(buf, p, key, GuestError::InvalidSpec("smbios key not utf-8"));
        assert(buf.subrange(p + a, p + a + b) =~= whole.subrange(a, a + b));
        assert(whole.subrange(a, a + b) =~= text_wire(value));
        lemma_text_at(buf, p + a, value, GuestError::InvalidSpec("smbios value not utf-8"));
        let n = whole.len() as int;
        assert(buf.subrange(p + a + b, p + n) =~= whole.subrange(a + b, n));
        assert(whole.subrange(a + b, n) =~= pairs_wire(rest));
        assert forall|i: int| 0 <= i < rest.len() implies text_fits((#[trigger] rest[i]).0)
            && text_fits(rest[i].1) by {
            assert(rest[i] == pairs[i + 1]);
        }
        lemma_pairs_at(buf, p + a + b, rest, found.push((key, value)));
        assert(found.push((key, value)) + rest =~= found + pairs);
    }
}

/// Mapped devices read back as they were written.
proof fn lemma_devices_at(
    buf: Seq<u8>,
    p: int,
    devices: Seq<(u32, u32, u64)>,
    found: Seq<(u32, u32, u64)>,
)
    requires
        0 <= p,
        p + devices_wire(devices).len() <= buf.len(),
        buf.subrange(p, p + devices_wire(devices).len()) == devices_wire(devices),
    ensures
        devices_at(buf, p, devices.len(), found) == Ok::<(Seq<(u32, u32, u64)>, int), GuestError>(
            (found + devices, p + devices_wire(devices).len()),
        ),
    decreases devices.len(),
{
    if devices.len() == 0 {
        assert(found + devices =~= found);
    } else {
        let device = devices[0];
        let rest = devices.drop_first();
        let whole = buf.subrange(p, p + devices_wire(devices).len());
        codec::lemma_byte_spans();
        codec::lemma_le_bytes_len(device.0 as nat, 4);
        codec::lemma_le_bytes_len(device.1 as nat, 4);
        codec::lemma_le_bytes_len(device.2 as nat, 8);
        codec::lemma_le_value_of_bytes(device.0 as nat, 4);
        codec::lemma_le_value_of_bytes(device.1 as nat, 4);
        codec::lemma_le_value_of_bytes(device.2 as nat, 8);
        assert(whole == device_wire(device) + devices_wire(rest));
        assert(buf.subrange(p, p + 4) =~= codec::le_bytes(device.0 as nat, 4)) by {
            assert(buf.subrange(p, p + 4) =~= whole.subrange(0, 4));
        }
        assert(buf.subrange(p + 4, p + 8) =~= codec::le_bytes(device.1 as nat, 4)) by {
            assert(buf.subrange(p + 4, p + 8) =~= whole.subrange(4, 8));
        }
        assert(buf.subrange(p + 8, p + 16) =~= codec::le_bytes(device.2 as nat, 8)) by {
            assert(buf.subrange(p + 8, p + 16) =~= whole.subrange(8, 16));
        }
        let n = whole.len() as int;
        assert(buf.subrange(p + 16, p + n) =~= whole.subrange(16, n));
        assert(whole.subrange(16, n) =~= devices_wire(rest));
        lemma_devices_at(buf, p + 16, rest, found.push(device));
        assert(found.push(device) + rest =~= found + devices);
    }
}

/// A valid plan whose texts and counts fit in 32 bits decodes from its wire
/// form as itself.
pub proof fn law_plan_roundtrip(plan: PlanModel)
    requires
        plan_valid(plan),
        plan_fits(plan),
    ensures
        decoded_plan(plan_wire(plan)) == Ok::<PlanModel, GuestError>(plan),
{
    let buf = plan_wire(plan);
    let disk = text_wire(plan.boot_disk).len() as int;
    let pairs = pairs_wire(plan.smbios).len() as int;
    let devices = devices_wire(plan.devices).len() as int;
    codec::lemma_byte_spans();
    codec::lemma_le_bytes_len(plan.spec.cpu_count as nat, 4);
    codec::lemma_le_bytes_len(plan.spec.memory_bytes as nat, 8);
    codec::lemma_le_bytes_len(plan.smbios.len(), 4);
    codec::lemma_le_bytes_len(plan.devices.len(), 4);
    codec::lemma_le_value_of_bytes(plan.spec.cpu_count as nat, 4);
    codec::lemma_le_value_of_bytes(plan.spec.memory_bytes as nat, 8);
    assert(buf.subrange(0, 4) =~= codec::le_bytes(plan.spec.cpu_count as nat, 4));
    assert(buf.subrange(4, 12) =~= codec::le_bytes(plan.spec.memory_bytes as nat, 8));
    assert(buf.subrange(12, 12 + disk) =~= text_wire(plan.boot_disk));
    lemma_text_at(buf, 12, plan.boot_disk, GuestError::InvalidSpec("boot disk not utf-8"));
    let p = 12 + disk;
    assert(buf.subrange(p, p + 4) =~= count_wire(plan.smbios.len()));
    lemma_count_at(buf, p, plan.smbios.len());
    assert(buf.subrange(p + 4, p + 4 + pairs) =~= pairs_wire(plan.smbios));
    lemma_pairs_at(buf, p + 4, plan.smbios, Seq::empty());
    assert(Seq::<(Seq<char>, Seq<char>)>::empty() + plan.smbios =~= plan.smbios);
    let q = p + 4 + pairs;
    assert(buf.subrange(q, q + 4) =~= count_wire(plan.devices.len()));
    lemma_count_at(buf, q, plan.devices.len());
    assert(buf.subrange(q + 4, q + 4 + devices) =~= devices_wire(plan.devices));
    lemma_devices_at(buf, q + 4, plan.devices, Seq::empty());
    assert(Seq::<(u32, u32, u64)>::empty() + plan.devices =~= plan.devices);
    assert(q + 4 + devices == buf.len());
}

/// A text that was read is what its bytes are the wire form of.
proof fn lemma_text_read(buf: Seq<u8>, p: int, refusal: GuestError)
    requires
        0 <= p,
        text_at(buf, p, refusal) is Ok,
    ensures
        ({
            let (text, end) = text_at(buf, p, refusal)->Ok_0;
            &&& p + 4 <= end <= buf.len()
            &&& buf.subrange(p, end) == text_wire(text)
            &&& text_fits(text)
        }),
{
    let (text, end) = text_at(buf, p, refusal)->Ok_0;
    let head = buf.subrange(p, p + 4);
    let raw = buf.subrange(p + 4, end);
    codec::lemma_byte_spans();
    codec::lemma_le_bytes_of_value(head);
    vstd::utf8::decode_utf8_encode_utf8(raw);
    assert(buf.subrange(p, end) =~= head + raw);
}

/// Overrides that were read are what their bytes are the wire form of.
proof fn lemma_pairs_read(
    buf: Seq<u8>,
    p: int,
    count: nat,
    found: Seq<(Seq<char>, Seq<char>)>,
)
    requires
        0 <= p <= buf.len(),
        pairs_at(buf, p, count, found) is Ok,
    ensures
        ({
            let (all, end) = pairs_at(buf, p, count, found)->Ok_0;
            let read = all.skip(found.len() as int);
            &&& p <= end <= buf.len()
            &&& all.len() == found.len() + count
            &&& all.take(found.len() as int) == found
            &&& buf.subrange(p, end) == pairs_wire(read)
            &&& pairs_fit(read)
        }),
    decreases count,
{
    let (all, end) = pairs_at(buf, p, count, found)->Ok_0;
    let read = all.skip(found.len() as int);
    if count == 0 {
        assert(all.take(found.len() as int) =~= found);
        assert(buf.subrange(p, end) =~= Seq::empty());
    } else {
        let key_refusal = GuestError::InvalidSpec("smbios key not utf-8");
        let value_refusal = GuestError::InvalidSpec("smbios value not utf-8");
        let (key, q) = text_at(buf, p, key_refusal)->Ok_0;
        lemma_text_read(buf, p, key_refusal);
        let (value, r) = text_at(buf, q, value_refusal)->Ok_0;
        lemma_text_read(buf, q, value_refusal);
        let more = found.push((key, value));
        lemma_pairs_read(buf, r, (count - 1) as nat, more);
        assert(all.take(found.len() as int) =~= all.take(more.len() as int).take(
            found.len() as int,
        ));
        assert(more.take(found.len() as int) =~= found);
        assert(read[0] == all.take(more.len() as int)[found.len() as int]);
        assert(read.drop_first() =~= all.skip(more.len() as int));
        assert(buf.subrange(p, end) =~= buf.subrange(p, q) + buf.subrange(q, r) + buf.subrange(
            r,
            end,
        ));
        assert(pairs_wire(read) =~= buf.subrange(p, end));
        assert forall|i: int| 0 <= i < read.len() implies text_fits((#[trigger] read[i]).0)
            && text_fits(read[i].1) by {
            if i > 0 {
                assert(read[i] == all.skip(more.len() as int)[i - 1]);
            }
        }
    }
}

/// Devices that were read are what their bytes are the wire form of.
proof fn lemma_devices_read(buf: Seq<u8>, p: int, count: nat, found: Seq<(u32, u32, u64)>)
    requires
        0 <= p <= buf.len(),
        devices_at(buf, p, count, found) is Ok,
    ensures
        ({
            let (all, end) = devices_at(buf, p, count, found)->Ok_0;
            let read = all.skip(found.len() as int);
            &&& p <= end <= buf.len()
            &&& all.len() == found.len() + count
            &&& all.take(found.len() as int) == found
            &&& buf.subrange(p, end) == devices_wire(read)
        }),
    decreases count,
{
    let (all, end) = devices_at(buf, p, count, found)->Ok_0;
    let read = all.skip(found.len() as int);
    if count == 0 {
        assert(all.take(found.len() as int) =~= found);
        assert(buf.subrange(p, end) =~= Seq::empty());
    } else {
        let device = (
            codec::le_value(buf.subrange(p, p + 4)) as u32,
            codec::le_value(buf.subrange(p + 4, p + 8)) as u32,
            codec::le_value(buf.subrange(p + 8, p + 16)) as u64,
        );
        codec::lemma_byte_spans();
        codec::lemma_le_bytes_of_value(buf.subrange(p, p + 4));
        codec::lemma_le_bytes_of_value(buf.subrange(p + 4, p + 8));
        codec::lemma_le_bytes_of_value(buf.subrange(p + 8, p + 16));
        assert(device_wire(device) =~= buf.subrange(p, p + 16));
        let more = found.push(device);
        lemma_devices_read(buf, p + 16, (count - 1) as nat, more);
        assert(all.take(found.len() as int) =~= all.take(more.len() as int).take(
            found.len() as int,
        ));
        assert(more.take(found.len() as int) =~= found);
        assert(read[0] == all.take(more.len() as int)[found.len() as int]);
        assert(read.drop_first() =~= all.skip(more.len() as int));
        assert(buf.subrange(p, end) =~= buf.subrange(p, p + 16) + buf.subrange(p + 16, end));
    }
}

/// A plan read from the start of a buffer is what its bytes are the wire form
/// of.
proof fn lemma_plan_read(buf: Seq<u8>)
    requires
        plan_at_start(buf) is Ok,
    ensures
        ({
            let (plan, end) = plan_at_start(buf)->Ok_0;
            &&& 0 <= end <= buf.len()
            &&& buf.subrange(0, end) == plan_wire(plan)
            &&& plan_valid(plan)
            &&& plan_fits(plan)
        }),
{
    let (plan, end) = plan_at_start(buf)->Ok_0;
    codec::lemma_byte_spans();
    codec::lemma_le_bytes_of_value(buf.subrange(0, 4));
    codec::lemma_le_bytes_of_value(buf.subrange(4, 12));
    let refusal = GuestError::InvalidSpec("boot disk not utf-8");
    lemma_text_read(buf, 12, refusal);
    let (boot_disk, p) = text_at(buf, 12, refusal)->Ok_0;
    codec::lemma_le_bytes_of_value(buf.subrange(p, p + 4));
    lemma_pairs_read(buf, p + 4, codec::le_value(buf.subrange(p, p + 4)), Seq::empty());
    let (smbios, q) = pair_list_at(buf, p)->Ok_0;
    assert(smbios.skip(0) =~= smbios);
    codec::lemma_le_bytes_of_value(buf.subrange(q, q + 4));
    lemma_devices_read(buf, q + 4, codec::le_value(buf.subrange(q, q + 4)), Seq::empty());
    assert(plan.devices.skip(0) =~= plan.devices);
    assert(buf.subrange(0, end) =~= buf.subrange(0, 4) + buf.subrange(4, 12) + buf.subrange(12, p)
        + buf.subrange(p, p + 4) + buf.subrange(p + 4, q) + buf.subrange(q, q + 4) + buf.subrange(
        q + 4,
        end,
    ));
}

/// Only the wire form of a plan decodes as that plan, and only valid plans
/// are decoded.
pub proof fn law_plan_wire_is_faithful(buf: Seq<u8>)
    requires
        decoded_plan(buf) is Ok,
    ensures
        plan_wire(decoded_plan(buf)->Ok_0) == buf,
        plan_valid(decoded_plan(buf)->Ok_0),
        plan_fits(decoded_plan(buf)->Ok_0),
{
    lemma_plan_read(buf);
    assert(buf.subrange(0, buf.len() as int) =~= buf);
}

/// What reads from a buffer reads the same from a longer one.
proof fn lemma_text_extends(buf: Seq<u8>, k: int, p: int, refusal: GuestError)
    requires
        0 <= p,
        0 <= k <= buf.len(),
        text_at(buf.take(k), p, refusal) is Ok,
    ensures
        text_at(buf, p, refusal) == text_at(buf.take(k), p, refusal),
{
    let (_, end) = text_at(buf.take(k), p, refusal)->Ok_0;
    assert(buf.take(k).subrange(p, p + 4) =~= buf.subrange(p, p + 4));
    assert(buf.take(k).subrange(p + 4, end) =~= buf.subrange(p + 4, end));
}

proof fn lemma_pairs_extend(
    buf: Seq<u8>,
    k: int,
    p: int,
    count: nat,
    found: Seq<(Seq<char>, Seq<char>)>,
)
    requires
        0 <= p,
        0 <= k <= buf.len(),
        pairs_at(buf.take(k), p, count, found) is Ok,
    ensures
        pairs_at(buf, p, count, found) == pairs_at(buf.take(k), p, count, found),
    decreases count,
{
    if count > 0 {
        let key_refusal = GuestError::InvalidSpec("smbios key not utf-8");
        let value_refusal = GuestError::InvalidSpec("smbios value not utf-8");
        let (key, q) = text_at(buf.take(k), p, key_refusal)->Ok_0;
        lemma_text_extends(buf, k, p, key_refusal);
        lemma_text_read(buf.take(k), p, key_refusal);
        let (value, r) = text_at(buf.take(k), q, value_refusal)->Ok_0;
        lemma_text_extends(buf, k, q, value_refusal);
        lemma_text_read(buf.take(k), q, value_refusal);
        lemma_pairs_extend(buf, k, r, (count - 1) as nat, found.push((key, value)));
    }
}

proof fn lemma_devices_extend(
    buf: Seq<u8>,
    k: int,
    p: int,
    count: nat,
    found: Seq<(u32, u32, u64)>,
)
    requires
        0 <= p,
        0 <= k <= buf.len(),
        devices_at(buf.take(k), p, count, found) is Ok,
    ensures
        devices_at(buf, p, count, found) == devices_at(buf.take(k), p, count, found),
    decreases count,
{
    if count > 0 {
        let short = buf.take(k);
        assert(short.subrange(p, p + 4) =~= buf.subrange(p, p + 4));
        assert(short.subrange(p + 4, p + 8) =~= buf.subrange(p + 4, p + 8));
        assert(short.subrange(p + 8, p + 16) =~= buf.subrange(p + 8, p + 16));
        let device = (
            codec::le_value(buf.subrange(p, p + 4)) as u32,
            codec::le_value(buf.subrange(p + 4, p + 8)) as u32,
            codec::le_value(buf.subrange(p + 8, p + 16)) as u64,
        );
        lemma_devices_extend(buf, k, p + 16, (count - 1) as nat, found.push(device));
    }
}

proof fn lemma_plan_extends(buf: Seq<u8>, k: int)
    requires
        0 <= k <= buf.len(),
        plan_at_start(buf.take(k)) is Ok,
    ensures
        plan_at_start(buf) == plan_at_start(buf.take(k)),
{
    let short = buf.take(k);
    assert(short.subrange(0, 4) =~= buf.subrange(0, 4));
    assert(short.subrange(4, 12) =~= buf.subrange(4, 12));
    let refusal = GuestError::InvalidSpec("boot disk not utf-8");
    lemma_text_extends(buf, k, 12, refusal);
    lemma_text_read(short, 12, refusal);
    let (_, p) = text_at(short, 12, refusal)->Ok_0;
    assert(short.subrange(p, p + 4) =~= buf.subrange(p, p + 4));
    let pair_count = codec::le_value(buf.subrange(p, p + 4));
    lemma_pairs_extend(buf, k, p + 4, pair_count, Seq::empty());
    lemma_pairs_read(short, p + 4, pair_count, Seq::empty());
    let (_, q) = pair_list_at(short, p)->Ok_0;
    assert(short.subrange(q, q + 4) =~= buf.subrange(q, q + 4));
    lemma_devices_extend(buf, k, q + 4, codec::le_value(buf.subrange(q, q + 4)), Seq::empty());
}

/// A text that reads from a buffer reads the same from a part of it, or is
/// truncated there.
proof fn lemma_text_shortened(buf: Seq<u8>, k: int, p: int, refusal: GuestError)
    requires
        0 <= p,
        0 <= k <= buf.len(),
        text_at(buf, p, refusal) is Ok,
    ensures
        text_at(buf.take(k), p, refusal) == text_at(buf, p, refusal) || text_at(
            buf.take(k),
            p,
            refusal,
        ) == Err::<(Seq<char>, int), GuestError>(truncated_plan()),
{
    let (_, end) = text_at(buf, p, refusal)->Ok_0;
    if p + 4 <= k {
        assert(buf.take(k).subrange(p, p + 4) =~= buf.subrange(p, p + 4));
    }
    if end <= k {
        assert(buf.take(k).subrange(p + 4, end) =~= buf.subrange(p + 4, end));
    }
}

proof fn lemma_pairs_shortened(
    buf: Seq<u8>,
    k: int,
    p: int,
    count: nat,
    found: Seq<(Seq<char>, Seq<char>)>,
)
    requires
        0 <= p,
        0 <= k <= buf.len(),
        pairs_at(buf, p, count, found) is Ok,
    ensures
        pairs_at(buf.take(k), p, count, found) == pairs_at(buf, p, count, found) || pairs_at(
            buf.take(k),
            p,
            count,
            found,
        ) == Err::<(Seq<(Seq<char>, Seq<char>)>, int), GuestError>(truncated_plan()),
    decreases count,
{
    if count > 0 {
        let key_refusal = GuestError::InvalidSpec("smbios key not utf-8");
        let value_refusal = GuestError::InvalidSpec("smbios value not utf-8");
        let (key, q) = text_at(buf, p, key_refusal)->Ok_0;
        lemma_text_shortened(buf, k, p, key_refusal);
        lemma_text_read(buf, p, key_refusal);
        let (value, r) = text_at(buf, q, value_refusal)->Ok_0;
        lemma_text_shortened(buf, k, q, value_refusal);
        lemma_text_read(buf, q, value_refusal);
        lemma_pairs_shortened(buf, k, r, (count - 1) as nat, found.push((key, value)));
    }
}

proof fn lemma_devices_shortened(
    buf: Seq<u8>,
    k: int,
    p: int,
    count: nat,
    found: Seq<(u32, u32, u64)>,
)
    requires
        0 <= p,
        0 <= k <= buf.len(),
        devices_at(buf, p, count, found) is Ok,
    ensures
        devices_at(buf.take(k), p, count, found) == devices_at(buf, p, count, found) || devices_at(
            buf.take(k),
            p,
            count,
            found,
        ) == Err::<(Seq<(u32, u32, u64)>, int), GuestError>(truncated_plan()),
    decreases count,
{
    if count > 0 && p + 16 <= k {
        let short = buf.take(k);
        assert(short.subrange(p, p + 4) =~= buf.subrange(p, p + 4));
        assert(short.subrange(p + 4, p + 8) =~= buf.subrange(p + 4, p + 8));
        assert(short.subrange(p + 8, p + 16) =~= buf.subrange(p + 8, p + 16));
        let device = (
            codec::le_value(buf.subrange(p, p + 4)) as u32,
            codec::le_value(buf.subrange(p + 4, p + 8)) as u32,
            codec::le_value(buf.subrange(p + 8, p + 16)) as u64,
        );
        lemma_devices_shortened(buf, k, p + 16, (count - 1) as nat, found.push(device));
    }
}

proof fn lemma_plan_shortened(buf: Seq<u8>, k: int)
    requires
        0 <= k <= buf.len(),
        plan_at_start(buf) is Ok,
    ensures
        plan_at_start(buf.take(k)) == plan_at_start(buf) || plan_at_start(buf.take(k)) == Err::<
            (PlanModel, int),
            GuestError,
        >(truncated_plan()),
{
    let short = buf.take(k);
    if k >= 12 {
        assert(short.subrange(0, 4) =~= buf.subrange(0, 4));
        assert(short.subrange(4, 12) =~= buf.subrange(4, 12));
        let refusal = GuestError::InvalidSpec("boot disk not utf-8");
        lemma_text_shortened(buf, k, 12, refusal);
        lemma_text_read(buf, 12, refusal);
        let (_, p) = text_at(buf, 12, refusal)->Ok_0;
        let pair_count = codec::le_value(buf.subrange(p, p + 4));
        lemma_pairs_shortened(buf, k, p + 4, pair_count, Seq::empty());
        lemma_pairs_read(buf, p + 4, pair_count, Seq::empty());
        let (_, q) = pair_list_at(buf, p)->Ok_0;
        let device_count = codec::le_value(buf.subrange(q, q + 4));
        lemma_devices_shortened(buf, k, q + 4, device_count, Seq::empty());
        if p + 4 <= k {
            assert(short.subrange(p, p + 4) =~= buf.subrange(p, p + 4));
        }
        if q + 4 <= k {
            assert(short.subrange(q, q + 4) =~= buf.subrange(q, q + 4));
        }
    }
}

/// A plan's wire form that ends early is refused as truncated, wherever it
/// ends.
pub proof fn law_plan_truncation_rejected(buf: Seq<u8>, k: int)
    requires
        decoded_plan(buf) is Ok,
        0 <= k < buf.len(),
    ensures
        decoded_plan(buf.take(k)) == Err::<PlanModel, GuestError>(truncated_plan()),
{
    lemma_plan_shortened(buf, k);
    if plan_at_start(buf.take(k)) is Ok {
        lemma_plan_read(buf.take(k));
    }
}

/// A plan's wire form with anything after it is refused as such.
pub proof fn law_plan_trailing_bytes_rejected(buf: Seq<u8>, extra: Seq<u8>)
    requires
        decoded_plan(buf) is Ok,
        extra.len() > 0,
    ensures
        decoded_plan(buf + extra) == Err::<PlanModel, GuestError>(
            GuestError::InvalidSpec("trailing bytes"),
        ),
{
    assert((buf + extra).take(buf.len() as int) =~= buf);
    lemma_plan_extends(buf + extra, buf.len() as int);
}

} // verus!
