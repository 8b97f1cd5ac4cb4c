//! Grant transport of the graphics service cell.
//!
//! A granted message is the 64-byte envelope alone; its payload lies in a
//! separately granted object. The root supplies trusted, current metadata and
//! an immutable window of that object. Nothing here creates a grant, holds a
//! reference or authenticates the root's inputs.
use vstd::prelude::*;

use crate::sgpu;
use crate::sgpu::{SgpuError, SgpuFrame};
use crate::vf_abi;
use crate::vf_abi::{
    VfMsgHeader, VF_ABI_MAJOR, VF_FAMILY_BLOCK, VF_FAMILY_ROOT, VF_FAMILY_SGPU, VF_MSG_BYTES,
    VF_MSG_MAGIC, VF_PAYLOAD_MAX, VF_SGPU_SUBMIT_COMMAND_LIST,
};

verus! {

pub const VF_POLICY_TABLE_MAX: usize = 4096;

pub const VF_RIGHT_READ: u32 = 1;

pub const VF_RIGHT_WRITE: u32 = 2;

pub const VF_RIGHT_ALL: u32 = 255;

pub const VF_OBJECT_GRANT: u32 = 1;

pub const VF_CAP_LIVE: u32 = 1;

pub const VF_GRANT_LIVE: u32 = 1;

/// Refusals of the grant policy.
#[derive(Debug, Clone, Copy, PartialEq, Eq, Structural)]
pub enum GrantError {
    /// Invalid grant argument.
    Einval,
    /// Grant header ABI mismatch.
    Eabi,
    /// Unsupported operation.
    Enotsup,
    /// Stale grant capability or lifecycle.
    Estale,
    /// Grant permission or route denied.
    Eperm,
    /// Grant or snapshot range exceeded.
    Erange,
    /// Ambiguous caller-scoped grant slot.
    Eambig,
}

/// The signed status of a refusal, as the policy's C interface numbers it.
pub open spec fn status_code(error: GrantError) -> int {
    match error {
        GrantError::Einval => -1,
        GrantError::Eabi => -2,
        GrantError::Enotsup => -3,
        GrantError::Estale => -4,
        GrantError::Eperm => -5,
        GrantError::Erange => -6,
        GrantError::Eambig => -9,
    }
}

impl GrantError {
    pub fn status(self) -> (status: i32)
        ensures
            status == status_code(self),
    {
        match self {
            GrantError::Einval => -1,
            GrantError::Eabi => -2,
            GrantError::Enotsup => -3,
            GrantError::Estale => -4,
            GrantError::Eperm => -5,
            GrantError::Erange => -6,
            GrantError::Eambig => -9,
        }
    }
}

/// A capability as the root keeps it.
#[derive(Debug, Clone, Copy, PartialEq, Eq, Structural)]
pub struct VfCapEntry {
    pub slot: u32,
    pub generation: u32,
    pub holder_cell: u32,
    pub object_type: u32,
    pub rights: u32,
    pub state: u32,
    pub object_id: u64,
    pub valid_from: u64,
    pub expires_at: u64,
}

/// What the policy looks at of a locked canonical grant. Reference counts,
/// page flags and revocation acknowledgements stay with the root.
#[derive(Debug, Clone, Copy, PartialEq, Eq, Structural)]
pub struct VfGrantEntry {
    pub cap: VfCapEntry,
    pub bytes: u64,
    pub owner_cell: u32,
    pub state: u32,
}

/// An immutable window that the root has bound to this canonical grant.
/// `snapshot_offset` is where in the grant the window starts; no pointer.
#[derive(Debug, Clone, Copy)]
pub struct VfGrantSnapshot<'a> {
    pub entry: &'a VfGrantEntry,
    pub snapshot_offset: u64,
    pub data: &'a [u8],
}

/// Whether an opcode is known in its family.
pub open spec fn known_opcode(family: u16, opcode: u16) -> bool {
    ||| family == VF_FAMILY_ROOT && 1 <= opcode <= 9
    ||| family == VF_FAMILY_BLOCK && 1 <= opcode <= 3
    ||| family == VF_FAMILY_SGPU && 1 <= opcode <= 7
}

/// Whether an envelope has the shape of a granted message.
pub open spec fn grant_header_verdict(h: VfMsgHeader) -> Result<(), GrantError> {
    if h.magic != VF_MSG_MAGIC || h.abi_major != VF_ABI_MAJOR || h.header_bytes != VF_MSG_BYTES
        || h.message_bytes != VF_MSG_BYTES || h.reserved0 != 0 {
        Err(GrantError::Eabi)
    } else if h.flags != 0 {
        Err(GrantError::Einval)
    } else if !known_opcode(h.family, h.opcode) {
        Err(GrantError::Enotsup)
    } else if h.payload_bytes == 0 {
        if h.payload_grant == 0 && h.payload_offset == 0 {
            Ok(())
        } else {
            Err(GrantError::Einval)
        }
    } else if h.payload_grant == 0 || h.payload_offset % 8 != 0 {
        Err(GrantError::Einval)
    } else if h.payload_bytes > VF_PAYLOAD_MAX || h.payload_offset + h.payload_bytes > u64::MAX {
        Err(GrantError::Erange)
    } else {
        Ok(())
    }
}

/// Checks the shape of a granted message. The inline profile of
/// [`VfMsgHeader::validate_shape`] is another one.
pub fn validate_grant_header(h: &VfMsgHeader) -> (outcome: Result<(), GrantError>)
    ensures
        outcome == grant_header_verdict(*h),
{
    if h.magic != VF_MSG_MAGIC || h.abi_major != VF_ABI_MAJOR || h.header_bytes as u32
        != VF_MSG_BYTES || h.message_bytes != VF_MSG_BYTES || h.reserved0 != 0 {
        return Err(GrantError::Eabi);
    }
    if h.flags != 0 {
        return Err(GrantError::Einval);
    }
    let last: u16 = if h.family == VF_FAMILY_ROOT {
        9
    } else if h.family == VF_FAMILY_BLOCK {
        3
    } else if h.family == VF_FAMILY_SGPU {
        7
    } else {
        0
    };
    if h.opcode == 0 || h.opcode > last {
        return Err(GrantError::Enotsup);
    }
    if h.payload_bytes == 0 {
        return if h.payload_grant == 0 && h.payload_offset == 0 {
            Ok(())
        } else {
            Err(GrantError::Einval)
        };
    }
    if h.payload_grant == 0 || h.payload_offset % 8 != 0 {
        return Err(GrantError::Einval);
    }
    if h.payload_bytes > VF_PAYLOAD_MAX || h.payload_offset.checked_add(
        h.payload_bytes as u64,
    ).is_none() {
        return Err(GrantError::Erange);
    }
    Ok(())
}

/// The granted message that bytes spell out, or why they spell none.
pub open spec fn decoded_grant_header(bytes: Seq<u8>) -> Result<VfMsgHeader, GrantError> {
    if bytes.len() != 64 {
        Err(GrantError::Eabi)
    } else {
        let h = vf_abi::header_of_wire(bytes);
        match grant_header_verdict(h) {
            Err(error) => Err(error),
            Ok(_) => Ok(h),
        }
    }
}

pub fn decode_grant_header(bytes: &[u8]) -> (header: Result<VfMsgHeader, GrantError>)
    ensures
        header == decoded_grant_header(bytes@),
{
    match VfMsgHeader::decode(bytes) {
        Err(_) => Err(GrantError::Eabi),
        Ok(header) => {
            validate_grant_header(&header)?;
            Ok(header)
        },
    }
}

/// The slot that a grant handle names: its low-order half.
pub open spec fn handle_slot(handle: u64) -> int {
    handle as int % 0x1_0000_0000
}

/// The handle of a capability: its generation above its slot.
pub open spec fn cap_handle(cap: VfCapEntry) -> int {
    cap.generation * 0x1_0000_0000 + cap.slot
}

/// Whether every right in `required` is among `rights`.
pub open spec fn rights_cover(rights: u32, required: u32) -> bool {
    required & rights == required
}

/// Whether a snapshot is for the caller's slot that the message names.
pub open spec fn names_snapshot(h: VfMsgHeader, snapshot: VfGrantSnapshot, caller_cell: u32) -> bool {
    &&& snapshot.entry.cap.holder_cell == caller_cell
    &&& snapshot.entry.cap.slot == handle_slot(h.payload_grant)
}

/// Whether a grant admits the message, in the order in which refusals count.
pub open spec fn entry_verdict(
    h: VfMsgHeader,
    grant: VfGrantEntry,
    required_rights: u32,
    now: u64,
) -> Result<(), GrantError> {
    let cap = grant.cap;
    if cap.slot == 0 || cap.generation == 0 || cap_handle(cap) != h.payload_grant || cap.state
        != VF_CAP_LIVE || !(cap.valid_from <= now < cap.expires_at) {
        Err(GrantError::Estale)
    } else if cap.object_id == 0 || cap.object_type != VF_OBJECT_GRANT || cap.rights > VF_RIGHT_ALL
        || !rights_cover(cap.rights, required_rights) {
        Err(GrantError::Eperm)
    } else if grant.state != VF_GRANT_LIVE || grant.owner_cell == 0 {
        Err(GrantError::Estale)
    } else if h.payload_offset + h.payload_bytes > grant.bytes {
        Err(GrantError::Erange)
    } else {
        Ok(())
    }
}

/// Whether a policy query is one that can be answered.
pub open spec fn query_valid(table_len: nat, caller_cell: u32, required_rights: u32) -> bool {
    &&& table_len <= VF_POLICY_TABLE_MAX
    &&& caller_cell != 0
    &&& 1 <= required_rights <= VF_RIGHT_READ + VF_RIGHT_WRITE
}

/// Whether two snapshots of the table are for the slot that a message names.
pub open spec fn ambiguous(h: VfMsgHeader, table: Seq<VfGrantSnapshot>, caller_cell: u32) -> bool {
    exists|i: int, j: int|
        0 <= i < j < table.len() && #[trigger] names_snapshot(h, table[i], caller_cell)
            && #[trigger] names_snapshot(h, table[j], caller_cell)
}

/// Whether some snapshot of the table is for the slot that a message names.
pub open spec fn named(h: VfMsgHeader, table: Seq<VfGrantSnapshot>, caller_cell: u32) -> bool {
    exists|i: int| 0 <= i < table.len() && #[trigger] names_snapshot(h, table[i], caller_cell)
}

/// Which snapshot of the table is for the slot that a message names.
pub open spec fn named_index(h: VfMsgHeader, table: Seq<VfGrantSnapshot>, caller_cell: u32) -> int {
    choose|i: int| 0 <= i < table.len() && #[trigger] names_snapshot(h, table[i], caller_cell)
}

/// The snapshot that admits a message: none for a message without a payload.
pub open spec fn grant_verdict(
    h: VfMsgHeader,
    table: Seq<VfGrantSnapshot>,
    caller_cell: u32,
    required_rights: u32,
    now: u64,
) -> Result<Option<int>, GrantError> {
    if !query_valid(table.len(), caller_cell, required_rights) {
        Err(GrantError::Einval)
    } else {
        match grant_header_verdict(h) {
            Err(error) => Err(error),
            Ok(_) => if h.payload_bytes == 0 {
                Ok(None)
            } else if ambiguous(h, table, caller_cell) {
                Err(GrantError::Eambig)
            } else if !named(h, table, caller_cell) {
                Err(GrantError::Estale)
            } else {
                let i = named_index(h, table, caller_cell);
                match entry_verdict(h, *table[i].entry, required_rights, now) {
                    Err(error) => Err(error),
                    Ok(_) => Ok(Some(i)),
                }
            },
        }
    }
}

/// Checks one grant against a message.
fn check_entry(h: &VfMsgHeader, grant: &VfGrantEntry, required_rights: u32, now: u64) -> (outcome:
    Result<(), GrantError>)
    requires
        h.payload_bytes <= VF_PAYLOAD_MAX,
    ensures
        outcome == entry_verdict(*h, *grant, required_rights, now),
{
    let cap: VfCapEntry = grant.cap;
    let handle: u64 = cap.generation as u64 * 0x1_0000_0000 + cap.slot as u64;
    if cap.slot == 0 || cap.generation == 0 || handle != h.payload_grant || cap.state != VF_CAP_LIVE
        || cap.valid_from >= cap.expires_at || now < cap.valid_from || now >= cap.expires_at {
        return Err(GrantError::Estale);
    }
    if cap.object_id == 0 || cap.object_type != VF_OBJECT_GRANT || cap.rights > VF_RIGHT_ALL
        || required_rights & cap.rights != required_rights {
        return Err(GrantError::Eperm);
    }
    if grant.state != VF_GRANT_LIVE || grant.owner_cell == 0 {
        return Err(GrantError::Estale);
    }
    if h.payload_offset > grant.bytes || h.payload_bytes as u64 > grant.bytes - h.payload_offset {
        return Err(GrantError::Erange);
    }
    Ok(())
}

/// Finds the snapshot that admits a message. This checks policy only: whether
/// the snapshot's window covers the payload is checked before it is used.
pub fn validate_payload_grant<'a, 'b>(
    header: &VfMsgHeader,
    table: &'a [VfGrantSnapshot<'b>],
    caller_cell: u32,
    required_rights: u32,
    now: u64,
) -> (found: Result<Option<&'a VfGrantSnapshot<'b>>, GrantError>)
    ensures
        match (found, grant_verdict(*header, table@, caller_cell, required_rights, now)) {
            (Err(error), Err(refusal)) => error == refusal,
            (Ok(None), Ok(None)) => true,
            (Ok(Some(snapshot)), Ok(Some(i))) => *snapshot == table@[i],
            _ => false,
        },
{
    if table.len() > VF_POLICY_TABLE_MAX || caller_cell == 0 || required_rights == 0
        || required_rights > VF_RIGHT_READ + VF_RIGHT_WRITE {
        return Err(GrantError::Einval);
    }
    validate_grant_header(header)?;
    if header.payload_bytes == 0 {
        return Ok(None);
    }
    let slot: u64 = header.payload_grant % 0x1_0000_0000;
    let mut found: Option<usize> = None;
    let mut i: usize = 0;
    while i < table.len()
        invariant
            i <= table@.len(),
            slot == handle_slot(header.payload_grant),
            match found {
                Some(at) => at < i && names_snapshot(*header, table@[at as int], caller_cell),
                None => true,
            },
            forall|k: int|
                0 <= k < i && #[trigger] names_snapshot(*header, table@[k], caller_cell)
                    ==> found == Some(k as usize),
            query_valid(table@.len(), caller_cell, required_rights),
            grant_header_verdict(*header) is Ok,
            header.payload_bytes != 0,
        decreases table@.len() - i,
    {
        let cap: VfCapEntry = table[i].entry.cap;
        if cap.holder_cell == caller_cell && cap.slot as u64 == slot {
            assert(names_snapshot(*header, table@[i as int], caller_cell));
            if found.is_some() {
                return Err(GrantError::Eambig);
            }
            found = Some(i);
        }
        i = i + 1;
    }
    match found {
        None => Err(GrantError::Estale),
        Some(at) => {
            assert(named_index(*header, table@, caller_cell) == at);
            check_entry(header, table[at].entry, required_rights, now)?;
            Ok(Some(&table[at]))
        },
    }
}

/// The payload bytes of a message in a snapshot's window.
pub open spec fn window_verdict(h: VfMsgHeader, snapshot: VfGrantSnapshot) -> Result<
    Seq<u8>,
    GrantError,
> {
    let start = h.payload_offset - snapshot.snapshot_offset;
    if snapshot.snapshot_offset + snapshot.data@.len() > snapshot.entry.bytes {
        Err(GrantError::Erange)
    } else if start < 0 || start + h.payload_bytes > snapshot.data@.len() {
        Err(GrantError::Erange)
    } else {
        Ok(snapshot.data@.subrange(start, start + h.payload_bytes))
    }
}

/// What a window amounts to.
pub open spec fn window_outcome(window: Result<&[u8], GrantError>) -> Result<Seq<u8>, GrantError> {
    match window {
        Ok(bytes) => Ok(bytes@),
        Err(error) => Err(error),
    }
}

/// The payload bytes of a message in a snapshot's window. The window must lie
/// inside its grant, and the payload inside the window.
pub fn payload_window<'a>(header: &VfMsgHeader, snapshot: &VfGrantSnapshot<'a>) -> (window: Result<
    &'a [u8],
    GrantError,
>)
    ensures
        window_outcome(window) == window_verdict(*header, *snapshot),
{
    let window_end: u64 = match snapshot.snapshot_offset.checked_add(snapshot.data.len() as u64) {
        Some(end) => end,
        None => return Err(GrantError::Erange),
    };
    if window_end > snapshot.entry.bytes {
        return Err(GrantError::Erange);
    }
    if header.payload_offset < snapshot.snapshot_offset {
        return Err(GrantError::Erange);
    }
    let start: u64 = header.payload_offset - snapshot.snapshot_offset;
    let end: u64 = match start.checked_add(header.payload_bytes as u64) {
        Some(end) => end,
        None => return Err(GrantError::Erange),
    };
    if end > snapshot.data.len() as u64 {
        return Err(GrantError::Erange);
    }
    Ok(vstd::slice::slice_subrange(snapshot.data, start as usize, end as usize))
}

/// How far a list of commands got that failed while it ran.
#[derive(Debug, Clone, PartialEq, Eq)]
pub struct SgpuSubmissionError {
    /// How many commands were completed; they stay done.
    pub completed: usize,
    /// Which command failed, where one did.
    pub command_index: Option<usize>,
    pub reason: String,
}

#[derive(Debug)]
pub enum GrantSubmitError {
    Grant(GrantError),
    /// The inline frame is refused.
    Inline(SgpuError),
    /// The commands were refused or failed.
    Submission(SgpuSubmissionError),
}

impl From<GrantError> for GrantSubmitError {
    fn from(error: GrantError) -> (wrapped: Self) {
        GrantSubmitError::Grant(error)
    }
}

impl vstd::std_specs::convert::FromSpecImpl<GrantError> for GrantSubmitError {
    open spec fn obeys_from_spec() -> bool {
        true
    }

    open spec fn from_spec(error: GrantError) -> Self {
        GrantSubmitError::Grant(error)
    }
}

impl From<SgpuError> for GrantSubmitError {
    fn from(error: SgpuError) -> (wrapped: Self) {
        GrantSubmitError::Inline(error)
    }
}

impl vstd::std_specs::convert::FromSpecImpl<SgpuError> for GrantSubmitError {
    open spec fn obeys_from_spec() -> bool {
        true
    }

    open spec fn from_spec(error: SgpuError) -> Self {
        GrantSubmitError::Inline(error)
    }
}

impl From<SgpuSubmissionError> for GrantSubmitError {
    fn from(error: SgpuSubmissionError) -> (wrapped: Self) {
        GrantSubmitError::Submission(error)
    }
}

impl vstd::std_specs::convert::FromSpecImpl<SgpuSubmissionError> for GrantSubmitError {
    open spec fn obeys_from_spec() -> bool {
        true
    }

    open spec fn from_spec(error: SgpuSubmissionError) -> Self {
        GrantSubmitError::Submission(error)
    }
}

/// The granted envelope for an inline frame, or why there is none.
pub open spec fn granted_header(frame: SgpuFrame, grant_handle: u64, grant_offset: u64) -> Result<
    VfMsgHeader,
    GrantSubmitError,
> {
    let h = VfMsgHeader {
        message_bytes: VF_MSG_BYTES,
        payload_grant: grant_handle,
        payload_offset: grant_offset,
        ..frame.header
    };
    match sgpu::frame_refusal(frame.header, frame.payload@) {
        Some(error) => Err(GrantSubmitError::Inline(error)),
        None => match grant_header_verdict(h) {
            Err(error) => Err(GrantSubmitError::Grant(error)),
            Ok(_) => Ok(h),
        },
    }
}

/// Turns an inline frame into a granted message and the payload that the root
/// still has to put into the grant. This creates no grant and no authority.
pub fn inline_to_grant<'a>(frame: &'a SgpuFrame, grant_handle: u64, grant_offset: u64) -> (message:
    Result<([u8; 64], &'a [u8]), GrantSubmitError>)
    ensures
        match (message, granted_header(*frame, grant_handle, grant_offset)) {
            (Ok((wire, payload)), Ok(h)) => wire@ == h.wire() && payload@ == frame.payload@,
            (Err(error), Err(refusal)) => error == refusal,
            _ => false,
        },
{
    if let Err(error) = frame.validate() {
        return Err(GrantSubmitError::Inline(error));
    }
    let mut header: VfMsgHeader = frame.header;
    header.message_bytes = VF_MSG_BYTES;
    header.payload_grant = grant_handle;
    header.payload_offset = grant_offset;
    if let Err(error) = validate_grant_header(&header) {
        return Err(GrantSubmitError::Grant(error));
    }
    Ok((header.encode(), frame.payload.as_slice()))
}

/// A route that the root has bound: one caller cell and one endpoint, with the
/// compute session that serves them. Construction authenticates nothing; no
/// session takes authority from inline frames.
#[derive(Debug)]
pub struct SgpuGrantSession<C> {
    caller_cell: u32,
    endpoint_handle: u64,
    compute: C,
}

/// Whether a route can be bound at all: the cell and both halves of the
/// endpoint's handle are there.
pub open spec fn route_valid(caller_cell: u32, endpoint_handle: u64) -> bool {
    &&& caller_cell != 0
    &&& endpoint_handle as int % 0x1_0000_0000 != 0
    &&& endpoint_handle as int / 0x1_0000_0000 != 0
}

/// The message and the payload that a route admits, or why it admits none.
pub open spec fn authorized(
    bound_cell: u32,
    endpoint_handle: u64,
    header_bytes: Seq<u8>,
    table: Seq<VfGrantSnapshot>,
    caller_cell: u32,
    now: u64,
) -> Result<(VfMsgHeader, Seq<u8>), GrantError> {
    match decoded_grant_header(header_bytes) {
        Err(error) => Err(error),
        Ok(h) => if h.family != VF_FAMILY_SGPU || h.opcode != VF_SGPU_SUBMIT_COMMAND_LIST {
            Err(GrantError::Enotsup)
        } else if caller_cell != bound_cell || h.object != endpoint_handle {
            Err(GrantError::Eperm)
        } else {
            match grant_verdict(h, table, caller_cell, VF_RIGHT_READ, now) {
                Err(error) => Err(error),
                Ok(None) => Ok((h, Seq::empty())),
                Ok(Some(i)) => match window_verdict(h, table[i]) {
                    Err(error) => Err(error),
                    Ok(payload) => Ok((h, payload)),
                },
            }
        },
    }
}

/// The inline envelope of an admitted message: the payload right behind it,
/// and no grant.
pub open spec fn inline_header(h: VfMsgHeader) -> VfMsgHeader {
    VfMsgHeader {
        message_bytes: (VF_MSG_BYTES + h.payload_bytes) as u32,
        payload_grant: 0,
        payload_offset: 0,
        ..h
    }
}

impl<C> SgpuGrantSession<C> {
    /// The cell that the route is bound to.
    pub closed spec fn bound_cell(&self) -> u32 {
        self.caller_cell
    }

    /// The endpoint that the route is bound to.
    pub closed spec fn endpoint(&self) -> u64 {
        self.endpoint_handle
    }

    /// The compute session that serves the route.
    pub closed spec fn executor(&self) -> C {
        self.compute
    }

    /// What the route admits.
    pub open spec fn admits(
        &self,
        header_bytes: Seq<u8>,
        table: Seq<VfGrantSnapshot>,
        caller_cell: u32,
        now: u64,
    ) -> Result<(VfMsgHeader, Seq<u8>), GrantError> {
        authorized(self.bound_cell(), self.endpoint(), header_bytes, table, caller_cell, now)
    }

    pub fn new(compute: C, caller_cell: u32, endpoint_handle: u64) -> (session: Result<
        Self,
        GrantError,
    >)
        ensures
            match session {
                Ok(session) => {
                    &&& route_valid(caller_cell, endpoint_handle)
                    &&& session.bound_cell() == caller_cell
                    &&& session.endpoint() == endpoint_handle
                    &&& session.executor() == compute
                },
                Err(error) => !route_valid(caller_cell, endpoint_handle) && error
                    == GrantError::Einval,
            },
    {
        if caller_cell == 0 || endpoint_handle % 0x1_0000_0000 == 0 || endpoint_handle
            / 0x1_0000_0000 == 0 {
            return Err(GrantError::Einval);
        }
        Ok(SgpuGrantSession { caller_cell, endpoint_handle, compute })
    }

    /// Checks a message against the route and the grants: the message and the
    /// payload it may read.
    pub fn authorize<'a>(
        &self,
        header_bytes: &[u8],
        table: &[VfGrantSnapshot<'a>],
        caller_cell: u32,
        now: u64,
    ) -> (admitted: Result<(VfMsgHeader, &'a [u8]), GrantError>)
        ensures
            match (admitted, self.admits(header_bytes@, table@, caller_cell, now)) {
                (Ok((header, payload)), Ok((h, bytes))) => header == h && payload@ == bytes,
                (Err(error), Err(refusal)) => error == refusal,
                _ => false,
            },
    {
        let header: VfMsgHeader = decode_grant_header(header_bytes)?;
        if header.family != VF_FAMILY_SGPU || header.opcode != VF_SGPU_SUBMIT_COMMAND_LIST {
            return Err(GrantError::Enotsup);
        }
        if caller_cell != self.caller_cell || header.object != self.endpoint_handle {
            return Err(GrantError::Eperm);
        }
        match validate_payload_grant(&header, table, caller_cell, VF_RIGHT_READ, now)? {
            Some(snapshot) => {
                let payload: &'a [u8] = payload_window(&header, snapshot)?;
                Ok((header, payload))
            },
            None => {
                let nothing: &'a [u8] = &[];
                assert(nothing@ =~= Seq::empty());
                Ok((header, nothing))
            },
        }
    }

    /// Admits a command list: the bytes to hand to the compute session.
    pub fn submit<'a>(
        &self,
        header: &[u8],
        table: &[VfGrantSnapshot<'a>],
        caller_cell: u32,
        now: u64,
    ) -> (commands: Result<&'a [u8], GrantSubmitError>)
        ensures
            match (commands, self.admits(header@, table@, caller_cell, now)) {
                (Ok(bytes), Ok((_, payload))) => bytes@ == payload,
                (Err(error), Err(refusal)) => error == GrantSubmitError::Grant(refusal),
                _ => false,
            },
    {
        match self.authorize(header, table, caller_cell, now) {
            Ok((_, payload)) => Ok(payload),
            Err(error) => Err(GrantSubmitError::Grant(error)),
        }
    }

    /// Reports how the compute session got on with an admitted list: how many
    /// commands it completed, also where it failed.
    pub fn finish_submit(&self, ran: Result<usize, SgpuSubmissionError>) -> (outcome: Result<
        usize,
        GrantSubmitError,
    >)
        ensures
            outcome == match ran {
                Ok(completed) => Ok::<usize, GrantSubmitError>(completed),
                Err(error) => Err(GrantSubmitError::Submission(error)),
            },
    {
        match ran {
            Ok(completed) => Ok(completed),
            Err(error) => Err(GrantSubmitError::Submission(error)),
        }
    }

    /// Turns an admitted message into an inline frame, in a buffer that was
    /// reserved for its payload; `None` stands for a reservation that failed.
    pub fn to_reserved_inline(
        &self,
        header: &[u8],
        table: &[VfGrantSnapshot<'_>],
        caller_cell: u32,
        now: u64,
        reserved: Option<Vec<u8>>,
    ) -> (frame: Result<SgpuFrame, GrantSubmitError>)
        requires
            reserved matches Some(buffer) ==> buffer@.len() == 0,
        ensures
            match (self.admits(header@, table@, caller_cell, now), reserved) {
                (Err(refusal), _) => frame == Err::<SgpuFrame, GrantSubmitError>(
                    GrantSubmitError::Grant(refusal),
                ),
                (Ok(_), None) => frame == Err::<SgpuFrame, GrantSubmitError>(
                    GrantSubmitError::Inline(SgpuError::ResourceLimit),
                ),
                (Ok((h, payload)), Some(_)) => frame matches Ok(frame) && frame.header
                    == inline_header(h) && frame.payload@ == payload,
            },
    {
        let (message, payload): (VfMsgHeader, &[u8]) = match self.authorize(
            header,
            table,
            caller_cell,
            now,
        ) {
            Ok(admitted) => admitted,
            Err(error) => return Err(GrantSubmitError::Grant(error)),
        };
        match reserved {
            None => Err(GrantSubmitError::Inline(SgpuError::ResourceLimit)),
            Some(mut copy) => {
                copy.extend_from_slice(payload);
                assert(copy@ =~= payload@);
                let mut inline: VfMsgHeader = message;
                inline.message_bytes = VF_MSG_BYTES + message.payload_bytes;
                inline.payload_grant = 0;
                inline.payload_offset = 0;
                Ok(SgpuFrame { header: inline, payload: copy })
            },
        }
    }

    /// Turns an admitted message into an inline frame: a data container, which
    /// carries no authority into a later submission. The only failure on an
    /// admitted message is one to allocate room for its payload, where it has
    /// one.
    pub fn to_inline(
        &self,
        header: &[u8],
        table: &[VfGrantSnapshot<'_>],
        caller_cell: u32,
        now: u64,
    ) -> (frame: Result<SgpuFrame, GrantSubmitError>)
        ensures
            match self.admits(header@, table@, caller_cell, now) {
                Err(refusal) => frame == Err::<SgpuFrame, GrantSubmitError>(
                    GrantSubmitError::Grant(refusal),
                ),
                Ok((h, payload)) => match frame {
                    Ok(frame) => frame.header == inline_header(h) && frame.payload@ == payload,
                    Err(error) => error == GrantSubmitError::Inline(SgpuError::ResourceLimit)
                        && payload.len() > 0,
                },
            },
    {
        let payload: &[u8] = self.submit(header, table, caller_cell, now)?;
        let mut copy: Vec<u8> = Vec::new();
        let reserved: bool = payload.len() == 0 || sgpu::reserve_exact(&mut copy, payload.len());
        self.to_reserved_inline(
            header,
            table,
            caller_cell,
            now,
            if reserved {
                Some(copy)
            } else {
                None
            },
        )
    }

    pub fn compute(&self) -> (compute: &C)
        ensures
            *compute == self.executor(),
    {
        &self.compute
    }

    pub fn compute_mut(&mut self) -> (compute: &mut C)
        ensures
            *compute == old(self).executor(),
            final(self).executor() == *final(compute),
            final(self).bound_cell() == old(self).bound_cell(),
            final(self).endpoint() == old(self).endpoint(),
    {
        &mut self.compute
    }

    pub fn into_compute(self) -> (compute: C)
        ensures
            compute == self.executor(),
    {
        self.compute
    }
}

/// The payload that a message may read is as long as the envelope says, and
/// is exactly the bytes of the granted object that the envelope names.
pub proof fn law_window_is_the_named_range(
    h: VfMsgHeader,
    snapshot: VfGrantSnapshot,
    object: Seq<u8>,
)
    requires
        window_verdict(h, snapshot) is Ok,
        object.len() == snapshot.entry.bytes,
        snapshot.data@ == object.subrange(
            snapshot.snapshot_offset as int,
            snapshot.snapshot_offset + snapshot.data@.len(),
        ),
    ensures
        window_verdict(h, snapshot)->Ok_0 == object.subrange(
            h.payload_offset as int,
            h.payload_offset + h.payload_bytes,
        ),
{
    assert(window_verdict(h, snapshot)->Ok_0 =~= object.subrange(
        h.payload_offset as int,
        h.payload_offset + h.payload_bytes,
    ));
}

/// A message is admitted through a grant only if that grant alone is on the
/// caller's slot, has the exact generation, is live at this time, carries the
/// rights and covers the payload.
pub proof fn law_admission_needs_one_live_grant(
    h: VfMsgHeader,
    table: Seq<VfGrantSnapshot>,
    caller_cell: u32,
    required_rights: u32,
    now: u64,
)
    requires
        grant_verdict(h, table, caller_cell, required_rights, now) matches Ok(Some(_)),
    ensures
        ({
            let i = grant_verdict(h, table, caller_cell, required_rights, now)->Ok_0->Some_0;
            let grant = *table[i].entry;
            &&& 0 <= i < table.len()
            &&& forall|j: int|
                0 <= j < table.len() && j != i ==> !(#[trigger] names_snapshot(
                    h,
                    table[j],
                    caller_cell,
                ))
            &&& grant.cap.holder_cell == caller_cell
            &&& cap_handle(grant.cap) == h.payload_grant
            &&& grant.cap.state == VF_CAP_LIVE
            &&& grant.state == VF_GRANT_LIVE
            &&& grant.cap.valid_from <= now < grant.cap.expires_at
            &&& rights_cover(grant.cap.rights, required_rights)
            &&& h.payload_offset + h.payload_bytes <= grant.bytes
        }),
{
}

/// Whether two queries end alike: in the same refusal, without a grant, or
/// with the same snapshot, wherever it stands in its table.
pub open spec fn same_admission(
    first: Result<Option<int>, GrantError>,
    first_table: Seq<VfGrantSnapshot>,
    second: Result<Option<int>, GrantError>,
    second_table: Seq<VfGrantSnapshot>,
) -> bool {
    match (first, second) {
        (Err(refusal), Err(other)) => refusal == other,
        (Ok(None), Ok(None)) => true,
        (Ok(Some(i)), Ok(Some(j))) => {
            &&& 0 <= i < first_table.len()
            &&& 0 <= j < second_table.len()
            &&& first_table[i] == second_table[j]
        },
        _ => false,
    }
}

/// Where one snapshot alone is named, it is the one that is found.
proof fn lemma_named_alone(h: VfMsgHeader, table: Seq<VfGrantSnapshot>, caller_cell: u32, i: int)
    requires
        !ambiguous(h, table, caller_cell),
        0 <= i < table.len(),
        names_snapshot(h, table[i], caller_cell),
    ensures
        named(h, table, caller_cell),
        named_index(h, table, caller_cell) == i,
{
    let k = named_index(h, table, caller_cell);
    assert(names_snapshot(h, table[k], caller_cell));
}

/// A named snapshot of one table is in every reordering of it; two of them are
/// two there as well.
proof fn lemma_reordered(
    h: VfMsgHeader,
    table: Seq<VfGrantSnapshot>,
    reordered: Seq<VfGrantSnapshot>,
    caller_cell: u32,
)
    requires
        table.to_multiset() == reordered.to_multiset(),
    ensures
        table.len() == reordered.len(),
        forall|i: int| 0 <= i < table.len() ==> reordered.contains(#[trigger] table[i]),
        ambiguous(h, table, caller_cell) ==> ambiguous(h, reordered, caller_cell),
{
    table.to_multiset_ensures();
    reordered.to_multiset_ensures();
    assert forall|i: int| 0 <= i < table.len() implies reordered.contains(#[trigger] table[i]) by {
        assert(table.contains(table[i]));
        assert(table.to_multiset().count(table[i]) > 0);
    }
    if ambiguous(h, table, caller_cell) {
        let (i, j) = choose|i: int, j: int|
            0 <= i < j < table.len() && #[trigger] names_snapshot(h, table[i], caller_cell)
                && #[trigger] names_snapshot(h, table[j], caller_cell);
        let a = reordered.index_of(table[i]);
        assert(reordered.contains(table[i]));
        let rest = table.remove(i);
        let other_rest = reordered.remove(a);
        rest.to_multiset_ensures();
        other_rest.to_multiset_ensures();
        assert(rest.to_multiset() =~= other_rest.to_multiset());
        assert(rest[j - 1] == table[j]);
        assert(rest.contains(table[j]));
        assert(rest.to_multiset().count(table[j]) > 0);
        assert(other_rest.contains(table[j]));
        let k = other_rest.index_of(table[j]);
        let b = if k < a {
            k
        } else {
            k + 1
        };
        assert(reordered[b] == table[j]);
        assert(reordered[a] == table[i]);
        if a < b {
            assert(names_snapshot(h, reordered[a], caller_cell) && names_snapshot(
                h,
                reordered[b],
                caller_cell,
            ));
        } else {
            assert(names_snapshot(h, reordered[b], caller_cell) && names_snapshot(
                h,
                reordered[a],
                caller_cell,
            ));
        }
    }
}

/// Admission does not depend on the order of the table.
pub proof fn law_admission_ignores_table_order(
    h: VfMsgHeader,
    table: Seq<VfGrantSnapshot>,
    reordered: Seq<VfGrantSnapshot>,
    caller_cell: u32,
    required_rights: u32,
    now: u64,
)
    requires
        table.to_multiset() == reordered.to_multiset(),
    ensures
        same_admission(
            grant_verdict(h, table, caller_cell, required_rights, now),
            table,
            grant_verdict(h, reordered, caller_cell, required_rights, now),
            reordered,
        ),
{
    lemma_reordered(h, table, reordered, caller_cell);
    lemma_reordered(h, reordered, table, caller_cell);
    if !ambiguous(h, table, caller_cell) {
        if named(h, table, caller_cell) {
            let i = named_index(h, table, caller_cell);
            assert(reordered.contains(table[i]));
            let j = reordered.index_of(table[i]);
            assert(names_snapshot(h, reordered[j], caller_cell));
            lemma_named_alone(h, reordered, caller_cell, j);
        }
        if named(h, reordered, caller_cell) {
            let j = named_index(h, reordered, caller_cell);
            assert(table.contains(reordered[j]));
            let i = table.index_of(reordered[j]);
            assert(names_snapshot(h, table[i], caller_cell));
        }
    }
}

/// Admission does not depend on what other cells hold: a snapshot of another
/// cell's grant makes no difference, wherever in the table it stands, unless it
/// is the one that takes a full table over its limit.
pub proof fn law_admission_ignores_other_cells(
    h: VfMsgHeader,
    table: Seq<VfGrantSnapshot>,
    at: int,
    other: VfGrantSnapshot,
    caller_cell: u32,
    required_rights: u32,
    now: u64,
)
    requires
        0 <= at <= table.len(),
        table.len() != VF_POLICY_TABLE_MAX,
        other.entry.cap.holder_cell != caller_cell,
    ensures
        same_admission(
            grant_verdict(h, table, caller_cell, required_rights, now),
            table,
            grant_verdict(h, table.insert(at, other), caller_cell, required_rights, now),
            table.insert(at, other),
        ),
{
    let longer = table.insert(at, other);
    assert forall|i: int| 0 <= i < table.len() implies #[trigger] table[i] == longer[if i < at {
        i
    } else {
        i + 1
    }] by {}
    assert forall|j: int| 0 <= j < longer.len() && j != at implies #[trigger] longer[j] == table[if j
        < at {
        j
    } else {
        j - 1
    }] by {}
    assert(!names_snapshot(h, longer[at], caller_cell));
    if ambiguous(h, table, caller_cell) {
        let (i, j) = choose|i: int, j: int|
            0 <= i < j < table.len() && #[trigger] names_snapshot(h, table[i], caller_cell)
                && #[trigger] names_snapshot(h, table[j], caller_cell);
        let a = if i < at {
            i
        } else {
            i + 1
        };
        let b = if j < at {
            j
        } else {
            j + 1
        };
        assert(names_snapshot(h, longer[a], caller_cell) && names_snapshot(
            h,
            longer[b],
            caller_cell,
        ));
    }
    if ambiguous(h, longer, caller_cell) {
        let (i, j) = choose|i: int, j: int|
            0 <= i < j < longer.len() && #[trigger] names_snapshot(h, longer[i], caller_cell)
                && #[trigger] names_snapshot(h, longer[j], caller_cell);
        let a = if i < at {
            i
        } else {
            i - 1
        };
        let b = if j < at {
            j
        } else {
            j - 1
        };
        assert(names_snapshot(h, table[a], caller_cell) && names_snapshot(
            h,
            table[b],
            caller_cell,
        ));
    }
    if !ambiguous(h, table, caller_cell) {
        if named(h, table, caller_cell) {
            let i = named_index(h, table, caller_cell);
            let j = if i < at {
                i
            } else {
                i + 1
            };
            assert(names_snapshot(h, longer[j], caller_cell));
            lemma_named_alone(h, longer, caller_cell, j);
        }
        if named(h, longer, caller_cell) {
            let j = named_index(h, longer, caller_cell);
            let i = if j < at {
                j
            } else {
                j - 1
            };
            assert(names_snapshot(h, table[i], caller_cell));
        }
    }
}

/// Admission does not depend on the bytes of the snapshots nor on where their
/// windows lie: tables of the same grants give the same answer.
pub proof fn law_admission_ignores_snapshot_bytes(
    h: VfMsgHeader,
    table: Seq<VfGrantSnapshot>,
    other: Seq<VfGrantSnapshot>,
    caller_cell: u32,
    required_rights: u32,
    now: u64,
)
    requires
        table.len() == other.len(),
        forall|i: int| 0 <= i < table.len() ==> *(#[trigger] table[i]).entry == *other[i].entry,
    ensures
        grant_verdict(h, table, caller_cell, required_rights, now) == grant_verdict(
            h,
            other,
            caller_cell,
            required_rights,
            now,
        ),
{
    assert forall|i: int| 0 <= i < table.len() implies names_snapshot(h, table[i], caller_cell)
        == names_snapshot(h, other[i], caller_cell) by {}
    if ambiguous(h, table, caller_cell) {
        let (i, j) = choose|i: int, j: int|
            0 <= i < j < table.len() && #[trigger] names_snapshot(h, table[i], caller_cell)
                && #[trigger] names_snapshot(h, table[j], caller_cell);
        assert(names_snapshot(h, other[i], caller_cell) && names_snapshot(
            h,
            other[j],
            caller_cell,
        ));
    }
    if ambiguous(h, other, caller_cell) {
        let (i, j) = choose|i: int, j: int|
            0 <= i < j < other.len() && #[trigger] names_snapshot(h, other[i], caller_cell)
                && #[trigger] names_snapshot(h, other[j], caller_cell);
        assert(names_snapshot(h, table[i], caller_cell) && names_snapshot(
            h,
            table[j],
            caller_cell,
        ));
    }
    if !ambiguous(h, table, caller_cell) {
        if named(h, table, caller_cell) {
            let i = named_index(h, table, caller_cell);
            assert(names_snapshot(h, other[i], caller_cell));
            lemma_named_alone(h, other, caller_cell, i);
        }
        if named(h, other, caller_cell) {
            let i = named_index(h, other, caller_cell);
            assert(names_snapshot(h, table[i], caller_cell));
        }
    }
}

/// A route admits nothing but command lists, from its own cell and to its own
/// endpoint.
pub proof fn law_admission_is_bound_to_the_route<C>(
    session: SgpuGrantSession<C>,
    header: Seq<u8>,
    table: Seq<VfGrantSnapshot>,
    caller_cell: u32,
    now: u64,
)
    requires
        session.admits(header, table, caller_cell, now) is Ok,
    ensures
        ({
            let (h, _) = session.admits(header, table, caller_cell, now)->Ok_0;
            &&& h.family == VF_FAMILY_SGPU
            &&& h.opcode == VF_SGPU_SUBMIT_COMMAND_LIST
            &&& h.object == session.endpoint()
            &&& caller_cell == session.bound_cell()
            &&& header == h.wire()
        }),
{
    vf_abi::law_header_wire_is_faithful(header);
}

/// A revoked grant admits nothing: with its capability or its lifecycle no
/// longer live, the message is refused, as stale or for want of rights.
pub proof fn law_revoked_grant_admits_nothing(
    h: VfMsgHeader,
    table: Seq<VfGrantSnapshot>,
    caller_cell: u32,
    required_rights: u32,
    now: u64,
)
    requires
        h.payload_bytes != 0,
        forall|i: int|
            0 <= i < table.len() && #[trigger] names_snapshot(h, table[i], caller_cell) ==> (
            table[i].entry.cap.state != VF_CAP_LIVE || table[i].entry.state != VF_GRANT_LIVE),
    ensures
        grant_verdict(h, table, caller_cell, required_rights, now) is Err,
{
}

/// What a route admits has a payload of the length that the envelope says, and
/// its inline form is a valid frame.
pub proof fn law_admitted_message_makes_a_valid_frame<C>(
    session: SgpuGrantSession<C>,
    header: Seq<u8>,
    table: Seq<VfGrantSnapshot>,
    caller_cell: u32,
    now: u64,
)
    requires
        session.admits(header, table, caller_cell, now) is Ok,
    ensures
        ({
            let (h, payload) = session.admits(header, table, caller_cell, now)->Ok_0;
            &&& payload.len() == h.payload_bytes
            &&& sgpu::frame_refusal(inline_header(h), payload) is None
        }),
{
}

/// An inline form carries no authority: as a granted message it is refused,
/// whatever the route and the grants, unless it has no payload at all.
pub proof fn law_inline_form_carries_no_authority<C>(
    session: SgpuGrantSession<C>,
    h: VfMsgHeader,
    table: Seq<VfGrantSnapshot>,
    caller_cell: u32,
    now: u64,
)
    requires
        0 < h.payload_bytes <= VF_PAYLOAD_MAX,
    ensures
        session.admits(inline_header(h).wire(), table, caller_cell, now) == Err::<
            (VfMsgHeader, Seq<u8>),
            GrantError,
        >(GrantError::Eabi),
{
    vf_abi::lemma_header_lens(inline_header(h));
    vf_abi::law_header_roundtrip(inline_header(h));
}

/// A frame turned into a granted message reads as that message, and once the
/// root has put the payload where the envelope says, a route that admits the
/// message gives the frame's payload back.
pub proof fn law_inline_grant_inline<C>(
    session: SgpuGrantSession<C>,
    frame: SgpuFrame,
    grant_handle: u64,
    grant_offset: u64,
    table: Seq<VfGrantSnapshot>,
    caller_cell: u32,
    now: u64,
)
    requires
        granted_header(frame, grant_handle, grant_offset) is Ok,
        session.admits(
            granted_header(frame, grant_handle, grant_offset)->Ok_0.wire(),
            table,
            caller_cell,
            now,
        ) is Ok,
        grant_verdict(
            granted_header(frame, grant_handle, grant_offset)->Ok_0,
            table,
            caller_cell,
            VF_RIGHT_READ,
            now,
        ) matches Ok(Some(i)) ==> window_verdict(
            granted_header(frame, grant_handle, grant_offset)->Ok_0,
            table[i],
        ) == Ok::<Seq<u8>, GrantError>(frame.payload@),
    ensures
        session.admits(
            granted_header(frame, grant_handle, grant_offset)->Ok_0.wire(),
            table,
            caller_cell,
            now,
        ) == Ok::<(VfMsgHeader, Seq<u8>), GrantError>(
            (granted_header(frame, grant_handle, grant_offset)->Ok_0, frame.payload@),
        ),
{
    let h = granted_header(frame, grant_handle, grant_offset)->Ok_0;
    vf_abi::lemma_header_lens(h);
    vf_abi::law_header_roundtrip(h);
    if h.payload_bytes == 0 {
        assert(frame.payload@ =~= Seq::empty());
    }
}

} // verus!
