//! Which granted messages are admitted, and which bytes they may read.
use vstd::prelude::*;

use crate::sgpu::{SgpuError, SgpuFrame};
use crate::sgpu_grant;
use crate::sgpu_grant::{
    GrantError, GrantSubmitError, SgpuGrantSession, SgpuSubmissionError, VfCapEntry, VfGrantEntry,
    VfGrantSnapshot,
};
use crate::vf_abi::VfMsgHeader;

verus! {

/// Whether the constants of an envelope are those of a granted message, which
/// is the envelope alone.
pub open spec fn is_granted_envelope(h: VfMsgHeader) -> bool {
    &&& h.magic == 0x314D_4656
    &&& h.abi_major == 1
    &&& h.header_bytes == 64
    &&& h.message_bytes == 64
    &&& h.reserved0 == 0
}

/// Whether an operation is known: nine of the root, three of the block service
/// and seven of the graphics service, counted from one.
pub open spec fn known_operation(family: u16, opcode: u16) -> bool {
    0 < opcode && ((family == 1 && opcode < 10) || (family == 2 && opcode < 4) || (family == 3
        && opcode < 8))
}

/// An envelope is accepted as a granted message exactly where its constants
/// are right, no flag is set, the operation is known, and it either has no
/// payload and names none, or names a grant, at a multiple of eight bytes, of
/// no more than sixteen MiB whose end is a 64-bit number. Each refusal says
/// what is wrong first.
pub proof fn law_granted_envelope(h: VfMsgHeader, outcome: Result<(), GrantError>)
    requires
        call_ensures(sgpu_grant::validate_grant_header, (&h,), outcome),
    ensures
        ({
            let plain = is_granted_envelope(h) && h.flags == 0;
            let known = plain && known_operation(h.family, h.opcode);
            let empty = h.payload_bytes == 0;
            let named = h.payload_grant != 0 && h.payload_offset % 8 == 0;
            let fits = h.payload_bytes <= 0x100_0000 && h.payload_offset + h.payload_bytes
                < 0x1_0000_0000_0000_0000;
            &&& !is_granted_envelope(h) ==> outcome == Err::<(), GrantError>(GrantError::Eabi)
            &&& is_granted_envelope(h) && !plain ==> outcome == Err::<(), GrantError>(
                GrantError::Einval,
            )
            &&& plain && !known ==> outcome == Err::<(), GrantError>(GrantError::Enotsup)
            &&& known && empty ==> (outcome is Ok <==> h.payload_grant == 0 && h.payload_offset
                == 0)
            &&& known && empty && outcome is Err ==> outcome == Err::<(), GrantError>(
                GrantError::Einval,
            )
            &&& known && !empty && !named ==> outcome == Err::<(), GrantError>(GrantError::Einval)
            &&& known && !empty && named && !fits ==> outcome == Err::<(), GrantError>(
                GrantError::Erange,
            )
            &&& known && !empty && named && fits ==> outcome is Ok
        }),
{
}

/// Bytes are a granted message exactly where they are 64 and the envelope that
/// they spell out is accepted; it is then that envelope.
pub proof fn law_granted_bytes(
    bytes: &[u8],
    header: Result<VfMsgHeader, GrantError>,
    h: VfMsgHeader,
    spelled: Result<VfMsgHeader, crate::vf_abi::VfError>,
    accepted: Result<(), GrantError>,
)
    requires
        call_ensures(sgpu_grant::decode_grant_header, (bytes,), header),
        call_ensures(VfMsgHeader::decode, (bytes,), spelled),
        spelled is Ok ==> spelled->Ok_0 == h,
        call_ensures(sgpu_grant::validate_grant_header, (&h,), accepted),
    ensures
        bytes@.len() != 64 ==> header == Err::<VfMsgHeader, GrantError>(GrantError::Eabi),
        bytes@.len() == 64 ==> header == match accepted {
            Ok(_) => Ok::<VfMsgHeader, GrantError>(h),
            Err(error) => Err(error),
        },
{
}

/// Whether the right to read is among rights.
pub open spec fn reads(rights: u32) -> bool {
    rights % 2 == 1
}

/// Whether the right to write is among rights.
pub open spec fn writes(rights: u32) -> bool {
    (rights / 2) % 2 == 1
}

/// Whether a policy question can be answered: a table of no more than 4096
/// grants, a caller, and at least one of the rights to read and to write.
pub open spec fn askable(entries: nat, caller_cell: u32, required: u32) -> bool {
    entries <= 4096 && caller_cell != 0 && 0 < required < 4
}

/// Whether a grant is the caller's and on the slot of the handle that a
/// message names.
pub open spec fn is_named(h: VfMsgHeader, grant: VfGrantEntry, caller_cell: u32) -> bool {
    grant.cap.holder_cell == caller_cell && h.payload_grant as int % 0x1_0000_0000
        == grant.cap.slot
}

/// Whether a capability is the very one that a message names, and live now.
pub open spec fn is_current(h: VfMsgHeader, cap: VfCapEntry, now: u64) -> bool {
    &&& cap.slot > 0 && cap.generation > 0
    &&& h.payload_grant == cap.slot + 0x1_0000_0000 * cap.generation
    &&& cap.state == 1
    &&& cap.valid_from <= now && now < cap.expires_at
}

/// Whether a capability is for a grant and has every right that is required.
pub open spec fn is_permitted(cap: VfCapEntry, required: u32) -> bool {
    &&& cap.object_id > 0
    &&& cap.object_type == 1
    &&& cap.rights < 256
    &&& reads(required) ==> reads(cap.rights)
    &&& writes(required) ==> writes(cap.rights)
}

/// A message with a payload is admitted through the one grant of the caller on
/// its slot exactly where that is current, permitted, live, owned, and covers
/// the payload. Every right that is required must be there; further ones do no
/// harm. A message without a payload needs no grant.
pub proof fn law_payload_grant(
    h: VfMsgHeader,
    table: &[VfGrantSnapshot<'_>],
    caller_cell: u32,
    required: u32,
    now: u64,
    found: Result<Option<&VfGrantSnapshot<'_>>, GrantError>,
    shape: Result<(), GrantError>,
)
    requires
        call_ensures(
            sgpu_grant::validate_payload_grant,
            (&h, table, caller_cell, required, now),
            found,
        ),
        call_ensures(sgpu_grant::validate_grant_header, (&h,), shape),
    ensures
        !askable(table@.len(), caller_cell, required) ==> found == Err::<
            Option<&VfGrantSnapshot<'_>>,
            GrantError,
        >(GrantError::Einval),
        askable(table@.len(), caller_cell, required) && shape is Err ==> found == Err::<
            Option<&VfGrantSnapshot<'_>>,
            GrantError,
        >(shape->Err_0),
        askable(table@.len(), caller_cell, required) && shape is Ok && h.payload_bytes == 0
            ==> found == Ok::<Option<&VfGrantSnapshot<'_>>, GrantError>(None),
        askable(table@.len(), caller_cell, required) && shape is Ok && h.payload_bytes != 0 ==> ({
            &&& (forall|i: int|
                0 <= i < table@.len() ==> !is_named(h, *(#[trigger] table@[i]).entry, caller_cell))
                ==> found == Err::<Option<&VfGrantSnapshot<'_>>, GrantError>(GrantError::Estale)
            &&& (exists|i: int, j: int|
                0 <= i < j < table@.len() && is_named(
                    h,
                    *(#[trigger] table@[i]).entry,
                    caller_cell,
                ) && is_named(h, *(#[trigger] table@[j]).entry, caller_cell)) ==> found == Err::<
                Option<&VfGrantSnapshot<'_>>,
                GrantError,
            >(GrantError::Eambig)
        }),
{
    if askable(table@.len(), caller_cell, required) && shape is Ok && h.payload_bytes != 0 {
        lemma_named(h, table@, caller_cell);
    }
}

/// What becomes of a message with a payload whose one grant is at place `i`.
pub proof fn law_payload_grant_at(
    h: VfMsgHeader,
    table: &[VfGrantSnapshot<'_>],
    caller_cell: u32,
    required: u32,
    now: u64,
    found: Result<Option<&VfGrantSnapshot<'_>>, GrantError>,
    shape: Result<(), GrantError>,
    i: int,
)
    requires
        call_ensures(
            sgpu_grant::validate_payload_grant,
            (&h, table, caller_cell, required, now),
            found,
        ),
        call_ensures(sgpu_grant::validate_grant_header, (&h,), shape),
        askable(table@.len(), caller_cell, required),
        shape is Ok,
        h.payload_bytes != 0,
        0 <= i < table@.len(),
        is_named(h, *table@[i].entry, caller_cell),
        forall|j: int|
            0 <= j < table@.len() && j != i ==> !is_named(
                h,
                *(#[trigger] table@[j]).entry,
                caller_cell,
            ),
    ensures
        ({
            let grant = *table@[i].entry;
            let current = is_current(h, grant.cap, now);
            let permitted = current && is_permitted(grant.cap, required);
            let live = permitted && grant.state == 1 && grant.owner_cell > 0;
            let covered = live && h.payload_offset + h.payload_bytes <= grant.bytes;
            match found {
                Ok(Some(snapshot)) => covered && *snapshot == table@[i],
                Ok(None) => false,
                Err(error) => {
                    &&& !covered
                    &&& !current ==> error == GrantError::Estale
                    &&& current && !permitted ==> error == GrantError::Eperm
                    &&& permitted && !live ==> error == GrantError::Estale
                    &&& live ==> error == GrantError::Erange
                },
            }
        }),
{
    lemma_named(h, table@, caller_cell);
    assert(sgpu_grant::names_snapshot(h, table@[i], caller_cell));
    let k = sgpu_grant::named_index(h, table@, caller_cell);
    assert(sgpu_grant::names_snapshot(h, table@[k], caller_cell));
    assert(is_named(h, *table@[k].entry, caller_cell));
    lemma_rights(table@[i].entry.cap.rights, required);
}

/// A capability that gains rights, up to all of them, admits what it admitted.
pub proof fn law_more_rights_do_no_harm(
    h: VfMsgHeader,
    table: &[VfGrantSnapshot<'_>],
    wider: &[VfGrantSnapshot<'_>],
    i: int,
    extra: u32,
    caller_cell: u32,
    required: u32,
    now: u64,
    found: Result<Option<&VfGrantSnapshot<'_>>, GrantError>,
    still: Result<Option<&VfGrantSnapshot<'_>>, GrantError>,
)
    requires
        call_ensures(
            sgpu_grant::validate_payload_grant,
            (&h, table, caller_cell, required, now),
            found,
        ),
        call_ensures(
            sgpu_grant::validate_payload_grant,
            (&h, wider, caller_cell, required, now),
            still,
        ),
        found matches Ok(Some(snapshot)) && *snapshot == table@[i],
        0 <= i < table@.len(),
        table@.len() == wider@.len(),
        extra < 256,
        forall|j: int| 0 <= j < table@.len() && j != i ==> wider@[j] == table@[j],
        *wider@[i].entry == (VfGrantEntry {
            cap: VfCapEntry {
                rights: table@[i].entry.cap.rights | extra,
                ..table@[i].entry.cap
            },
            ..*table@[i].entry
        }),
    ensures
        still matches Ok(Some(snapshot)) && *snapshot == wider@[i],
{
    sgpu_grant::law_admission_needs_one_live_grant(h, table@, caller_cell, required, now);
    let k = sgpu_grant::grant_verdict(h, table@, caller_cell, required, now)->Ok_0->Some_0;
    assert(sgpu_grant::names_snapshot(h, table@[k], caller_cell));
    assert(table@[i] == table@[k]);
    assert(i == k) by {
        if i != k {
            assert(!sgpu_grant::names_snapshot(h, table@[i], caller_cell));
        }
    }
    let rights = table@[i].entry.cap.rights;
    assert(required & rights == required && rights <= 255 && extra < 256 ==> required & (rights
        | extra) == required && (rights | extra) <= 255) by (bit_vector);
    assert forall|j: int|
        0 <= j < wider@.len() && j != i implies !(#[trigger] sgpu_grant::names_snapshot(
        h,
        wider@[j],
        caller_cell,
    )) by {
        assert(!sgpu_grant::names_snapshot(h, table@[j], caller_cell));
    }
    assert(sgpu_grant::names_snapshot(h, wider@[i], caller_cell));
    assert(sgpu_grant::named_index(h, wider@, caller_cell) == i) by {
        let n = sgpu_grant::named_index(h, wider@, caller_cell);
        assert(sgpu_grant::names_snapshot(h, wider@[n], caller_cell));
    }
}

/// A message reads its payload from a window exactly where the window lies in
/// its grant and the payload in the window: as many bytes as the message says,
/// from its offset in the grant on.
pub proof fn law_window(
    h: VfMsgHeader,
    snapshot: VfGrantSnapshot<'_>,
    window: Result<&[u8], GrantError>,
)
    requires
        call_ensures(sgpu_grant::payload_window, (&h, &snapshot), window),
    ensures
        ({
            let from = snapshot.snapshot_offset as int;
            let to = from + snapshot.data@.len();
            let start = h.payload_offset as int;
            match window {
                Ok(bytes) => {
                    &&& from <= start && start + h.payload_bytes <= to <= snapshot.entry.bytes
                    &&& bytes@.len() == h.payload_bytes
                    &&& forall|k: int|
                        0 <= k < bytes@.len() ==> bytes@[k] == snapshot.data@[start + k - from]
                },
                Err(error) => {
                    &&& error == GrantError::Erange
                    &&& !(from <= start && start + h.payload_bytes <= to <= snapshot.entry.bytes)
                },
            }
        }),
{
    if let Ok(bytes) = window {
        let start = h.payload_offset - snapshot.snapshot_offset;
        assert(bytes@ == snapshot.data@.subrange(start, start + h.payload_bytes));
    }
}

/// A route can be bound exactly where there is a cell and both halves of the
/// endpoint's handle are there; it is then bound to them, and serves what it
/// was given.
pub proof fn law_route<C>(
    compute: C,
    cell: u32,
    endpoint: u64,
    session: Result<SgpuGrantSession<C>, GrantError>,
)
    requires
        call_ensures(SgpuGrantSession::<C>::new, (compute, cell, endpoint), session),
    ensures
        session is Ok <==> cell != 0 && endpoint >= 0x1_0000_0000 && endpoint as int % 0x1_0000_0000
            != 0,
        session is Err ==> session->Err_0 == GrantError::Einval,
        session matches Ok(bound) ==> bound.bound_cell() == cell && bound.endpoint() == endpoint
            && bound.executor() == compute,
{
}

/// A route gives out what it serves as it was given.
pub proof fn law_route_serves_what_it_was_given<C>(
    compute: C,
    cell: u32,
    endpoint: u64,
    session: SgpuGrantSession<C>,
    seen: &C,
    taken: C,
)
    requires
        call_ensures(
            SgpuGrantSession::<C>::new,
            (compute, cell, endpoint),
            Ok::<SgpuGrantSession<C>, GrantError>(session),
        ),
        call_ensures(SgpuGrantSession::<C>::compute, (&session,), seen),
        call_ensures(SgpuGrantSession::<C>::into_compute, (session,), taken),
    ensures
        *seen == compute,
        taken == compute,
{
}

/// A route admits a message exactly where its bytes are a granted message that
/// submits commands, comes from the route's cell to the route's endpoint, and
/// has the right to read its payload, which is then what may be read.
pub proof fn law_route_admission<C>(
    session: SgpuGrantSession<C>,
    bytes: &[u8],
    table: &[VfGrantSnapshot<'_>],
    caller_cell: u32,
    now: u64,
    admitted: Result<(VfMsgHeader, &[u8]), GrantError>,
    decoded: Result<VfMsgHeader, GrantError>,
    h: VfMsgHeader,
    found: Result<Option<&VfGrantSnapshot<'_>>, GrantError>,
    snapshot: VfGrantSnapshot<'_>,
    window: Result<&[u8], GrantError>,
)
    requires
        call_ensures(
            SgpuGrantSession::<C>::authorize,
            (&session, bytes, table, caller_cell, now),
            admitted,
        ),
        call_ensures(sgpu_grant::decode_grant_header, (bytes,), decoded),
        decoded is Ok ==> decoded->Ok_0 == h,
        call_ensures(
            sgpu_grant::validate_payload_grant,
            (&h, table, caller_cell, 1u32, now),
            found,
        ),
        found matches Ok(Some(at)) ==> *at == snapshot,
        call_ensures(sgpu_grant::payload_window, (&h, &snapshot), window),
    ensures
        decoded is Err ==> admitted is Err && admitted->Err_0 == decoded->Err_0,
        decoded is Ok ==> if h.family != 3 || h.opcode != 5 {
            admitted is Err && admitted->Err_0 == GrantError::Enotsup
        } else if caller_cell != session.bound_cell() || h.object != session.endpoint() {
            admitted is Err && admitted->Err_0 == GrantError::Eperm
        } else {
            match (found, window) {
                (Err(error), _) => admitted is Err && admitted->Err_0 == error,
                (Ok(None), _) => admitted is Ok && admitted->Ok_0.0 == h && admitted->Ok_0.1@.len()
                    == 0,
                (Ok(Some(_)), Err(error)) => admitted is Err && admitted->Err_0 == error,
                (Ok(Some(_)), Ok(payload)) => admitted is Ok && admitted->Ok_0.0 == h
                    && admitted->Ok_0.1@ == payload@,
            }
        },
{
    if let Ok(payload) = window {
        assert(sgpu_grant::window_outcome(window) == sgpu_grant::window_verdict(h, snapshot));
    }
}

/// What is submitted is what the route admits, and a refusal is the route's.
pub proof fn law_submitted_bytes_are_the_admitted_ones<C>(
    session: SgpuGrantSession<C>,
    bytes: &[u8],
    table: &[VfGrantSnapshot<'_>],
    caller_cell: u32,
    now: u64,
    admitted: Result<(VfMsgHeader, &[u8]), GrantError>,
    commands: Result<&[u8], GrantSubmitError>,
)
    requires
        call_ensures(
            SgpuGrantSession::<C>::authorize,
            (&session, bytes, table, caller_cell, now),
            admitted,
        ),
        call_ensures(
            SgpuGrantSession::<C>::submit,
            (&session, bytes, table, caller_cell, now),
            commands,
        ),
    ensures
        match (admitted, commands) {
            (Ok((_, payload)), Ok(given)) => given@ == payload@,
            (Err(error), Err(refusal)) => refusal == GrantSubmitError::Grant(error),
            _ => false,
        },
{
}

/// What was run is reported as it was.
pub proof fn law_report_of_the_run<C>(
    session: SgpuGrantSession<C>,
    ran: Result<usize, SgpuSubmissionError>,
    outcome: Result<usize, GrantSubmitError>,
)
    requires
        call_ensures(SgpuGrantSession::<C>::finish_submit, (&session, ran), outcome),
    ensures
        match (ran, outcome) {
            (Ok(completed), Ok(told)) => told == completed,
            (Err(error), Err(GrantSubmitError::Submission(told))) => told == error,
            _ => false,
        },
{
}

/// The inline form of an admitted message has its payload right behind it and
/// names no grant; everything else stays.
pub proof fn law_inline_form<C>(
    session: SgpuGrantSession<C>,
    bytes: &[u8],
    table: &[VfGrantSnapshot<'_>],
    caller_cell: u32,
    now: u64,
    admitted: Result<(VfMsgHeader, &[u8]), GrantError>,
    frame: Result<SgpuFrame, GrantSubmitError>,
)
    requires
        call_ensures(
            SgpuGrantSession::<C>::authorize,
            (&session, bytes, table, caller_cell, now),
            admitted,
        ),
        call_ensures(
            SgpuGrantSession::<C>::to_inline,
            (&session, bytes, table, caller_cell, now),
            frame,
        ),
    ensures
        match (admitted, frame) {
            (Ok((h, payload)), Ok(inline)) => {
                &&& inline.payload@ == payload@
                &&& inline.header.message_bytes == 64 + h.payload_bytes
                &&& inline.header.payload_grant == 0 && inline.header.payload_offset == 0
                &&& same_but_for_placement(inline.header, h)
            },
            (Ok((_, payload)), Err(error)) => payload@.len() > 0 && error
                == GrantSubmitError::Inline(SgpuError::ResourceLimit),
            (Err(error), Err(refusal)) => refusal == GrantSubmitError::Grant(error),
            (Err(_), Ok(_)) => false,
        },
{
    if admitted is Ok {
        sgpu_grant::law_admitted_message_makes_a_valid_frame(
            session,
            bytes@,
            table@,
            caller_cell,
            now,
        );
    }
}

/// The same of the form that is written to a reserved buffer.
pub proof fn law_reserved_inline_form<C>(
    session: SgpuGrantSession<C>,
    bytes: &[u8],
    table: &[VfGrantSnapshot<'_>],
    caller_cell: u32,
    now: u64,
    reserved: Option<Vec<u8>>,
    admitted: Result<(VfMsgHeader, &[u8]), GrantError>,
    frame: Result<SgpuFrame, GrantSubmitError>,
)
    requires
        call_ensures(
            SgpuGrantSession::<C>::authorize,
            (&session, bytes, table, caller_cell, now),
            admitted,
        ),
        call_ensures(
            SgpuGrantSession::<C>::to_reserved_inline,
            (&session, bytes, table, caller_cell, now, reserved),
            frame,
        ),
    ensures
        match (admitted, frame) {
            (Ok((h, payload)), Ok(inline)) => {
                &&& reserved is Some
                &&& inline.payload@ == payload@
                &&& inline.header.message_bytes == 64 + h.payload_bytes
                &&& inline.header.payload_grant == 0 && inline.header.payload_offset == 0
                &&& same_but_for_placement(inline.header, h)
            },
            (Ok(_), Err(error)) => reserved is None && error == GrantSubmitError::Inline(
                SgpuError::ResourceLimit,
            ),
            (Err(error), Err(refusal)) => refusal == GrantSubmitError::Grant(error),
            (Err(_), Ok(_)) => false,
        },
{
    if admitted is Ok {
        sgpu_grant::law_admitted_message_makes_a_valid_frame(
            session,
            bytes@,
            table@,
            caller_cell,
            now,
        );
    }
}

/// Whether two envelopes differ in nothing but their length and where their
/// payload is.
pub open spec fn same_but_for_placement(a: VfMsgHeader, b: VfMsgHeader) -> bool {
    &&& a.magic == b.magic && a.abi_major == b.abi_major && a.header_bytes == b.header_bytes
    &&& a.family == b.family && a.opcode == b.opcode
    &&& a.request_id == b.request_id && a.object == b.object
    &&& a.payload_bytes == b.payload_bytes && a.flags == b.flags && a.reserved0 == b.reserved0
}

/// The granted form of a frame is an envelope alone that names the grant and
/// the place given, with the frame's own payload; everything else stays. There
/// is one exactly where the frame is valid and the envelope is accepted.
pub proof fn law_granted_form(
    frame: SgpuFrame,
    handle: u64,
    offset: u64,
    message: Result<([u8; 64], &[u8]), GrantSubmitError>,
    valid: Result<(), SgpuError>,
    h: VfMsgHeader,
    accepted: Result<(), GrantError>,
    wire: [u8; 64],
)
    requires
        call_ensures(sgpu_grant::inline_to_grant, (&frame, handle, offset), message),
        call_ensures(SgpuFrame::validate, (&frame,), valid),
        same_but_for_placement(h, frame.header),
        h.message_bytes == 64,
        h.payload_grant == handle,
        h.payload_offset == offset,
        call_ensures(sgpu_grant::validate_grant_header, (&h,), accepted),
        call_ensures(VfMsgHeader::encode, (&h,), wire),
    ensures
        match (valid, accepted, message) {
            (Err(error), _, Err(refusal)) => refusal == GrantSubmitError::Inline(error),
            (Ok(_), Err(error), Err(refusal)) => refusal == GrantSubmitError::Grant(error),
            (Ok(_), Ok(_), Ok((bytes, payload))) => bytes@ == wire@ && payload@ == frame.payload@,
            _ => false,
        },
{
}

/// What a route serves can be changed through it, and nothing else of it.
pub proof fn law_route_keeps_its_binding<C>(
    session: &mut SgpuGrantSession<C>,
    compute: &mut C,
)
    requires
        call_ensures(SgpuGrantSession::<C>::compute_mut, (session,), compute),
    ensures
        *old(compute) == old(session).executor(),
        final(session).executor() == *final(compute),
        final(session).bound_cell() == old(session).bound_cell(),
        final(session).endpoint() == old(session).endpoint(),
{
}

/// Each error of a submission keeps what it was made from.
pub proof fn law_submission_errors(
    grant: GrantError,
    first: GrantSubmitError,
    inline: SgpuError,
    second: GrantSubmitError,
    run: SgpuSubmissionError,
    third: GrantSubmitError,
)
    requires
        call_ensures(<GrantSubmitError as From<GrantError>>::from, (grant,), first),
        call_ensures(<GrantSubmitError as From<SgpuError>>::from, (inline,), second),
        call_ensures(<GrantSubmitError as From<SgpuSubmissionError>>::from, (run,), third),
    ensures
        first == GrantSubmitError::Grant(grant),
        second == GrantSubmitError::Inline(inline),
        third == GrantSubmitError::Submission(run),
{
}

/// Each refusal has a status of its own below zero, those of the C interface:
/// seven and eight are not used.
pub proof fn law_statuses(error: GrantError, status: i32, other: GrantError, second: i32)
    requires
        call_ensures(GrantError::status, (error,), status),
        call_ensures(GrantError::status, (other,), second),
    ensures
        -9 <= status < 0 && status != -7 && status != -8,
        status == second <==> error == other,
        error is Einval ==> status == -1,
        error is Eabi ==> status == -2,
        error is Enotsup ==> status == -3,
        error is Estale ==> status == -4,
        error is Eperm ==> status == -5,
        error is Erange ==> status == -6,
        error is Eambig ==> status == -9,
{
}

/// Every right that is required is among the rights exactly where reading and
/// writing are, as far as they are required.
proof fn lemma_rights(rights: u32, required: u32)
    requires
        0 < required < 4,
    ensures
        sgpu_grant::rights_cover(rights, required) <==> (reads(required) ==> reads(rights)) && (
        writes(required) ==> writes(rights)),
{
    assert(0 < required && required < 4 ==> ((required & rights == required) <==> ((required % 2
        == 1 ==> rights % 2 == 1) && ((required / 2) % 2 == 1 ==> (rights / 2) % 2 == 1))))
        by (bit_vector);
}

proof fn lemma_named(h: VfMsgHeader, table: Seq<VfGrantSnapshot>, caller_cell: u32)
    ensures
        forall|i: int|
            0 <= i < table.len() ==> #[trigger] sgpu_grant::names_snapshot(h, table[i], caller_cell)
                == is_named(h, *table[i].entry, caller_cell),
        (exists|i: int, j: int|
            0 <= i < j < table.len() && is_named(h, *(#[trigger] table[i]).entry, caller_cell)
                && is_named(h, *(#[trigger] table[j]).entry, caller_cell))
            ==> sgpu_grant::ambiguous(h, table, caller_cell),
{
    if exists|i: int, j: int|
        0 <= i < j < table.len() && is_named(h, *(#[trigger] table[i]).entry, caller_cell)
            && is_named(h, *(#[trigger] table[j]).entry, caller_cell) {
        let (i, j) = choose|i: int, j: int|
            0 <= i < j < table.len() && is_named(h, *(#[trigger] table[i]).entry, caller_cell)
                && is_named(h, *(#[trigger] table[j]).entry, caller_cell);
        assert(sgpu_grant::names_snapshot(h, table[i], caller_cell)
            && sgpu_grant::names_snapshot(h, table[j], caller_cell));
    }
}

} // verus!
