//! What the graphics session answers, keeps and has the device do.
use vstd::prelude::*;

use crate::codec;
use crate::laws::wire;
use crate::sgpu;
use crate::sgpu::{SgpuCaps, SgpuError, SgpuFrame};
use crate::sgpu_session;
use crate::sgpu_session::{
    BufferRequest, DeviceReport, GpuBuffer, GpuCommand, SgpuAction, SgpuCommand, SgpuCommandList,
    SgpuResource, SgpuSession,
};
use crate::vf_abi::VfError;

verus! {

/// Whether `reply` answers `request` for an operation: it repeats the request's
/// number, carries its payload right behind the envelope, and is blank
/// otherwise.
pub open spec fn answered(reply: SgpuFrame, request: SgpuFrame, opcode: u16) -> bool {
    let h = reply.header;
    &&& h.family == 3 && h.opcode == opcode
    &&& h.request_id == request.header.request_id
    &&& h.payload_bytes == reply.payload@.len()
    &&& h.message_bytes == 64 + reply.payload@.len()
    &&& wire::is_blank_otherwise(h)
}

/// What a session reports is what the device says of itself, field by field;
/// there is no compute backend.
pub proof fn law_reported_capabilities(session: SgpuSession, device: DeviceReport, caps: SgpuCaps)
    requires
        call_ensures(SgpuSession::query_caps, (&session, &device), caps),
    ensures
        caps.vendor == device.vendor,
        caps.metal_version == device.metal_version,
        caps.vram_bytes == device.vram_size,
        caps.max_threads_per_threadgroup == device.max_threads,
        caps.software_accelerated == device.software_accelerated,
        !caps.has_compute_shaders,
{
}

/// The answer to a capability query decodes to what the device says of itself,
/// field by field.
pub proof fn law_capability_answer(
    session: SgpuSession,
    request: SgpuFrame,
    device: DeviceReport,
    reply: SgpuFrame,
    payload: &[u8],
    decoded: Result<SgpuCaps, SgpuError>,
)
    requires
        call_ensures(SgpuSession::finish_query, (&session, &request, &device), reply),
        payload@ == reply.payload@,
        call_ensures(SgpuCaps::decode, (payload,), decoded),
    ensures
        answered(reply, request, 1),
        reply.payload@.len() == 40,
        decoded matches Ok(caps) && caps.vendor == device.vendor && caps.metal_version
            == device.metal_version && caps.vram_bytes == device.vram_size
            && caps.max_threads_per_threadgroup == device.max_threads && caps.software_accelerated
            == device.software_accelerated && !caps.has_compute_shaders,
        wire::eight(reply.payload@, 8) == device.vram_size,
        wire::four(reply.payload@, 16) == device.max_threads,
{
    sgpu::law_caps_roundtrip(sgpu_session::reported_caps(device));
    wire::lemma_caps(sgpu_session::reported_caps(device));
}

/// A new session has no resource, gives out handles from one on, and keeps the
/// limit that it was made with.
pub proof fn law_new_session(limit: usize, session: SgpuSession)
    requires
        call_ensures(SgpuSession::new, (limit,), session),
    ensures
        session.well_formed(),
        session.table().len() == 0,
        session.next_id() == 1,
        session.command_limit() == limit,
{
}

/// A resource is admitted exactly where its size is above zero and no more than
/// sixteen MiB, fewer than 64 are live, all of them take no more than 64 MiB
/// with it, and there is a handle left. It is then as large as asked for.
pub proof fn law_resource_admission(
    session: SgpuSession,
    size: u64,
    request: Result<BufferRequest, SgpuError>,
)
    requires
        call_ensures(SgpuSession::create_resource, (&session, size), request),
    ensures
        request is Ok <==> ({
            &&& 0 < size <= 0x100_0000
            &&& session.table().len() < 64
            &&& sgpu_session::total_size(session.table()) + size <= 0x400_0000
            &&& session.next_id() < 0xffff_ffff_ffff_ffff
        }),
        request matches Ok(admitted) ==> admitted.size == size,
        size == 0 ==> request is Err && request->Err_0 == SgpuError::Payload,
        size != 0 && request is Err ==> request->Err_0 == SgpuError::ResourceLimit,
{
}

/// What live resources take is the sum of their sizes: nothing without any, and
/// the size of each that comes in more.
pub proof fn law_total_size(
    table: Map<u64, SgpuResource>,
    handle: u64,
    resource: SgpuResource,
)
    requires
        table.dom().finite(),
        !table.contains_key(handle),
    ensures
        sgpu_session::total_size(Map::empty()) == 0,
        sgpu_session::total_size(table.insert(handle, resource)) == sgpu_session::total_size(table)
            + resource.size,
{
    let longer = table.insert(handle, resource);
    sgpu_session::lemma_total_without(longer, handle);
    assert(longer.remove(handle) =~= table);
}

/// A buffer that was allocated becomes a resource under a new handle, which is
/// the next one, with the device's handle and size; every other stays, and the
/// next handle is one further.
pub proof fn law_adopted_buffer(
    session: &mut SgpuSession,
    request: BufferRequest,
    buffer: GpuBuffer,
    resource: SgpuResource,
)
    requires
        old(session).well_formed(),
        call_ensures(SgpuSession::adopt_buffer, (session, request, buffer), resource),
    ensures
        !old(session).table().contains_key(resource.sgp_handle),
        resource.sgp_handle == old(session).next_id(),
        resource.gpu_handle == buffer.handle,
        resource.size == buffer.size,
        final(session).table().contains_key(resource.sgp_handle),
        final(session).table()[resource.sgp_handle] == resource,
        forall|other: u64|
            other != resource.sgp_handle ==> #[trigger] final(session).table().contains_key(other)
                == old(session).table().contains_key(other) && (old(session).table().contains_key(
                other,
            ) ==> final(session).table()[other] == old(session).table()[other]),
        final(session).next_id() == old(session).next_id() + 1,
        final(session).command_limit() == old(session).command_limit(),
        final(session).well_formed(),
{
}

/// A created resource is answered with its handle, under which the device's
/// buffer is found from then on.
pub proof fn law_created_resource(
    session: &mut SgpuSession,
    request: SgpuFrame,
    admitted: BufferRequest,
    buffer: GpuBuffer,
    reply: SgpuFrame,
)
    requires
        old(session).well_formed(),
        call_ensures(SgpuSession::finish_create, (session, &request, admitted, buffer), reply),
    ensures
        answered(reply, request, 2),
        reply.payload@.len() == 8,
        ({
            let handle = wire::eight(reply.payload@, 0) as u64;
            &&& wire::eight(reply.payload@, 0) == old(session).next_id()
            &&& !old(session).table().contains_key(handle)
            &&& final(session).table().contains_key(handle)
            &&& final(session).table()[handle].gpu_handle == buffer.handle
            &&& final(session).table()[handle].size == buffer.size
            &&& final(session).table()[handle].sgp_handle == handle
            &&& final(session).table().remove(handle) == old(session).table()
        }),
        final(session).next_id() == old(session).next_id() + 1,
        final(session).command_limit() == old(session).command_limit(),
        final(session).well_formed(),
{
    let id = old(session).next_id();
    codec::lemma_byte_spans();
    codec::lemma_le_bytes_len(id as nat, 8);
    codec::lemma_le_value_of_bytes(id as nat, 8);
    wire::lemma_numbers(reply.payload@);
    assert(reply.payload@.subrange(0, 8) =~= reply.payload@);
    assert(final(session).table().remove(id) =~= old(session).table());
}

/// The device's handle is found for a live resource alone.
pub proof fn law_device_handle(
    session: SgpuSession,
    handle: u64,
    found: Result<u64, SgpuError>,
)
    requires
        call_ensures(SgpuSession::gpu_handle, (&session, handle), found),
    ensures
        match found {
            Ok(device) => session.table().contains_key(handle)
                && session.table()[handle].gpu_handle == device,
            Err(error) => !session.table().contains_key(handle) && error
                == SgpuError::ResourceNotFound(handle),
        },
{
}

/// A destroyed resource gives the device's handle to free and is gone; every
/// other stays. One that is not live is not found, and nothing changes.
pub proof fn law_destroyed_resource(
    session: &mut SgpuSession,
    handle: u64,
    freed: Result<u64, SgpuError>,
)
    requires
        old(session).well_formed(),
        call_ensures(SgpuSession::destroy_resource, (session, handle), freed),
    ensures
        match freed {
            Ok(device) => old(session).table().contains_key(handle)
                && old(session).table()[handle].gpu_handle == device,
            Err(error) => !old(session).table().contains_key(handle) && error
                == SgpuError::ResourceNotFound(handle) && final(session).table() == old(
                session,
            ).table(),
        },
        !final(session).table().contains_key(handle),
        forall|other: u64|
            other != handle ==> #[trigger] final(session).table().contains_key(other) == old(
                session,
            ).table().contains_key(other) && (old(session).table().contains_key(other)
                ==> final(session).table()[other] == old(session).table()[other]),
        final(session).next_id() == old(session).next_id(),
        final(session).command_limit() == old(session).command_limit(),
        final(session).well_formed(),
{
    if freed is Err {
        assert(final(session).table() =~= old(session).table());
    }
}

/// Whether a device command does what a request command asks for, on the
/// device's own handles for the resources it names.
pub open spec fn carries_out(
    session: SgpuSession,
    asked: SgpuCommand,
    done: GpuCommand,
) -> bool {
    match (asked, done) {
        (
            SgpuCommand::CopyBuffer { src, dst, size },
            GpuCommand::CopyBuffer { src: from, dst: to, size: count },
        ) => {
            &&& session.table().contains_key(src) && session.table()[src].gpu_handle == from
            &&& session.table().contains_key(dst) && session.table()[dst].gpu_handle == to
            &&& count == size
        },
        (SgpuCommand::RenderClear { color }, GpuCommand::RenderClear { color: same }) => same
            == color,
        (
            SgpuCommand::ComputeDispatch { kernel_id, grid, block },
            GpuCommand::ComputeKernel { kernel_id: kernel, grid: g, block: b },
        ) => kernel == kernel_id && g == grid && b == block,
        (SgpuCommand::Present { buffer }, GpuCommand::PresentSwapchain { buffer: shown }) => {
            session.table().contains_key(buffer) && session.table()[buffer].gpu_handle == shown
        },
        _ => false,
    }
}

/// The first resource that a command names and that is not live.
pub open spec fn missing(session: SgpuSession, asked: SgpuCommand) -> Option<u64> {
    match asked {
        SgpuCommand::CopyBuffer { src, dst, .. } => if !session.table().contains_key(src) {
            Some(src)
        } else if !session.table().contains_key(dst) {
            Some(dst)
        } else {
            None
        },
        SgpuCommand::Present { buffer } => if !session.table().contains_key(buffer) {
            Some(buffer)
        } else {
            None
        },
        _ => None,
    }
}

/// A list within the limit becomes as many device commands, in the same order,
/// each of which carries out its own; where one names a resource that is not
/// live, the first such is the error and nothing is done. A longer list is
/// refused.
pub proof fn law_submitted_list(
    session: SgpuSession,
    list: SgpuCommandList,
    commands: Result<Vec<GpuCommand>, SgpuError>,
)
    requires
        call_ensures(SgpuSession::submit, (&session, &list), commands),
    ensures
        list.cmds@.len() > session.command_limit() ==> commands is Err && commands->Err_0
            == SgpuError::Payload,
        list.cmds@.len() <= session.command_limit() ==> match commands {
            Ok(out) => {
                &&& out@.len() == list.cmds@.len()
                &&& forall|i: int|
                    0 <= i < out@.len() ==> carries_out(session, list.cmds@[i], #[trigger] out@[i])
            },
            Err(error) => exists|i: int|
                0 <= i < list.cmds@.len() && (missing(session, #[trigger] list.cmds@[i]) matches Some(
                    handle,
                ) && error == SgpuError::ResourceNotFound(handle)) && forall|j: int|
                    0 <= j < i ==> missing(session, #[trigger] list.cmds@[j]) is None,
        },
{
    if list.cmds@.len() <= session.command_limit() {
        lemma_list(session, list.cmds@);
    }
}

/// Presenting a resource is a list of the one command that presents it.
pub proof fn law_presented_resource(
    session: SgpuSession,
    resource: u64,
    commands: Result<Vec<GpuCommand>, SgpuError>,
)
    requires
        call_ensures(SgpuSession::present, (&session, resource), commands),
        session.command_limit() >= 1,
    ensures
        match commands {
            Ok(out) => out@.len() == 1 && session.table().contains_key(resource) && out@[0]
                == (GpuCommand::PresentSwapchain {
                buffer: session.table()[resource].gpu_handle,
            }),
            Err(error) => !session.table().contains_key(resource) && error
                == SgpuError::ResourceNotFound(resource),
        },
{
    let one = seq![SgpuCommand::Present { buffer: resource }];
    lemma_list(session, one);
    if let Ok(out) = commands {
        assert(carries_out(session, one[0], out@[0]));
    } else {
        assert(missing(session, one[0]) is Some);
    }
}

/// A payload that is no command list is refused; one that is, is submitted.
pub proof fn law_decoded_list(
    session: SgpuSession,
    list: &SgpuCommandList,
    refused: Result<Vec<GpuCommand>, SgpuError>,
    decoded: Result<Vec<GpuCommand>, SgpuError>,
    direct: Result<Vec<GpuCommand>, SgpuError>,
)
    requires
        call_ensures(SgpuSession::submit_decoded, (&session, None::<&SgpuCommandList>), refused),
        call_ensures(SgpuSession::submit_decoded, (&session, Some(list)), decoded),
        call_ensures(SgpuSession::submit, (&session, list), direct),
    ensures
        refused is Err && refused->Err_0 == SgpuError::Payload,
        match (decoded, direct) {
            (Ok(a), Ok(b)) => a@ == b@,
            (Err(a), Err(b)) => a == b,
            _ => false,
        },
{
    assert(sgpu_session::run_outcome(decoded) == sgpu_session::run_outcome(direct));
}

/// A request that is no valid frame is refused as such, whatever it asks for;
/// an operation that is not served is named.
pub proof fn law_dispatch_refusals(
    session: &mut SgpuSession,
    frame: SgpuFrame,
    valid: Result<(), SgpuError>,
    action: Result<SgpuAction, SgpuError>,
)
    requires
        old(session).well_formed(),
        call_ensures(SgpuFrame::validate, (&frame,), valid),
        call_ensures(SgpuSession::dispatch, (session, &frame), action),
    ensures
        valid is Err ==> action is Err && action->Err_0 == valid->Err_0,
        valid is Ok && !(1 <= frame.header.opcode <= 3 || frame.header.opcode == 5
            || frame.header.opcode == 7) ==> action is Err && action->Err_0 == SgpuError::Vf(
            VfError::Eabi("unknown SGPU opcode"),
        ),
        action is Err ==> final(session).table() == old(session).table(),
        final(session).next_id() == old(session).next_id(),
        final(session).command_limit() == old(session).command_limit(),
        final(session).well_formed(),
{
}

/// A valid query without a payload asks for the device's report, and one with a
/// payload is refused; a list of commands is decoded. Neither changes anything.
pub proof fn law_dispatch_query_and_list(
    session: &mut SgpuSession,
    frame: SgpuFrame,
    action: Result<SgpuAction, SgpuError>,
)
    requires
        old(session).well_formed(),
        call_ensures(SgpuFrame::validate, (&frame,), Ok::<(), SgpuError>(())),
        call_ensures(SgpuSession::dispatch, (session, &frame), action),
        frame.header.opcode == 1 || frame.header.opcode == 5,
    ensures
        frame.header.opcode == 1 && frame.payload@.len() == 0 ==> action == Ok::<
            SgpuAction,
            SgpuError,
        >(SgpuAction::Query),
        frame.header.opcode == 1 && frame.payload@.len() > 0 ==> action == Err::<
            SgpuAction,
            SgpuError,
        >(SgpuError::Payload),
        frame.header.opcode == 5 ==> action == Ok::<SgpuAction, SgpuError>(SgpuAction::Decode),
        final(session).table() == old(session).table(),
{
    assert(sgpu_session::action_outcome(action) == old(session).dispatch_verdict(frame));
}

/// A valid request that names a number has it in eight bytes, or is refused.
/// One to create allocates as many bytes as are admitted; one to destroy frees
/// the device's buffer of the resource, which is gone at once; one to present
/// has the device present the resource's buffer.
pub proof fn law_dispatch_numbered(
    session: &mut SgpuSession,
    frame: SgpuFrame,
    action: Result<SgpuAction, SgpuError>,
    before: SgpuSession,
    admitted: Result<BufferRequest, SgpuError>,
    presented: Result<Vec<GpuCommand>, SgpuError>,
)
    requires
        old(session).well_formed(),
        *old(session) == before,
        call_ensures(SgpuFrame::validate, (&frame,), Ok::<(), SgpuError>(())),
        call_ensures(SgpuSession::dispatch, (session, &frame), action),
        frame.header.opcode == 2 || frame.header.opcode == 3 || frame.header.opcode == 7,
        call_ensures(
            SgpuSession::create_resource,
            (&before, wire::eight(frame.payload@, 0) as u64),
            admitted,
        ),
        call_ensures(
            SgpuSession::present,
            (&before, wire::eight(frame.payload@, 0) as u64),
            presented,
        ),
    ensures
        frame.payload@.len() != 8 ==> action is Err && action->Err_0 == SgpuError::Payload,
        frame.payload@.len() == 8 ==> ({
            let number = wire::eight(frame.payload@, 0) as u64;
            &&& number == wire::eight(frame.payload@, 0)
            &&& frame.header.opcode == 2 ==> match (admitted, action) {
                (Ok(request), Ok(SgpuAction::Allocate(asked))) => asked.size == request.size
                    && asked.size == number,
                (Err(error), Err(refusal)) => refusal == error,
                _ => false,
            }
            &&& frame.header.opcode == 3 ==> match action {
                Ok(SgpuAction::Free(device)) => before.table().contains_key(number)
                    && before.table()[number].gpu_handle == device
                    && !final(session).table().contains_key(number) && final(session).table()
                    == before.table().remove(number),
                Err(error) => !before.table().contains_key(number) && error
                    == SgpuError::ResourceNotFound(number),
                _ => false,
            }
            &&& frame.header.opcode == 7 ==> match (presented, action) {
                (Ok(commands), Ok(SgpuAction::Run(run))) => run@ == commands@,
                (Err(error), Err(refusal)) => refusal == error,
                _ => false,
            }
            &&& frame.header.opcode != 3 ==> final(session).table() == before.table()
        }),
{
    if frame.payload@.len() == 8 {
        wire::lemma_numbers(frame.payload@);
        codec::lemma_byte_spans();
        codec::lemma_le_bytes_of_value(frame.payload@);
        assert(frame.payload@.subrange(0, 8) =~= frame.payload@);
        assert(codec::le_value(frame.payload@) == wire::eight(frame.payload@, 0));
        assert(sgpu_session::payload_number(frame) == wire::eight(frame.payload@, 0));
    }
    assert(sgpu_session::action_outcome(action) == before.dispatch_verdict(frame));
}

/// A buffer that was freed is answered with nothing; a failure is the device's.
pub proof fn law_destroy_answer(
    session: SgpuSession,
    request: SgpuFrame,
    freed: Result<(), String>,
    reply: Result<SgpuFrame, SgpuError>,
)
    requires
        call_ensures(SgpuSession::finish_destroy, (&session, &request, freed), reply),
    ensures
        match (freed, reply) {
            (Ok(_), Ok(frame)) => answered(frame, request, 3) && frame.payload@.len() == 0,
            (Err(reason), Err(error)) => error == SgpuError::Gpu(reason),
            _ => false,
        },
{
}

/// A buffer that was presented is answered with nothing; a failure is the
/// device's.
pub proof fn law_present_answer(
    session: SgpuSession,
    request: SgpuFrame,
    ran: Result<(), String>,
    reply: Result<SgpuFrame, SgpuError>,
)
    requires
        call_ensures(SgpuSession::finish_present, (&session, &request, ran), reply),
    ensures
        match (ran, reply) {
            (Ok(_), Ok(frame)) => answered(frame, request, 7) && frame.payload@.len() == 0,
            (Err(reason), Err(error)) => error == SgpuError::Gpu(reason),
            _ => false,
        },
{
}

/// A list that was run is answered with how many commands it has, in four
/// bytes; a failure is the device's.
pub proof fn law_submit_answer(
    session: SgpuSession,
    request: SgpuFrame,
    list: SgpuCommandList,
    ran: Result<(), String>,
    reply: Result<SgpuFrame, SgpuError>,
)
    requires
        call_ensures(SgpuSession::finish_submit, (&session, &request, &list, ran), reply),
    ensures
        match (ran, reply) {
            (Ok(_), Ok(frame)) => {
                &&& answered(frame, request, 5)
                &&& frame.payload@.len() == 4
                &&& list.cmds@.len() < 0x1_0000_0000 ==> wire::four(frame.payload@, 0)
                    == list.cmds@.len()
            },
            (Err(reason), Err(error)) => error == SgpuError::Gpu(reason),
            _ => false,
        },
{
    if let (Ok(_), Ok(frame)) = (ran, reply) {
        codec::lemma_byte_spans();
        codec::lemma_le_bytes_len(list.cmds@.len(), 4);
        wire::lemma_numbers(frame.payload@);
        assert(frame.payload@.subrange(0, 4) =~= frame.payload@);
        if list.cmds@.len() < 0x1_0000_0000 {
            codec::lemma_le_value_of_bytes(list.cmds@.len(), 4);
        }
    }
}

proof fn lemma_list(session: SgpuSession, commands: Seq<SgpuCommand>)
    ensures
        match sgpu_session::translated_all(session.table(), commands) {
            Ok(out) => {
                &&& out.len() == commands.len()
                &&& forall|i: int|
                    0 <= i < out.len() ==> carries_out(session, commands[i], #[trigger] out[i])
                &&& forall|i: int|
                    0 <= i < commands.len() ==> missing(session, #[trigger] commands[i]) is None
            },
            Err(error) => exists|i: int|
                0 <= i < commands.len() && (missing(session, #[trigger] commands[i]) matches Some(
                    handle,
                ) && error == SgpuError::ResourceNotFound(handle)) && forall|j: int|
                    0 <= j < i ==> missing(session, #[trigger] commands[j]) is None,
        },
    decreases commands.len(),
{
    if commands.len() > 0 {
        let before = commands.drop_last();
        lemma_list(session, before);
        let n = commands.len() - 1;
        assert(commands.last() == commands[n]);
        match sgpu_session::translated_all(session.table(), before) {
            Err(error) => {
                let i = choose|i: int|
                    0 <= i < before.len() && (missing(
                        session,
                        #[trigger] before[i],
                    ) matches Some(handle) && error == SgpuError::ResourceNotFound(handle))
                        && forall|j: int|
                        0 <= j < i ==> missing(session, #[trigger] before[j]) is None;
                assert(before[i] == commands[i]);
                assert forall|j: int| 0 <= j < i implies missing(
                    session,
                    #[trigger] commands[j],
                ) is None by {
                    assert(before[j] == commands[j]);
                }
            },
            Ok(done) => {
                assert forall|j: int| 0 <= j < n implies missing(
                    session,
                    #[trigger] commands[j],
                ) is None by {
                    assert(before[j] == commands[j]);
                }
                match sgpu_session::translated(session.table(), commands[n]) {
                    Ok(command) => {
                        let out = done.push(command);
                        assert forall|i: int| 0 <= i < out.len() implies carries_out(
                            session,
                            commands[i],
                            #[trigger] out[i],
                        ) by {
                            if i < n {
                                assert(before[i] == commands[i]);
                                assert(carries_out(session, before[i], done[i]));
                            }
                        }
                    },
                    Err(_) => {
                        assert(missing(session, commands[n]) is Some);
                    },
                }
            },
        }
    }
}

} // verus!
