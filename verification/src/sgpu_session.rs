//! The request session of the graphics service cell.
//!
//! The session keeps the table of live resources and turns requests into work
//! for a GPU device, which lies outside. Each request takes two steps: the
//! session says what the device has to do, and once the device is done, what
//! the answer is. Nothing is changed by a request that is refused.
use std::collections::HashMap;

use vstd::prelude::*;

use crate::codec;
use crate::sgpu;
use crate::sgpu::{
    GpuVendor, MetalVersion, SgpuCaps, SgpuError, SgpuFrame, SGPU_MAX_RESOURCES,
    SGPU_MAX_RESOURCE_BYTES, SGPU_MAX_TOTAL_RESOURCE_BYTES,
};
use crate::vf_abi;
use crate::vf_abi::{
    VfError, VfMsgHeader, VF_FAMILY_SGPU, VF_MSG_BYTES, VF_PAYLOAD_MAX, VF_SGPU_CREATE_RESOURCE,
    VF_SGPU_DESTROY_RESOURCE, VF_SGPU_PRESENT, VF_SGPU_QUERY_CAPS, VF_SGPU_SUBMIT_COMMAND_LIST,
};

verus! {

broadcast use vstd::std_specs::hash::group_hash_axioms;

/// A live resource: its handle in requests, its handle on the device, and the
/// size that the device gave it.
#[derive(Debug, Clone, Copy, PartialEq, Eq, Structural)]
pub struct SgpuResource {
    pub sgp_handle: u64,
    pub gpu_handle: u64,
    pub size: u64,
}

/// A command as a request names it. Colours are the bits of four
/// single-precision numbers.
#[derive(Debug, Clone, Copy, PartialEq, Eq)]
pub enum SgpuCommand {
    CopyBuffer { src: u64, dst: u64, size: u64 },
    RenderClear { color: [u32; 4] },
    ComputeDispatch { kernel_id: u32, grid: (u32, u32, u32), block: (u32, u32, u32) },
    Present { buffer: u64 },
}

#[derive(Debug, Clone, PartialEq, Eq)]
pub struct SgpuCommandList {
    pub cmds: Vec<SgpuCommand>,
}

/// A command as the device takes it.
#[derive(Debug, Clone, Copy, PartialEq, Eq)]
pub enum GpuCommand {
    CopyBuffer { src: u64, dst: u64, size: u64 },
    RenderClear { color: [u32; 4] },
    ComputeKernel { kernel_id: u32, grid: (u32, u32, u32), block: (u32, u32, u32) },
    PresentSwapchain { buffer: u64 },
}

/// What a device says of itself.
#[derive(Debug, Clone, Copy, PartialEq, Eq, Structural)]
pub struct DeviceReport {
    pub vendor: GpuVendor,
    pub metal_version: MetalVersion,
    pub vram_size: u64,
    pub max_threads: u32,
    pub software_accelerated: bool,
}

/// A buffer that a device allocated.
#[derive(Debug, Clone, Copy, PartialEq, Eq, Structural)]
pub struct GpuBuffer {
    pub handle: u64,
    pub size: u64,
}

/// A buffer to allocate, within the session's budgets.
#[derive(Debug, Clone, Copy, PartialEq, Eq, Structural)]
pub struct BufferRequest {
    pub size: u64,
}

/// What a request needs done before it can be answered.
#[derive(Debug, Clone, PartialEq, Eq)]
pub enum SgpuAction {
    /// Ask the device what it is; then `finish_query`.
    Query,
    /// Allocate a buffer; then `finish_create`.
    Allocate(BufferRequest),
    /// Free the buffer with this device handle; then `finish_destroy`.
    Free(u64),
    /// Decode the payload as a command list; then `submit_decoded`.
    Decode,
    /// Run these commands in order; then `finish_present`.
    Run(Vec<GpuCommand>),
}

/// Request session of the graphics service cell.
#[derive(Debug)]
pub struct SgpuSession {
    resources: HashMap<u64, SgpuResource>,
    next_resource_id: u64,
    max_commands: usize,
}

/// Whether a resource with this handle is in the table.
pub open spec fn live(table: Map<u64, SgpuResource>, handle: u64) -> bool {
    table.contains_key(handle)
}

/// What holds of every table of live resources: no more of them than allowed,
/// each under its own handle, which was given out before.
pub open spec fn table_well_formed(table: Map<u64, SgpuResource>, next_id: u64) -> bool {
    &&& table.dom().finite()
    &&& table.len() <= SGPU_MAX_RESOURCES
    &&& 1 <= next_id
    &&& forall|handle: u64| #[trigger]
        table.contains_key(handle) ==> 1 <= handle < next_id && table[handle].sgp_handle == handle
}

/// How many bytes the resources of a table take.
pub open spec fn total_size(table: Map<u64, SgpuResource>) -> nat
    decreases table.len(),
{
    if table.dom().finite() && table.len() > 0 {
        let handle = table.dom().choose();
        table[handle].size as nat + total_size(table.remove(handle))
    } else {
        0
    }
}

/// The device's handle for a resource.
pub open spec fn device_handle(table: Map<u64, SgpuResource>, handle: u64) -> Result<u64, SgpuError> {
    if live(table, handle) {
        Ok(table[handle].gpu_handle)
    } else {
        Err(SgpuError::ResourceNotFound(handle))
    }
}

/// The device command for a request command.
pub open spec fn translated(table: Map<u64, SgpuResource>, command: SgpuCommand) -> Result<
    GpuCommand,
    SgpuError,
> {
    match command {
        SgpuCommand::CopyBuffer { src, dst, size } => match device_handle(table, src) {
            Err(error) => Err(error),
            Ok(src) => match device_handle(table, dst) {
                Err(error) => Err(error),
                Ok(dst) => Ok(GpuCommand::CopyBuffer { src, dst, size }),
            },
        },
        SgpuCommand::RenderClear { color } => Ok(GpuCommand::RenderClear { color }),
        SgpuCommand::ComputeDispatch { kernel_id, grid, block } => Ok(
            GpuCommand::ComputeKernel { kernel_id, grid, block },
        ),
        SgpuCommand::Present { buffer } => match device_handle(table, buffer) {
            Err(error) => Err(error),
            Ok(buffer) => Ok(GpuCommand::PresentSwapchain { buffer }),
        },
    }
}

/// The device commands for request commands, in order, or the first error.
pub open spec fn translated_all(table: Map<u64, SgpuResource>, commands: Seq<SgpuCommand>) -> Result<
    Seq<GpuCommand>,
    SgpuError,
>
    decreases commands.len(),
{
    if commands.len() == 0 {
        Ok(Seq::empty())
    } else {
        match translated_all(table, commands.drop_last()) {
            Err(error) => Err(error),
            Ok(before) => match translated(table, commands.last()) {
                Err(error) => Err(error),
                Ok(command) => Ok(before.push(command)),
            },
        }
    }
}

/// What a list of device commands amounts to.
pub open spec fn run_outcome(commands: Result<Vec<GpuCommand>, SgpuError>) -> Result<
    Seq<GpuCommand>,
    SgpuError,
> {
    match commands {
        Ok(commands) => Ok(commands@),
        Err(error) => Err(error),
    }
}

/// The envelope of an answer with a payload of the given length.
pub open spec fn reply_header(opcode: u16, request_id: u64, payload_bytes: u32) -> VfMsgHeader {
    VfMsgHeader {
        family: VF_FAMILY_SGPU,
        opcode,
        request_id,
        payload_bytes,
        message_bytes: (VF_MSG_BYTES + payload_bytes) as u32,
        ..vf_abi::blank_header()
    }
}

/// Whether `frame` is the answer with this opcode and payload to a request.
pub open spec fn answers(frame: SgpuFrame, request: SgpuFrame, opcode: u16, payload: Seq<u8>) -> bool {
    &&& frame.header == reply_header(opcode, request.header.request_id, payload.len() as u32)
    &&& frame.payload@ == payload
}

/// The content of an action.
pub enum ActionModel {
    Query,
    Allocate(u64),
    Free(u64),
    Decode,
    Run(Seq<GpuCommand>),
}

/// What a dispatched request amounts to.
pub open spec fn action_outcome(action: Result<SgpuAction, SgpuError>) -> Result<
    ActionModel,
    SgpuError,
> {
    match action {
        Err(error) => Err(error),
        Ok(SgpuAction::Query) => Ok(ActionModel::Query),
        Ok(SgpuAction::Allocate(request)) => Ok(ActionModel::Allocate(request.size)),
        Ok(SgpuAction::Free(handle)) => Ok(ActionModel::Free(handle)),
        Ok(SgpuAction::Decode) => Ok(ActionModel::Decode),
        Ok(SgpuAction::Run(commands)) => Ok(ActionModel::Run(commands@)),
    }
}

/// The number that an eight-byte payload holds.
pub open spec fn payload_number(frame: SgpuFrame) -> u64 {
    codec::le_value(frame.payload@) as u64
}

/// What the device's own verdict amounts to.
pub open spec fn device_verdict(outcome: Result<(), String>) -> Result<(), SgpuError> {
    match outcome {
        Ok(()) => Ok(()),
        Err(reason) => Err(SgpuError::Gpu(reason)),
    }
}

/// What a session reports of a device. A session has no compute backend.
pub open spec fn reported_caps(device: DeviceReport) -> SgpuCaps {
    SgpuCaps {
        vendor: device.vendor,
        metal_version: device.metal_version,
        vram_bytes: device.vram_size,
        max_threads_per_threadgroup: device.max_threads,
        has_compute_shaders: false,
        software_accelerated: device.software_accelerated,
    }
}

impl SgpuSession {
    /// The live resources, by handle.
    pub closed spec fn table(&self) -> Map<u64, SgpuResource> {
        self.resources@
    }

    /// The handle that the next resource gets.
    pub closed spec fn next_id(&self) -> u64 {
        self.next_resource_id
    }

    /// How many commands one list may hold.
    pub closed spec fn command_limit(&self) -> usize {
        self.max_commands
    }

    /// What holds of every session.
    pub open spec fn well_formed(&self) -> bool {
        table_well_formed(self.table(), self.next_id())
    }

    /// Why a resource of this size is refused, if it is.
    pub open spec fn resource_refusal(&self, size: u64) -> Option<SgpuError> {
        if size == 0 {
            Some(SgpuError::Payload)
        } else if size > SGPU_MAX_RESOURCE_BYTES || self.table().len() >= SGPU_MAX_RESOURCES {
            Some(SgpuError::ResourceLimit)
        } else if total_size(self.table()) + size > SGPU_MAX_TOTAL_RESOURCE_BYTES {
            Some(SgpuError::ResourceLimit)
        } else if self.next_id() == u64::MAX {
            Some(SgpuError::ResourceLimit)
        } else {
            None
        }
    }

    /// The device commands that a command list stands for, or why it is
    /// refused.
    pub open spec fn submission(&self, commands: Seq<SgpuCommand>) -> Result<
        Seq<GpuCommand>,
        SgpuError,
    > {
        if commands.len() > self.command_limit() {
            Err(SgpuError::Payload)
        } else {
            translated_all(self.table(), commands)
        }
    }

    /// What a request asks of the device, or why it is refused. The frame is
    /// checked before its opcode is looked at.
    pub open spec fn dispatch_verdict(&self, frame: SgpuFrame) -> Result<ActionModel, SgpuError> {
        let eight = frame.payload@.len() == 8;
        let number = payload_number(frame);
        match sgpu::frame_refusal(frame.header, frame.payload@) {
            Some(error) => Err(error),
            None => if frame.header.opcode == VF_SGPU_QUERY_CAPS {
                if frame.payload@.len() != 0 {
                    Err(SgpuError::Payload)
                } else {
                    Ok(ActionModel::Query)
                }
            } else if frame.header.opcode == VF_SGPU_CREATE_RESOURCE {
                if !eight {
                    Err(SgpuError::Payload)
                } else {
                    match self.resource_refusal(number) {
                        Some(error) => Err(error),
                        None => Ok(ActionModel::Allocate(number)),
                    }
                }
            } else if frame.header.opcode == VF_SGPU_DESTROY_RESOURCE {
                if !eight {
                    Err(SgpuError::Payload)
                } else {
                    match device_handle(self.table(), number) {
                        Err(error) => Err(error),
                        Ok(handle) => Ok(ActionModel::Free(handle)),
                    }
                }
            } else if frame.header.opcode == VF_SGPU_SUBMIT_COMMAND_LIST {
                Ok(ActionModel::Decode)
            } else if frame.header.opcode == VF_SGPU_PRESENT {
                if !eight {
                    Err(SgpuError::Payload)
                } else {
                    match self.submission(seq![SgpuCommand::Present { buffer: number }]) {
                        Err(error) => Err(error),
                        Ok(commands) => Ok(ActionModel::Run(commands)),
                    }
                }
            } else {
                Err(SgpuError::Vf(VfError::Eabi("unknown SGPU opcode")))
            },
        }
    }

    /// A session without resources. A device takes at most `max_commands`
    /// commands in one list.
    pub fn new(max_commands: usize) -> (session: Self)
        ensures
            session.well_formed(),
            session.table().len() == 0,
            session.next_id() == 1,
            session.command_limit() == max_commands,
    {
        SgpuSession { resources: HashMap::new(), next_resource_id: 1, max_commands }
    }

    /// What the session reports of a device.
    pub fn query_caps(&self, device: &DeviceReport) -> (caps: SgpuCaps)
        ensures
            caps == reported_caps(*device),
    {
        SgpuCaps {
            vendor: device.vendor,
            metal_version: device.metal_version,
            vram_bytes: device.vram_size,
            max_threads_per_threadgroup: device.max_threads,
            has_compute_shaders: false,
            software_accelerated: device.software_accelerated,
        }
    }

    /// Checks a new resource against the budgets: the buffer to allocate.
    pub fn create_resource(&self, size: u64) -> (request: Result<BufferRequest, SgpuError>)
        requires
            self.well_formed(),
        ensures
            request == match self.resource_refusal(size) {
                Some(error) => Err::<BufferRequest, SgpuError>(error),
                None => Ok(BufferRequest { size }),
            },
    {
        if size == 0 {
            return Err(SgpuError::Payload);
        }
        if size > SGPU_MAX_RESOURCE_BYTES || self.resources.len() >= SGPU_MAX_RESOURCES {
            return Err(SgpuError::ResourceLimit);
        }
        let mut total: u64 = size;
        let entries = self.resources.iter();
        let ghost listing = vstd::std_specs::iter::IteratorSpec::remaining(&entries);
        assert(lists(listing, self.table())) by {
            assert forall|i: int, j: int| 0 <= i < j < listing.len() implies *(
            #[trigger] listing[i]).0 != *(#[trigger] listing[j]).0 by {
                assert(self.resources@.contains_key(*listing[i].0));
                assert(self.resources@.contains_key(*listing[j].0));
            }
            assert forall|i: int| 0 <= i < listing.len() implies self.resources@.contains_key(
                *(#[trigger] listing[i]).0,
            ) && self.resources@[*listing[i].0] == *listing[i].1 by {
                assert(self.resources@.contains_key(*listing[i].0));
            }
        }
        assert(listing.take(0) =~= Seq::empty());
        for entry in it: entries
            invariant
                it.seq() == listing,
                lists(listing, self.table()),
                total == size + listed_size(listing.take(it.index() as int)),
                size > 0,
                size <= SGPU_MAX_RESOURCE_BYTES,
                self.table().len() < SGPU_MAX_RESOURCES,
        {
            proof {
                let more = listing.take(it.index() + 1);
                assert(more.drop_last() =~= listing.take(it.index() as int));
                lemma_listed_part(listing, it.index() + 1);
                lemma_listed_is_total(listing, self.table());
            }
            total = match total.checked_add(entry.1.size) {
                Some(total) => total,
                None => return Err(SgpuError::ResourceLimit),
            };
        }
        proof {
            assert(listing.take(listing.len() as int) =~= listing);
            lemma_listed_is_total(listing, self.table());
        }
        if total > SGPU_MAX_TOTAL_RESOURCE_BYTES {
            return Err(SgpuError::ResourceLimit);
        }
        if self.next_resource_id == u64::MAX {
            return Err(SgpuError::ResourceLimit);
        }
        Ok(BufferRequest { size })
    }

    /// Enters a buffer that the device allocated on an admitted request.
    pub fn adopt_buffer(&mut self, request: BufferRequest, buffer: GpuBuffer) -> (resource:
        SgpuResource)
        requires
            old(self).well_formed(),
            old(self).resource_refusal(request.size) is None,
        ensures
            final(self).well_formed(),
            resource == (SgpuResource {
                sgp_handle: old(self).next_id(),
                gpu_handle: buffer.handle,
                size: buffer.size,
            }),
            final(self).table() == old(self).table().insert(resource.sgp_handle, resource),
            final(self).next_id() == old(self).next_id() + 1,
            final(self).command_limit() == old(self).command_limit(),
    {
        let resource: SgpuResource = SgpuResource {
            sgp_handle: self.next_resource_id,
            gpu_handle: buffer.handle,
            size: buffer.size,
        };
        self.next_resource_id = self.next_resource_id + 1;
        self.resources.insert(resource.sgp_handle, resource);
        resource
    }

    /// Takes a resource out of the table: the device handle to free.
    pub fn destroy_resource(&mut self, handle: u64) -> (freed: Result<u64, SgpuError>)
        requires
            old(self).well_formed(),
        ensures
            final(self).well_formed(),
            freed == device_handle(old(self).table(), handle),
            final(self).table() == old(self).table().remove(handle),
            final(self).next_id() == old(self).next_id(),
            final(self).command_limit() == old(self).command_limit(),
    {
        match self.resources.remove(&handle) {
            Some(resource) => Ok(resource.gpu_handle),
            None => Err(SgpuError::ResourceNotFound(handle)),
        }
    }

    /// The device's handle for a resource.
    pub fn gpu_handle(&self, sgp_handle: u64) -> (handle: Result<u64, SgpuError>)
        requires
            self.well_formed(),
        ensures
            handle == device_handle(self.table(), sgp_handle),
    {
        match self.resources.get(&sgp_handle) {
            Some(resource) => Ok(resource.gpu_handle),
            None => Err(SgpuError::ResourceNotFound(sgp_handle)),
        }
    }

    /// The device command for a request command.
    fn translate(&self, command: &SgpuCommand) -> (translation: Result<GpuCommand, SgpuError>)
        requires
            self.well_formed(),
        ensures
            translation == translated(self.table(), *command),
    {
        match command {
            SgpuCommand::CopyBuffer { src, dst, size } => {
                let src_handle: u64 = self.gpu_handle(*src)?;
                let dst_handle: u64 = self.gpu_handle(*dst)?;
                Ok(GpuCommand::CopyBuffer { src: src_handle, dst: dst_handle, size: *size })
            },
            SgpuCommand::RenderClear { color } => Ok(GpuCommand::RenderClear { color: *color }),
            SgpuCommand::ComputeDispatch { kernel_id, grid, block } => Ok(
                GpuCommand::ComputeKernel { kernel_id: *kernel_id, grid: *grid, block: *block },
            ),
            SgpuCommand::Present { buffer } => {
                let handle: u64 = self.gpu_handle(*buffer)?;
                Ok(GpuCommand::PresentSwapchain { buffer: handle })
            },
        }
    }

    /// The device commands for a command list, to be run in order.
    pub fn submit(&self, list: &SgpuCommandList) -> (commands: Result<Vec<GpuCommand>, SgpuError>)
        requires
            self.well_formed(),
        ensures
            run_outcome(commands) == self.submission(list.cmds@),
    {
        if list.cmds.len() > self.max_commands {
            return Err(SgpuError::Payload);
        }
        let mut commands: Vec<GpuCommand> = Vec::with_capacity(list.cmds.len());
        let mut i: usize = 0;
        assert(list.cmds@.take(0) =~= Seq::empty());
        while i < list.cmds.len()
            invariant
                i <= list.cmds@.len(),
                self.well_formed(),
                list.cmds@.len() <= self.command_limit(),
                translated_all(self.table(), list.cmds@.take(i as int)) == Ok::<
                    Seq<GpuCommand>,
                    SgpuError,
                >(commands@),
            decreases list.cmds@.len() - i,
        {
            let ghost more = list.cmds@.take(i + 1);
            assert(more.drop_last() =~= list.cmds@.take(i as int));
            assert(more.last() == list.cmds@[i as int]);
            match self.translate(&list.cmds[i]) {
                Ok(command) => {
                    commands.push(command);
                },
                Err(error) => {
                    proof {
                        lemma_translation_error_stays(self.table(), list.cmds@, i + 1);
                    }
                    return Err(error);
                },
            }
            i = i + 1;
        }
        assert(list.cmds@.take(i as int) =~= list.cmds@);
        Ok(commands)
    }

    /// The device commands for a decoded command list; `None` stands for a
    /// payload that is no command list.
    pub fn submit_decoded(&self, decoded: Option<&SgpuCommandList>) -> (commands: Result<
        Vec<GpuCommand>,
        SgpuError,
    >)
        requires
            self.well_formed(),
        ensures
            run_outcome(commands) == match decoded {
                Some(list) => self.submission(list.cmds@),
                None => Err(SgpuError::Payload),
            },
    {
        match decoded {
            Some(list) => self.submit(list),
            None => Err(SgpuError::Payload),
        }
    }

    /// The device commands that present a resource.
    pub fn present(&self, resource: u64) -> (commands: Result<Vec<GpuCommand>, SgpuError>)
        requires
            self.well_formed(),
        ensures
            run_outcome(commands) == self.submission(
                seq![SgpuCommand::Present { buffer: resource }],
            ),
    {
        let mut cmds: Vec<SgpuCommand> = Vec::new();
        cmds.push(SgpuCommand::Present { buffer: resource });
        let list: SgpuCommandList = SgpuCommandList { cmds };
        assert(list.cmds@ =~= seq![SgpuCommand::Present { buffer: resource }]);
        self.submit(&list)
    }

    /// Takes in a request: what the device has to do for it. A resource that
    /// is to be destroyed leaves the table at once.
    pub fn dispatch(&mut self, frame: &SgpuFrame) -> (action: Result<SgpuAction, SgpuError>)
        requires
            old(self).well_formed(),
        ensures
            final(self).well_formed(),
            action_outcome(action) == old(self).dispatch_verdict(*frame),
            final(self).table() == match action {
                Ok(SgpuAction::Free(_)) => old(self).table().remove(payload_number(*frame)),
                _ => old(self).table(),
            },
            final(self).next_id() == old(self).next_id(),
            final(self).command_limit() == old(self).command_limit(),
    {
        frame.validate()?;
        let opcode: u16 = frame.header.opcode;
        if opcode == VF_SGPU_QUERY_CAPS {
            if frame.payload.len() != 0 {
                return Err(SgpuError::Payload);
            }
            return Ok(SgpuAction::Query);
        }
        if opcode == VF_SGPU_SUBMIT_COMMAND_LIST {
            return Ok(SgpuAction::Decode);
        }
        if opcode != VF_SGPU_CREATE_RESOURCE && opcode != VF_SGPU_DESTROY_RESOURCE && opcode
            != VF_SGPU_PRESENT {
            return Err(SgpuError::Vf(VfError::Eabi("unknown SGPU opcode")));
        }
        if frame.payload.len() != 8 {
            return Err(SgpuError::Payload);
        }
        let number: u64 = codec::get_le(frame.payload.as_slice(), 0, 8);
        assert(frame.payload@.subrange(0, 8) =~= frame.payload@);
        if opcode == VF_SGPU_CREATE_RESOURCE {
            let request: BufferRequest = self.create_resource(number)?;
            return Ok(SgpuAction::Allocate(request));
        }
        if opcode == VF_SGPU_DESTROY_RESOURCE {
            let handle: u64 = self.destroy_resource(number)?;
            return Ok(SgpuAction::Free(handle));
        }
        let commands: Vec<GpuCommand> = self.present(number)?;
        Ok(SgpuAction::Run(commands))
    }

    /// Answers a capability query.
    pub fn finish_query(&self, request: &SgpuFrame, device: &DeviceReport) -> (reply: SgpuFrame)
        ensures
            answers(reply, *request, VF_SGPU_QUERY_CAPS, reported_caps(*device).wire()),
    {
        proof {
            sgpu::law_caps_roundtrip(reported_caps(*device));
        }
        let caps: [u8; 40] = self.query_caps(device).encode();
        let payload: Vec<u8> = vstd::slice::slice_to_vec(caps.as_slice());
        reply(VF_SGPU_QUERY_CAPS, request.header.request_id, payload)
    }

    /// Enters the buffer allocated for an admitted resource, and answers with
    /// the resource's handle.
    pub fn finish_create(
        &mut self,
        request: &SgpuFrame,
        admitted: BufferRequest,
        buffer: GpuBuffer,
    ) -> (reply: SgpuFrame)
        requires
            old(self).well_formed(),
            old(self).resource_refusal(admitted.size) is None,
        ensures
            final(self).well_formed(),
            final(self).table() == old(self).table().insert(
                old(self).next_id(),
                SgpuResource {
                    sgp_handle: old(self).next_id(),
                    gpu_handle: buffer.handle,
                    size: buffer.size,
                },
            ),
            final(self).next_id() == old(self).next_id() + 1,
            final(self).command_limit() == old(self).command_limit(),
            answers(
                reply,
                *request,
                VF_SGPU_CREATE_RESOURCE,
                codec::le_bytes(old(self).next_id() as nat, 8),
            ),
    {
        let resource: SgpuResource = self.adopt_buffer(admitted, buffer);
        proof {
            codec::lemma_le_bytes_len(resource.sgp_handle as nat, 8);
        }
        let mut payload: Vec<u8> = Vec::new();
        codec::put_le(&mut payload, resource.sgp_handle, 8);
        assert(payload@ =~= codec::le_bytes(resource.sgp_handle as nat, 8));
        reply(VF_SGPU_CREATE_RESOURCE, request.header.request_id, payload)
    }

    /// Answers once the device has freed a buffer, or failed to.
    pub fn finish_destroy(&self, request: &SgpuFrame, freed: Result<(), String>) -> (reply: Result<
        SgpuFrame,
        SgpuError,
    >)
        ensures
            match device_verdict(freed) {
                Err(error) => reply == Err::<SgpuFrame, SgpuError>(error),
                Ok(_) => reply matches Ok(frame) && answers(
                    frame,
                    *request,
                    VF_SGPU_DESTROY_RESOURCE,
                    Seq::empty(),
                ),
            },
    {
        if let Err(reason) = freed {
            return Err(SgpuError::Gpu(reason));
        }
        Ok(reply(VF_SGPU_DESTROY_RESOURCE, request.header.request_id, Vec::new()))
    }

    /// Answers once the device has run a command list, or failed to, with how
    /// many commands it was.
    pub fn finish_submit(
        &self,
        request: &SgpuFrame,
        list: &SgpuCommandList,
        ran: Result<(), String>,
    ) -> (reply: Result<SgpuFrame, SgpuError>)
        ensures
            match device_verdict(ran) {
                Err(error) => reply == Err::<SgpuFrame, SgpuError>(error),
                Ok(_) => reply matches Ok(frame) && answers(
                    frame,
                    *request,
                    VF_SGPU_SUBMIT_COMMAND_LIST,
                    codec::le_bytes(list.cmds@.len(), 4),
                ),
            },
    {
        if let Err(reason) = ran {
            return Err(SgpuError::Gpu(reason));
        }
        proof {
            codec::lemma_le_bytes_len(list.cmds@.len(), 4);
        }
        let mut payload: Vec<u8> = Vec::new();
        codec::put_le(&mut payload, list.cmds.len() as u64, 4);
        assert(payload@ =~= codec::le_bytes(list.cmds@.len(), 4));
        Ok(reply(VF_SGPU_SUBMIT_COMMAND_LIST, request.header.request_id, payload))
    }

    /// Answers once the device has presented a buffer, or failed to.
    pub fn finish_present(&self, request: &SgpuFrame, ran: Result<(), String>) -> (reply: Result<
        SgpuFrame,
        SgpuError,
    >)
        ensures
            match device_verdict(ran) {
                Err(error) => reply == Err::<SgpuFrame, SgpuError>(error),
                Ok(_) => reply matches Ok(frame) && answers(
                    frame,
                    *request,
                    VF_SGPU_PRESENT,
                    Seq::empty(),
                ),
            },
    {
        if let Err(reason) = ran {
            return Err(SgpuError::Gpu(reason));
        }
        Ok(reply(VF_SGPU_PRESENT, request.header.request_id, Vec::new()))
    }
}

/// An answer to the request with the given id.
fn reply(opcode: u16, request_id: u64, payload: Vec<u8>) -> (frame: SgpuFrame)
    requires
        payload@.len() <= VF_PAYLOAD_MAX,
    ensures
        frame.header == reply_header(opcode, request_id, payload@.len() as u32),
        frame.payload@ == payload@,
{
    let mut header: VfMsgHeader = VfMsgHeader::new(VF_FAMILY_SGPU, opcode);
    header.request_id = request_id;
    header.payload_bytes = payload.len() as u32;
    header.message_bytes = VF_MSG_BYTES + header.payload_bytes;
    SgpuFrame { header, payload }
}

/// What fails to translate fails in every longer list, for the same reason.
proof fn lemma_translation_error_stays(
    table: Map<u64, SgpuResource>,
    commands: Seq<SgpuCommand>,
    k: int,
)
    requires
        0 <= k <= commands.len(),
        translated_all(table, commands.take(k)) is Err,
    ensures
        translated_all(table, commands) == translated_all(table, commands.take(k)),
    decreases commands.len() - k,
{
    if k < commands.len() {
        assert(commands.take(k + 1).drop_last() =~= commands.take(k));
        lemma_translation_error_stays(table, commands, k + 1);
    } else {
        assert(commands.take(k) =~= commands);
    }
}

/// Whether a listing names every resource of a table once, under its handle.
spec fn lists(listing: Seq<(&u64, &SgpuResource)>, table: Map<u64, SgpuResource>) -> bool {
    &&& table.dom().finite()
    &&& listing.len() == table.len()
    &&& forall|i: int|
        0 <= i < listing.len() ==> table.contains_key(*(#[trigger] listing[i]).0)
            && table[*listing[i].0] == *listing[i].1
    &&& forall|i: int, j: int|
        0 <= i < j < listing.len() ==> *(#[trigger] listing[i]).0 != *(#[trigger] listing[j]).0
}

/// How many bytes the resources of a listing take.
spec fn listed_size(listing: Seq<(&u64, &SgpuResource)>) -> nat
    decreases listing.len(),
{
    if listing.len() == 0 {
        0
    } else {
        listed_size(listing.drop_last()) + listing.last().1.size as nat
    }
}

/// A part of a listing takes no more than all of it.
proof fn lemma_listed_part(listing: Seq<(&u64, &SgpuResource)>, k: int)
    requires
        0 <= k <= listing.len(),
    ensures
        listed_size(listing.take(k)) <= listed_size(listing),
    decreases listing.len() - k,
{
    if k < listing.len() {
        assert(listing.take(k + 1).drop_last() =~= listing.take(k));
        lemma_listed_part(listing, k + 1);
    } else {
        assert(listing.take(k) =~= listing);
    }
}

/// A listing of a table takes what the table takes, in whatever order.
proof fn lemma_listed_is_total(
    listing: Seq<(&u64, &SgpuResource)>,
    table: Map<u64, SgpuResource>,
)
    requires
        lists(listing, table),
    ensures
        listed_size(listing) == total_size(table),
    decreases listing.len(),
{
    if listing.len() > 0 {
        let handle = *listing.last().0;
        let rest = table.remove(handle);
        lemma_total_without(table, handle);
        assert(lists(listing.drop_last(), rest));
        lemma_listed_is_total(listing.drop_last(), rest);
    }
}

/// A table takes the bytes of one resource less without it.
pub proof fn lemma_total_without(table: Map<u64, SgpuResource>, handle: u64)
    requires
        table.dom().finite(),
        table.contains_key(handle),
    ensures
        total_size(table) == table[handle].size + total_size(table.remove(handle)),
        table.remove(handle).dom().finite(),
        table.remove(handle).len() + 1 == table.len(),
    decreases table.len(),
{
    let first = table.dom().choose();
    if first != handle {
        lemma_total_without(table.remove(first), handle);
        lemma_total_without(table.remove(handle), first);
        assert(table.remove(first).remove(handle) =~= table.remove(handle).remove(first));
    }
}

/// Every answer is a valid frame.
pub proof fn law_answers_are_valid_frames(
    frame: SgpuFrame,
    request: SgpuFrame,
    opcode: u16,
    payload: Seq<u8>,
)
    requires
        answers(frame, request, opcode, payload),
        payload.len() <= VF_PAYLOAD_MAX,
    ensures
        sgpu::frame_refusal(frame.header, frame.payload@) is None,
{
}

/// Handles are not reused: the next one is on no live resource.
pub proof fn law_next_handle_is_fresh(session: SgpuSession)
    requires
        session.well_formed(),
    ensures
        !live(session.table(), session.next_id()),
{
}

/// An admitted resource for which the device gives the size asked for keeps
/// the live resources within both budgets.
pub proof fn law_admitted_resource_keeps_budgets(
    session: SgpuSession,
    size: u64,
    resource: SgpuResource,
)
    requires
        session.well_formed(),
        session.resource_refusal(size) is None,
        resource.sgp_handle == session.next_id(),
        resource.size == size,
    ensures
        session.table().insert(resource.sgp_handle, resource).len() <= SGPU_MAX_RESOURCES,
        total_size(session.table().insert(resource.sgp_handle, resource))
            <= SGPU_MAX_TOTAL_RESOURCE_BYTES,
{
    let table = session.table().insert(resource.sgp_handle, resource);
    lemma_total_without(table, resource.sgp_handle);
    assert(table.remove(resource.sgp_handle) =~= session.table());
}

/// Destroying a resource gives its count and its bytes back to the budgets.
pub proof fn law_destroyed_resource_restores_budgets(session: SgpuSession, handle: u64)
    requires
        session.well_formed(),
        live(session.table(), handle),
    ensures
        session.table().remove(handle).len() + 1 == session.table().len(),
        total_size(session.table().remove(handle)) + session.table()[handle].size == total_size(
            session.table(),
        ),
{
    lemma_total_without(session.table(), handle);
}

/// Creating a resource and destroying it again leaves the table as it was.
pub proof fn law_destroy_undoes_create(session: SgpuSession, resource: SgpuResource)
    requires
        session.well_formed(),
        resource.sgp_handle == session.next_id(),
    ensures
        live(session.table().insert(resource.sgp_handle, resource), resource.sgp_handle),
        session.table().insert(resource.sgp_handle, resource).remove(resource.sgp_handle)
            == session.table(),
{
    assert(session.table().insert(resource.sgp_handle, resource).remove(resource.sgp_handle)
        =~= session.table());
}

/// A destroyed resource is gone, and every other one stays as it was.
pub proof fn law_destroy_affects_one_resource(session: SgpuSession, handle: u64, other: u64)
    requires
        session.well_formed(),
        live(session.table(), handle),
        other != handle,
    ensures
        !live(session.table().remove(handle), handle),
        device_handle(session.table().remove(handle), other) == device_handle(
            session.table(),
            other,
        ),
{
}

/// A list becomes as many device commands, in the same order; it is refused
/// whole where one of its commands is.
pub proof fn law_translation_is_whole(table: Map<u64, SgpuResource>, commands: Seq<SgpuCommand>)
    ensures
        match translated_all(table, commands) {
            Ok(out) => {
                &&& out.len() == commands.len()
                &&& forall|i: int|
                    0 <= i < commands.len() ==> translated(table, #[trigger] commands[i]) == Ok::<
                        GpuCommand,
                        SgpuError,
                    >(out[i])
            },
            Err(error) => exists|i: int|
                0 <= i < commands.len() && translated(table, #[trigger] commands[i]) == Err::<
                    GpuCommand,
                    SgpuError,
                >(error),
        },
    decreases commands.len(),
{
    if commands.len() > 0 {
        let before = commands.drop_last();
        law_translation_is_whole(table, before);
        let n = commands.len() - 1;
        assert(commands.last() == commands[n]);
        match translated_all(table, before) {
            Err(error) => {
                let i = choose|i: int|
                    0 <= i < before.len() && translated(table, #[trigger] before[i]) == Err::<
                        GpuCommand,
                        SgpuError,
                    >(error);
                assert(before[i] == commands[i]);
            },
            Ok(done) => {
                assert forall|i: int|
                    0 <= i < commands.len() && translated(table, commands.last()) is Ok implies (
                match translated_all(table, commands) {
                    Ok(out) => translated(table, #[trigger] commands[i]) == Ok::<
                        GpuCommand,
                        SgpuError,
                    >(out[i]),
                    Err(_) => true,
                }) by {
                    if i < n {
                        assert(before[i] == commands[i]);
                    }
                }
            },
        }
    }
}

} // verus!
