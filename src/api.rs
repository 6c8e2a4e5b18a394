use vstd::prelude::*;

use crate::config::{
    DeviceConfig, DiskConfig, FsConfig, NetConfig, PmemConfig, VmConfig, VsockConfig,
};
use crate::vm::{VmError, VmState};
use std::sync::mpsc::{RecvError, Sender};
use std::sync::{Arc, Mutex};

verus! {

/// The sending half of a std channel, carried opaquely inside an envelope.
#[verifier::external_type_specification]
#[verifier::external_body]
#[verifier::reject_recursive_types(T)]
pub struct ExSender<T>(std::sync::mpsc::Sender<T>);

/// The error of a blocking receive on a std channel whose senders are gone.
#[verifier::external_type_specification]
#[verifier::external_body]
pub struct ExRecvError(std::sync::mpsc::RecvError);

/// An I/O error, as reported by a failed wakeup write.
#[verifier::external_type_specification]
#[verifier::external_body]
pub struct ExIoError(std::io::Error);

/// A std mutex, which guards the shared VM configuration.
#[verifier::external_type_specification]
#[verifier::external_body]
#[verifier::reject_recursive_types(T)]
pub struct ExMutex<T: ?Sized>(std::sync::Mutex<T>);

/// The one error type of every call: transport failures and domain failures.
#[derive(Debug)]
pub enum ApiError {
    /// Cannot write to the wakeup event.
    EventFdWrite(std::io::Error),
    /// The request could not be pushed onto the command queue.
    RequestSend,
    /// The reply did not carry the payload shape the command expects.
    ResponsePayloadType,
    /// The reply channel was closed before a reply arrived.
    ResponseRecv(RecvError),
    /// The VM could not boot.
    VmBoot(VmError),
    /// The VM is already created.
    VmAlreadyCreated,
    /// The VM could not be created.
    VmCreate(VmError),
    /// The VM could not be deleted.
    VmDelete(VmError),
    /// The VM info is not available.
    VmInfo(VmError),
    /// The VM config is missing.
    VmMissingConfig,
    /// The VM is not booted.
    VmNotBooted,
    /// The VM is not created.
    VmNotCreated,
    /// The VM could not shutdown.
    VmShutdown(VmError),
    /// The VM could not reboot.
    VmReboot(VmError),
    /// The VMM could not shutdown.
    VmmShutdown(VmError),
    /// The device could not be added to the VM.
    VmAddDevice(VmError),
    /// The device could not be removed from the VM.
    VmRemoveDevice(VmError),
    /// The disk could not be added to the VM.
    VmAddDisk(VmError),
    /// The fs could not be added to the VM.
    VmAddFs(VmError),
    /// The pmem device could not be added to the VM.
    VmAddPmem(VmError),
    /// The network device could not be added to the VM.
    VmAddNet(VmError),
    /// The vsock device could not be added to the VM.
    VmAddVsock(VmError),
}

impl ApiError {
    /// Transport errors come from the queue, the wakeup or the reply channel,
    /// never from the VM engine.
    pub open spec fn is_transport(&self) -> bool {
        ||| self is EventFdWrite
        ||| self is RequestSend
        ||| self is ResponsePayloadType
        ||| self is ResponseRecv
    }

    /// Whether this error is one of the four transport kinds.
    pub fn transport(&self) -> (r: bool)
        ensures
            r == self.is_transport(),
    {
        match self {
            ApiError::EventFdWrite(_) | ApiError::RequestSend | ApiError::ResponsePayloadType
            | ApiError::ResponseRecv(_) => true,
            _ => false,
        }
    }
}

pub type ApiResult<T> = Result<T, ApiError>;

/// A snapshot of the virtual machine: its shared configuration and its state.
#[derive(Clone)]
pub struct VmInfo {
    pub config: Arc<Mutex<VmConfig>>,
    pub state: VmState,
}

/// The answer to a ping.
#[derive(Clone, Debug)]
pub struct VmmPingResponse {
    pub version: String,
}

/// The identifier of a device to remove.
#[derive(Clone, Debug)]
pub struct VmRemoveDeviceData {
    pub id: String,
}

/// The payload of a successful reply.
pub enum ApiResponsePayload {
    /// No data is sent on the channel.
    Empty,
    /// Virtual machine information.
    VmInfo(VmInfo),
    /// VMM ping response.
    VmmPing(VmmPingResponse),
}

/// What the dispatcher sends back through a reply channel.
pub type ApiResponse = Result<ApiResponsePayload, ApiError>;

/// A command envelope: the command, its payload, and the sending half of the
/// caller's private reply channel.
pub enum ApiRequest {
    /// Create the virtual machine from the given configuration.
    VmCreate(Arc<Mutex<VmConfig>>, Sender<ApiResponse>),
    /// Boot the previously created virtual machine.
    VmBoot(Sender<ApiResponse>),
    /// Delete the previously created virtual machine.
    VmDelete(Sender<ApiResponse>),
    /// Request the VM information.
    VmInfo(Sender<ApiResponse>),
    /// Request the VMM API server status.
    VmmPing(Sender<ApiResponse>),
    /// Shut the previously booted virtual machine down.
    VmShutdown(Sender<ApiResponse>),
    /// Reboot the previously booted virtual machine.
    VmReboot(Sender<ApiResponse>),
    /// Shut the VMM down.
    VmmShutdown(Sender<ApiResponse>),
    /// Add a device to the VM.
    VmAddDevice(Arc<DeviceConfig>, Sender<ApiResponse>),
    /// Remove a device from the VM.
    VmRemoveDevice(Arc<VmRemoveDeviceData>, Sender<ApiResponse>),
    /// Add a disk to the VM.
    VmAddDisk(Arc<DiskConfig>, Sender<ApiResponse>),
    /// Add a fs to the VM.
    VmAddFs(Arc<FsConfig>, Sender<ApiResponse>),
    /// Add a pmem device to the VM.
    VmAddPmem(Arc<PmemConfig>, Sender<ApiResponse>),
    /// Add a network device to the VM.
    VmAddNet(Arc<NetConfig>, Sender<ApiResponse>),
    /// Add a vsock device to the VM.
    VmAddVsock(Arc<VsockConfig>, Sender<ApiResponse>),
}

impl ApiRequest {
    /// The reply sender that the envelope carries.
    pub open spec fn reply_to(&self) -> Sender<ApiResponse> {
        match self {
            ApiRequest::VmCreate(_, s) => *s,
            ApiRequest::VmBoot(s) => *s,
            ApiRequest::VmDelete(s) => *s,
            ApiRequest::VmInfo(s) => *s,
            ApiRequest::VmmPing(s) => *s,
            ApiRequest::VmShutdown(s) => *s,
            ApiRequest::VmReboot(s) => *s,
            ApiRequest::VmmShutdown(s) => *s,
            ApiRequest::VmAddDevice(_, s) => *s,
            ApiRequest::VmRemoveDevice(_, s) => *s,
            ApiRequest::VmAddDisk(_, s) => *s,
            ApiRequest::VmAddFs(_, s) => *s,
            ApiRequest::VmAddPmem(_, s) => *s,
            ApiRequest::VmAddNet(_, s) => *s,
            ApiRequest::VmAddVsock(_, s) => *s,
        }
    }

    /// The payload shape a successful reply to this command must have.
    pub open spec fn expected_shape(&self) -> ReplyShape {
        match self {
            ApiRequest::VmInfo(_) => ReplyShape::VmInfo,
            ApiRequest::VmmPing(_) => ReplyShape::VmmPing,
            _ => ReplyShape::Any,
        }
    }

    /// The payload shape a successful reply to this command must have.
    pub fn reply_shape(&self) -> (r: ReplyShape)
        ensures
            r == self.expected_shape(),
    {
        match self {
            ApiRequest::VmInfo(_) => ReplyShape::VmInfo,
            ApiRequest::VmmPing(_) => ReplyShape::VmmPing,
            _ => ReplyShape::Any,
        }
    }
}

/// Which payload a command expects back.
#[derive(Clone, Copy, Debug, PartialEq, Eq, Structural)]
pub enum ReplyShape {
    /// The command returns no data; any payload is acknowledged.
    Any,
    /// The command returns a VM info snapshot.
    VmInfo,
    /// The command returns a ping answer.
    VmmPing,
}

/// A VM lifecycle action: one of the commands that carry no payload and
/// expect no data back.
#[derive(Clone, Copy, Debug, PartialEq, Eq, Structural)]
pub enum VmAction {
    /// Boot a VM.
    Boot,
    /// Delete a VM.
    Delete,
    /// Shut a VM down.
    Shutdown,
    /// Reboot a VM.
    Reboot,
}

impl VmAction {
    /// Builds the envelope of this action around the given reply sender.
    pub fn request(self, response_sender: Sender<ApiResponse>) -> (r: ApiRequest)
        ensures
            r.reply_to() == response_sender,
            r.expected_shape() == ReplyShape::Any,
            self == VmAction::Boot ==> r is VmBoot,
            self == VmAction::Delete ==> r is VmDelete,
            self == VmAction::Shutdown ==> r is VmShutdown,
            self == VmAction::Reboot ==> r is VmReboot,
    {
        match self {
            VmAction::Boot => ApiRequest::VmBoot(response_sender),
            VmAction::Delete => ApiRequest::VmDelete(response_sender),
            VmAction::Shutdown => ApiRequest::VmShutdown(response_sender),
            VmAction::Reboot => ApiRequest::VmReboot(response_sender),
        }
    }
}

} // verus!
