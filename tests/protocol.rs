use std::sync::mpsc::{channel, Receiver, Sender};
use std::sync::{Arc, Mutex};

use vmm_api::api::{
    ApiError, ApiRequest, ApiResponse, ApiResponsePayload, ApiResult, VmAction, VmInfo,
    ReplyShape, VmRemoveDeviceData, VmmPingResponse,
};
use vmm_api::call::{ping_result, unit_result, vm_info_result, ApiCall, CallAction, CallEvent, CallPhase};
use vmm_api::config::{DiskConfig, VmConfig};
use vmm_api::vm::{VmError, VmState};
use vmm_sys_util::eventfd::EventFd;

const EFD_NONBLOCK: i32 = 0o4000;

/// A call that has pushed its envelope and signalled the dispatcher.
struct Pending {
    call: ApiCall,
    reply: Receiver<ApiResponse>,
    outcome: Option<ApiResult<ApiResponsePayload>>,
}

fn issue(
    queue: &Sender<ApiRequest>,
    evt: &EventFd,
    build: impl FnOnce(Sender<ApiResponse>) -> ApiRequest,
) -> Pending {
    let (tx, rx) = channel();
    let request = build(tx);
    let mut call = ApiCall::new(request.reply_shape());
    let sent = queue.send(request).is_ok();
    let mut outcome = None;
    match call.handle(CallEvent::Sent(sent)) {
        CallAction::Notify => match call.handle(CallEvent::Notified(evt.write(1))) {
            CallAction::Receive => {}
            CallAction::Complete(r) => outcome = Some(r),
            CallAction::Notify => panic!("notify twice"),
        },
        CallAction::Complete(r) => outcome = Some(r),
        CallAction::Receive => panic!("receive before notify"),
    }
    Pending { call, reply: rx, outcome }
}

fn wait(mut p: Pending) -> ApiResult<ApiResponsePayload> {
    if let Some(r) = p.outcome.take() {
        return r;
    }
    assert_eq!(p.call.phase(), CallPhase::AwaitReply);
    match p.call.handle(CallEvent::Replied(p.reply.recv())) {
        CallAction::Complete(r) => {
            assert_eq!(p.call.phase(), CallPhase::Done);
            r
        }
        _ => panic!("a reply must complete the call"),
    }
}

fn reply_sender(req: ApiRequest) -> Sender<ApiResponse> {
    match req {
        ApiRequest::VmCreate(_, s)
        | ApiRequest::VmBoot(s)
        | ApiRequest::VmDelete(s)
        | ApiRequest::VmInfo(s)
        | ApiRequest::VmmPing(s)
        | ApiRequest::VmShutdown(s)
        | ApiRequest::VmReboot(s)
        | ApiRequest::VmmShutdown(s)
        | ApiRequest::VmAddDevice(_, s)
        | ApiRequest::VmRemoveDevice(_, s)
        | ApiRequest::VmAddDisk(_, s)
        | ApiRequest::VmAddFs(_, s)
        | ApiRequest::VmAddPmem(_, s)
        | ApiRequest::VmAddNet(_, s)
        | ApiRequest::VmAddVsock(_, s) => s,
    }
}

fn vm_config() -> Arc<Mutex<VmConfig>> {
    Arc::new(Mutex::new(VmConfig {
        vcpus: 1,
        memory_size: 512 << 20,
        kernel: None,
        cmdline: String::new(),
    }))
}

#[test]
fn end_to_end_ping() {
    let (queue, dispatcher) = channel();
    let evt = EventFd::new(0).unwrap();
    let pending = issue(&queue, &evt, ApiRequest::VmmPing);
    assert_eq!(evt.read().unwrap(), 1);
    let req = dispatcher.recv().unwrap();
    assert!(matches!(req, ApiRequest::VmmPing(_)));
    reply_sender(req)
        .send(Ok(ApiResponsePayload::VmmPing(VmmPingResponse { version: "1.0.0".to_string() })))
        .unwrap();
    let pong = ping_result(wait(pending)).unwrap();
    assert_eq!(pong.version, "1.0.0");
}

#[test]
fn second_create_passes_already_created() {
    let (queue, dispatcher) = channel();
    let evt = EventFd::new(0).unwrap();
    let mut created = false;
    let mut results = Vec::new();
    for _ in 0..2 {
        let config = vm_config();
        let pending = issue(&queue, &evt, |tx| ApiRequest::VmCreate(config, tx));
        let req = dispatcher.recv().unwrap();
        let answer = if created { Err(ApiError::VmAlreadyCreated) } else { Ok(ApiResponsePayload::Empty) };
        created = true;
        reply_sender(req).send(answer).unwrap();
        results.push(unit_result(wait(pending)));
    }
    assert!(matches!(results[0], Ok(())));
    assert!(matches!(results[1], Err(ApiError::VmAlreadyCreated)));
}

#[test]
fn domain_error_is_not_reinterpreted() {
    let (queue, dispatcher) = channel();
    let evt = EventFd::new(0).unwrap();
    let pending = issue(&queue, &evt, |tx| VmAction::Boot.request(tx));
    let req = dispatcher.recv().unwrap();
    assert!(matches!(req, ApiRequest::VmBoot(_)));
    let err = VmError { message: "no kernel".to_string() };
    reply_sender(req).send(Err(ApiError::VmBoot(err))).unwrap();
    match unit_result(wait(pending)) {
        Err(ApiError::VmBoot(e)) => assert_eq!(e.message, "no kernel"),
        _ => panic!("expected the boot error"),
    }
}

#[test]
fn mismatched_payload_is_refused() {
    let (queue, dispatcher) = channel();
    let evt = EventFd::new(0).unwrap();
    let pending = issue(&queue, &evt, ApiRequest::VmInfo);
    let req = dispatcher.recv().unwrap();
    reply_sender(req)
        .send(Ok(ApiResponsePayload::VmmPing(VmmPingResponse { version: "x".to_string() })))
        .unwrap();
    assert!(matches!(vm_info_result(wait(pending)), Err(ApiError::ResponsePayloadType)));

    let pending = issue(&queue, &evt, ApiRequest::VmmPing);
    reply_sender(dispatcher.recv().unwrap()).send(Ok(ApiResponsePayload::Empty)).unwrap();
    assert!(matches!(ping_result(wait(pending)), Err(ApiError::ResponsePayloadType)));
}

#[test]
fn vm_info_is_returned() {
    let (queue, dispatcher) = channel();
    let evt = EventFd::new(0).unwrap();
    let config = vm_config();
    let pending = issue(&queue, &evt, ApiRequest::VmInfo);
    let info = VmInfo { config: config.clone(), state: VmState::Running };
    reply_sender(dispatcher.recv().unwrap()).send(Ok(ApiResponsePayload::VmInfo(info))).unwrap();
    let got = vm_info_result(wait(pending)).unwrap();
    assert_eq!(got.state, VmState::Running);
    assert!(Arc::ptr_eq(&got.config, &config));
    assert_eq!(got.config.lock().unwrap().vcpus, 1);
}

#[test]
fn unit_commands_ignore_payload_shape() {
    let (queue, dispatcher) = channel();
    let evt = EventFd::new(0).unwrap();
    let disk = Arc::new(DiskConfig { path: "/img".to_string(), readonly: false, id: None });
    let pending = issue(&queue, &evt, |tx| ApiRequest::VmAddDisk(disk, tx));
    let req = dispatcher.recv().unwrap();
    assert!(matches!(req, ApiRequest::VmAddDisk(_, _)));
    reply_sender(req).send(Ok(ApiResponsePayload::VmmPing(VmmPingResponse { version: String::new() }))).unwrap();
    assert!(matches!(unit_result(wait(pending)), Ok(())));
}

#[test]
fn replies_stay_with_their_callers() {
    let (queue, dispatcher) = channel();
    let evt = EventFd::new(0).unwrap();
    let callers: Vec<Pending> = (0..8).map(|_| issue(&queue, &evt, ApiRequest::VmmPing)).collect();
    assert_eq!(evt.read().unwrap(), 8);
    let mut requests: Vec<ApiRequest> = dispatcher.try_iter().collect();
    assert_eq!(requests.len(), 8);
    // Answer in reverse arrival order, each with a marker of its position.
    let mut i = requests.len();
    while let Some(req) = requests.pop() {
        i -= 1;
        let version = format!("marker-{}", i);
        reply_sender(req).send(Ok(ApiResponsePayload::VmmPing(VmmPingResponse { version }))).unwrap();
    }
    for (i, p) in callers.into_iter().enumerate() {
        let pong = ping_result(wait(p)).unwrap();
        assert_eq!(pong.version, format!("marker-{}", i));
    }
}

#[test]
fn dispatcher_death_unblocks_every_caller() {
    let (queue, dispatcher) = channel();
    let evt = EventFd::new(0).unwrap();
    let callers: Vec<Pending> = (0..5).map(|_| issue(&queue, &evt, |tx| VmAction::Reboot.request(tx))).collect();
    drop(dispatcher);
    for p in callers {
        assert!(matches!(unit_result(wait(p)), Err(ApiError::ResponseRecv(_))));
    }
}

#[test]
fn closed_queue_fails_the_send() {
    let (queue, dispatcher) = channel::<ApiRequest>();
    drop(dispatcher);
    let evt = EventFd::new(EFD_NONBLOCK).unwrap();
    let id = Arc::new(VmRemoveDeviceData { id: "dev0".to_string() });
    let pending = issue(&queue, &evt, |tx| ApiRequest::VmRemoveDevice(id, tx));
    assert_eq!(pending.call.phase(), CallPhase::Done);
    assert!(matches!(unit_result(wait(pending)), Err(ApiError::RequestSend)));
    // Nothing was signalled.
    assert!(evt.read().is_err());
}

#[test]
fn failed_notify_leaves_command_queued() {
    let (queue, dispatcher) = channel();
    let evt = EventFd::new(EFD_NONBLOCK).unwrap();
    evt.write(0xffff_ffff_ffff_fffe).unwrap();
    let pending = issue(&queue, &evt, |tx| VmAction::Shutdown.request(tx));
    assert!(matches!(unit_result(wait(pending)), Err(ApiError::EventFdWrite(_))));
    assert!(matches!(dispatcher.try_recv(), Ok(ApiRequest::VmShutdown(_))));
}

#[test]
fn actions_build_their_envelopes() {
    let (tx, _rx) = channel();
    assert!(matches!(VmAction::Boot.request(tx.clone()), ApiRequest::VmBoot(_)));
    assert!(matches!(VmAction::Delete.request(tx.clone()), ApiRequest::VmDelete(_)));
    assert!(matches!(VmAction::Shutdown.request(tx.clone()), ApiRequest::VmShutdown(_)));
    assert!(matches!(VmAction::Reboot.request(tx), ApiRequest::VmReboot(_)));
}

#[test]
fn transport_kinds() {
    assert!(ApiError::RequestSend.transport());
    assert!(ApiError::ResponsePayloadType.transport());
    assert!(ApiError::ResponseRecv(std::sync::mpsc::RecvError).transport());
    assert!(!ApiError::VmAlreadyCreated.transport());
    assert!(!ApiError::VmNotBooted.transport());
    assert!(!ApiError::VmAddNet(VmError { message: String::new() }).transport());
}

#[test]
fn reply_shapes() {
    let (tx, _rx) = channel();
    assert_eq!(ApiRequest::VmInfo(tx.clone()).reply_shape(), ReplyShape::VmInfo);
    assert_eq!(ApiRequest::VmmPing(tx.clone()).reply_shape(), ReplyShape::VmmPing);
    assert_eq!(ApiRequest::VmmShutdown(tx).reply_shape(), ReplyShape::Any);
}

#[test]
fn call_refuses_wrong_shape_itself() {
    let mut call = ApiCall::new(ReplyShape::VmInfo);
    assert!(matches!(call.handle(CallEvent::Sent(true)), CallAction::Notify));
    assert!(matches!(call.handle(CallEvent::Notified(Ok(()))), CallAction::Receive));
    let reply = Ok(Ok(ApiResponsePayload::Empty));
    assert!(matches!(
        call.handle(CallEvent::Replied(reply)),
        CallAction::Complete(Err(ApiError::ResponsePayloadType))
    ));
    assert_eq!(call.phase(), CallPhase::Done);
}

#[test]
fn call_passes_domain_error() {
    let mut call = ApiCall::new(ReplyShape::Any);
    assert!(matches!(call.handle(CallEvent::Sent(true)), CallAction::Notify));
    assert!(matches!(call.handle(CallEvent::Notified(Ok(()))), CallAction::Receive));
    assert!(matches!(
        call.handle(CallEvent::Replied(Ok(Err(ApiError::VmNotBooted)))),
        CallAction::Complete(Err(ApiError::VmNotBooted))
    ));
}
