//! End-to-end runs of the multiplexer model: registry, worker, sinks and
//! peer sessions composed the way the server's threads drive them.

use camera_mux::errors::DeviceError;
use camera_mux::fraction::Fraction;
use camera_mux::mode::CameraMode;
use camera_mux::registry::{CameraRegistry, WorkerHandle};
use camera_mux::session::{PeerSession, SessionAction, SessionEvent, SessionPhase};
use camera_mux::sink::{RecvOutcome, SubscriberSink};
use camera_mux::worker::{fan_out_round, CameraWorker};

fn mode(width: u32, height: u32, fps: u32) -> CameraMode {
    CameraMode { width, height, frame_interval: Fraction { numerator: 1, denominator: fps } }
}

fn catalog() -> Vec<CameraMode> {
    vec![mode(320, 240, 15), mode(640, 480, 30)]
}

fn recv_frame(sink: &mut SubscriberSink) -> Vec<u8> {
    match sink.recv() {
        RecvOutcome::Frame(f) => f,
        RecvOutcome::Empty => panic!("expected a frame, slot was empty"),
        RecvOutcome::Closed => panic!("expected a frame, sink was closed"),
    }
}

/// One iteration of the worker loop against the model: drain pending
/// enrollments, poll the mode channel, fan one frame out, retire failed
/// sinks, and decide whether to exit.
fn worker_iteration(
    reg: &mut CameraRegistry,
    worker: &mut CameraWorker,
    sinks: &mut Vec<SubscriberSink>,
    path: &String,
    frame: Vec<u8>,
) -> bool {
    let waiting = reg.take_pending(path).unwrap();
    for _ in 0..waiting {
        sinks.push(SubscriberSink::new());
    }
    worker.drain_pending(waiting);
    if let Some(m) = reg.take_mode_request(path) {
        worker.apply_mode_request(Some(m));
        reg.record_current_mode(path, m);
    }
    let _evicted = fan_out_round(worker, sinks, &frame);
    let still_pending = reg.entries[reg.lookup(path).unwrap()].pending_count > 0;
    let exit = worker.finish_iteration(still_pending);
    if exit {
        for sink in sinks.iter_mut() {
            sink.close_producer();
        }
        reg.remove(path);
    }
    exit
}

#[test]
fn single_subscriber_happy_path() {
    let mut reg = CameraRegistry::new();
    let path = "/dev/videoX".to_string();
    assert!(reg.list_active().is_empty());

    // subscribe: no worker yet, so start one, insert it, enroll the sink
    assert!(reg.lookup(&path).is_none());
    let handle = WorkerHandle::new(path.clone(), catalog()).unwrap();
    assert!(reg.insert(handle).is_ok());
    assert!(reg.enroll(&path).is_ok());
    let mut worker = CameraWorker::start(path.clone(), catalog()).unwrap();
    let mut sinks: Vec<SubscriberSink> = Vec::new();

    // frames flow while the consumer keeps up
    assert!(!worker_iteration(&mut reg, &mut worker, &mut sinks, &path, vec![1, 1]));
    assert_eq!(recv_frame(&mut sinks[0]), vec![1, 1]);
    assert!(!worker_iteration(&mut reg, &mut worker, &mut sinks, &path, vec![2, 2]));
    assert_eq!(recv_frame(&mut sinks[0]), vec![2, 2]);

    // the consumer drops; within two iterations the registry entry is gone
    sinks[0].close_consumer();
    let first = worker_iteration(&mut reg, &mut worker, &mut sinks, &path, vec![3, 3]);
    let gone = first || {
        let second = worker_iteration(&mut reg, &mut worker, &mut sinks, &path, vec![4, 4]);
        second
    };
    assert!(gone);
    assert!(!worker.running);
    assert!(reg.lookup(&path).is_none());
    assert!(reg.list_active().is_empty());
}

#[test]
fn fan_out_reaches_every_subscriber() {
    let mut reg = CameraRegistry::new();
    let path = "/dev/videoX".to_string();
    assert!(reg.insert(WorkerHandle::new(path.clone(), catalog()).unwrap()).is_ok());
    let mut worker = CameraWorker::start(path.clone(), catalog()).unwrap();
    let mut sinks: Vec<SubscriberSink> = Vec::new();

    // subscriber A attached and consuming
    assert!(reg.enroll(&path).is_ok());
    assert!(!worker_iteration(&mut reg, &mut worker, &mut sinks, &path, vec![1]));
    assert_eq!(recv_frame(&mut sinks[0]), vec![1]);

    // subscriber B joins; both now see every frame from B's enrollment on
    assert!(reg.enroll(&path).is_ok());
    assert!(!worker_iteration(&mut reg, &mut worker, &mut sinks, &path, vec![2]));
    assert_eq!(worker.live_count, 2);
    assert_eq!(recv_frame(&mut sinks[0]), vec![2]);
    assert_eq!(recv_frame(&mut sinks[1]), vec![2]);
    assert!(!worker_iteration(&mut reg, &mut worker, &mut sinks, &path, vec![3]));
    assert_eq!(recv_frame(&mut sinks[0]), vec![3]);
    assert_eq!(recv_frame(&mut sinks[1]), vec![3]);
}

#[test]
fn slow_subscriber_is_evicted_alone() {
    let mut reg = CameraRegistry::new();
    let path = "/dev/videoX".to_string();
    assert!(reg.insert(WorkerHandle::new(path.clone(), catalog()).unwrap()).is_ok());
    let mut worker = CameraWorker::start(path.clone(), catalog()).unwrap();
    let mut sinks: Vec<SubscriberSink> = Vec::new();

    // A consumes, B never does
    assert!(reg.enroll(&path).is_ok());
    assert!(reg.enroll(&path).is_ok());
    assert!(!worker_iteration(&mut reg, &mut worker, &mut sinks, &path, vec![1]));
    assert_eq!(worker.live_count, 2);
    assert_eq!(recv_frame(&mut sinks[0]), vec![1]);

    // B's slot is still full: the next send to B fails and B is dropped,
    // its producer side closed; A is untouched
    let evicted = fan_out_round(&mut worker, &mut sinks, &vec![2]);
    assert_eq!(worker.live_count, 1);
    assert_eq!(sinks.len(), 1);
    assert_eq!(evicted.len(), 1);
    let mut b = evicted.into_iter().next().unwrap();
    assert_eq!(recv_frame(&mut b), vec![1]);
    assert!(matches!(b.recv(), RecvOutcome::Closed));
    assert_eq!(recv_frame(&mut sinks[0]), vec![2]);

    // A's stream goes on uninterrupted
    assert!(!worker_iteration(&mut reg, &mut worker, &mut sinks, &path, vec![3]));
    assert_eq!(recv_frame(&mut sinks[0]), vec![3]);
}

#[test]
fn mode_change_cuts_over_cleanly() {
    let mut reg = CameraRegistry::new();
    let path = "/dev/videoX".to_string();
    assert!(reg.insert(WorkerHandle::new(path.clone(), catalog()).unwrap()).is_ok());
    let mut worker = CameraWorker::start(path.clone(), catalog()).unwrap();
    let mut sinks: Vec<SubscriberSink> = Vec::new();
    assert!(reg.enroll(&path).is_ok());

    // running at the default, last catalog entry
    assert_eq!(worker.current_mode, mode(640, 480, 30));
    assert!(!worker_iteration(&mut reg, &mut worker, &mut sinks, &path, vec![1]));
    assert_eq!(recv_frame(&mut sinks[0]), vec![1]);

    // request index 0; the change lands at the next frame boundary
    assert!(reg.set_mode(&path, 0).is_ok());
    assert_eq!(worker.current_mode, mode(640, 480, 30));
    assert!(!worker_iteration(&mut reg, &mut worker, &mut sinks, &path, vec![2]));
    assert_eq!(worker.current_mode, mode(320, 240, 15));
    assert_eq!(recv_frame(&mut sinks[0]), vec![2]);
    let (current, _) = reg.inspect(&path).unwrap();
    assert_eq!(current, mode(320, 240, 15));

    // the subscriber kept its sink across the cutover
    assert!(!worker_iteration(&mut reg, &mut worker, &mut sinks, &path, vec![3]));
    assert_eq!(recv_frame(&mut sinks[0]), vec![3]);
}

#[test]
fn ice_timeout_releases_the_camera() {
    let mut reg = CameraRegistry::new();
    let path = "/dev/videoX".to_string();
    assert!(reg.insert(WorkerHandle::new(path.clone(), catalog()).unwrap()).is_ok());
    let mut worker = CameraWorker::start(path.clone(), catalog()).unwrap();
    let mut sinks: Vec<SubscriberSink> = Vec::new();
    assert!(reg.enroll(&path).is_ok());
    assert!(!worker_iteration(&mut reg, &mut worker, &mut sinks, &path, vec![1]));

    // the peer never connects: the forwarder gives up and its sink dies
    let mut session = PeerSession::new();
    let action = session.step(SessionEvent::ConnectTimeout);
    assert!(matches!(action, SessionAction::StopSilently));
    assert_eq!(session.phase, SessionPhase::Ended);
    sinks[0].close_consumer();

    // this was the only subscriber: the worker winds down and the entry goes
    let mut exited = false;
    for round in 0..2 {
        if worker_iteration(&mut reg, &mut worker, &mut sinks, &path, vec![round as u8]) {
            exited = true;
            break;
        }
    }
    assert!(exited);
    assert!(reg.lookup(&path).is_none());
}

#[test]
fn device_loss_closes_every_subscriber() {
    let mut reg = CameraRegistry::new();
    let path = "/dev/videoX".to_string();
    assert!(reg.insert(WorkerHandle::new(path.clone(), catalog()).unwrap()).is_ok());
    let mut worker = CameraWorker::start(path.clone(), catalog()).unwrap();
    let mut sinks: Vec<SubscriberSink> = Vec::new();
    assert!(reg.enroll(&path).is_ok());
    assert!(reg.enroll(&path).is_ok());
    assert!(!worker_iteration(&mut reg, &mut worker, &mut sinks, &path, vec![1]));
    assert_eq!(worker.live_count, 2);

    // the device read fails: the worker dies, both sinks close, entry gone
    worker.read_failed();
    assert!(!worker.running);
    for sink in sinks.iter_mut() {
        sink.close_producer();
    }
    reg.remove(&path);
    assert!(reg.lookup(&path).is_none());
    assert_eq!(recv_frame(&mut sinks[0]), vec![1]);
    assert!(matches!(sinks[0].recv(), RecvOutcome::Closed));
    assert_eq!(recv_frame(&mut sinks[1]), vec![1]);
    assert!(matches!(sinks[1].recv(), RecvOutcome::Closed));

    // a later subscription starts afresh — and may fail at the device again
    let retry = WorkerHandle::new(path.clone(), Vec::new());
    assert!(matches!(retry, Err(DeviceError::NoModes)));
    let fresh = WorkerHandle::new(path.clone(), catalog()).unwrap();
    assert!(reg.insert(fresh).is_ok());
    assert!(reg.enroll(&path).is_ok());
}
