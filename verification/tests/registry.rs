use camera_mux::errors::{DeviceError, RegistryError};
use camera_mux::fraction::Fraction;
use camera_mux::mode::CameraMode;
use camera_mux::registry::{modes_contain, CameraRegistry, WorkerHandle};

fn mode(width: u32, height: u32, fps: u32) -> CameraMode {
    CameraMode { width, height, frame_interval: Fraction { numerator: 1, denominator: fps } }
}

fn catalog() -> Vec<CameraMode> {
    vec![mode(320, 240, 15), mode(640, 480, 30)]
}

fn handle(path: &str) -> WorkerHandle {
    WorkerHandle::new(path.to_string(), catalog()).unwrap()
}

#[test]
fn handle_needs_a_mode_catalog() {
    let r = WorkerHandle::new("/dev/video0".to_string(), Vec::new());
    assert!(matches!(r, Err(DeviceError::NoModes)));
}

#[test]
fn handle_getters_match_catalog() {
    let h = handle("/dev/video0");
    assert_eq!(h.camera_path().as_str(), "/dev/video0");
    assert_eq!(*h.current_mode(), mode(640, 480, 30));
    assert_eq!(*h.camera_modes(), catalog());
}

#[test]
fn handle_mode_request_validates_index() {
    let mut h = handle("/dev/video0");
    assert_eq!(h.update_camera_mode(5), Err(RegistryError::InvalidModeIndex));
    assert_eq!(h.mode_request, None);
    assert!(h.update_camera_mode(0).is_ok());
    assert_eq!(h.mode_request, Some(mode(320, 240, 15)));
    assert!(h.update_camera_mode(1).is_ok());
    assert_eq!(h.mode_request, Some(mode(640, 480, 30)));
}

#[test]
fn one_worker_per_path() {
    let mut reg = CameraRegistry::new();
    assert!(reg.insert(handle("/dev/video0")).is_ok());
    assert_eq!(reg.insert(handle("/dev/video0")), Err(RegistryError::PathBusy));
    assert!(reg.insert(handle("/dev/video1")).is_ok());
    assert_eq!(reg.list_active(), vec!["/dev/video0".to_string(), "/dev/video1".to_string()]);
}

#[test]
fn unknown_path_subscription_leaves_registry_alone() {
    let mut reg = CameraRegistry::new();
    assert!(reg.insert(handle("/dev/video0")).is_ok());
    let before = reg.list_active();
    let r = reg.enroll(&"/dev/video7".to_string());
    assert_eq!(r, Err(RegistryError::UnknownPath));
    assert_eq!(reg.list_active(), before);
    assert_eq!(reg.entries[0].pending_count, 0);
    assert!(!reg.entries[0].flush_flag);
}

#[test]
fn enrollment_raises_pending_and_flag() {
    let mut reg = CameraRegistry::new();
    assert!(reg.insert(handle("/dev/video0")).is_ok());
    assert!(reg.enroll(&"/dev/video0".to_string()).is_ok());
    assert!(reg.enroll(&"/dev/video0".to_string()).is_ok());
    assert_eq!(reg.entries[0].pending_count, 2);
    assert!(reg.entries[0].flush_flag);
    let n = reg.take_pending(&"/dev/video0".to_string());
    assert_eq!(n, Some(2));
    assert_eq!(reg.entries[0].pending_count, 0);
    assert!(!reg.entries[0].flush_flag);
    assert_eq!(reg.take_pending(&"/dev/video0".to_string()), Some(0));
    assert_eq!(reg.take_pending(&"/dev/video9".to_string()), None);
}

#[test]
fn set_mode_validates_path_and_index() {
    let mut reg = CameraRegistry::new();
    assert!(reg.insert(handle("/dev/video0")).is_ok());
    assert_eq!(
        reg.set_mode(&"/dev/video9".to_string(), 0),
        Err(RegistryError::UnknownPath)
    );
    assert_eq!(
        reg.set_mode(&"/dev/video0".to_string(), 2),
        Err(RegistryError::InvalidModeIndex)
    );
    assert!(reg.set_mode(&"/dev/video0".to_string(), 0).is_ok());
    assert_eq!(reg.entries[0].mode_request, Some(mode(320, 240, 15)));
}

#[test]
fn newest_mode_request_supersedes() {
    let mut reg = CameraRegistry::new();
    assert!(reg.insert(handle("/dev/video0")).is_ok());
    assert!(reg.set_mode(&"/dev/video0".to_string(), 0).is_ok());
    assert!(reg.set_mode(&"/dev/video0".to_string(), 1).is_ok());
    let got = reg.take_mode_request(&"/dev/video0".to_string());
    assert_eq!(got, Some(mode(640, 480, 30)));
    assert_eq!(reg.take_mode_request(&"/dev/video0".to_string()), None);
}

#[test]
fn inspect_reports_current_mode_and_catalog() {
    let mut reg = CameraRegistry::new();
    assert!(reg.insert(handle("/dev/video0")).is_ok());
    let (current, modes) = reg.inspect(&"/dev/video0".to_string()).unwrap();
    assert_eq!(current, mode(640, 480, 30));
    assert_eq!(modes, catalog());
    assert!(reg.inspect(&"/dev/video9".to_string()).is_none());
}

#[test]
fn record_current_mode_updates_views() {
    let mut reg = CameraRegistry::new();
    assert!(reg.insert(handle("/dev/video0")).is_ok());
    reg.record_current_mode(&"/dev/video0".to_string(), mode(320, 240, 15));
    let (current, _) = reg.inspect(&"/dev/video0".to_string()).unwrap();
    assert_eq!(current, mode(320, 240, 15));
    // a mode outside the catalog is ignored
    reg.record_current_mode(&"/dev/video0".to_string(), mode(111, 222, 3));
    let (current, _) = reg.inspect(&"/dev/video0".to_string()).unwrap();
    assert_eq!(current, mode(320, 240, 15));
}

#[test]
fn remove_drops_only_that_entry() {
    let mut reg = CameraRegistry::new();
    assert!(reg.insert(handle("/dev/video0")).is_ok());
    assert!(reg.insert(handle("/dev/video1")).is_ok());
    reg.remove(&"/dev/video0".to_string());
    assert_eq!(reg.list_active(), vec!["/dev/video1".to_string()]);
    reg.remove(&"/dev/video0".to_string());
    assert_eq!(reg.list_active(), vec!["/dev/video1".to_string()]);
}

#[test]
fn shutdown_request_sets_flag() {
    let mut reg = CameraRegistry::new();
    assert!(reg.insert(handle("/dev/video0")).is_ok());
    assert!(!reg.entries[0].shutdown_flag);
    reg.request_shutdown(&"/dev/video0".to_string());
    assert!(reg.entries[0].shutdown_flag);
}

#[test]
fn catalog_membership_scan() {
    let modes = catalog();
    assert!(modes_contain(&modes, mode(320, 240, 15)));
    assert!(!modes_contain(&modes, mode(111, 222, 3)));
}
