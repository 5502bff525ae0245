use ambient_backlight::session::{AmbientSession, ErrorKind};

#[test]
fn second_start_is_rejected() {
    let mut s = AmbientSession::new();
    assert!(!s.is_active());
    assert_eq!(s.start(), Ok(()));
    assert!(s.is_active());
    // a second start changes nothing and spawns no second worker
    assert_eq!(s.start(), Err(ErrorKind::AlreadyRunning));
    assert!(s.is_active());
}

#[test]
fn stop_without_a_run_is_rejected() {
    let mut s = AmbientSession::new();
    assert_eq!(s.stop(), Err(ErrorKind::NotRunning));
    assert!(!s.is_active());
}

#[test]
fn start_then_stop_leaves_idle() {
    let mut s = AmbientSession::new();
    assert_eq!(s.start(), Ok(()));
    assert_eq!(s.stop(), Ok(()));
    assert!(!s.is_active());
    assert_eq!(s.stop(), Err(ErrorKind::NotRunning));
}

#[test]
fn worker_exit_is_observable() {
    let mut s = AmbientSession::new();
    assert_eq!(s.start(), Ok(()));
    // the worker died on a fatal capture error and published its exit
    s.note_worker_exit();
    assert!(!s.is_active());
    assert_eq!(s.stop(), Err(ErrorKind::NotRunning));
    // the session can start a fresh run afterwards
    assert_eq!(s.start(), Ok(()));
    assert!(s.is_active());
}
