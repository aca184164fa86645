use rust_client::session::{Session, Step};

#[test]
fn request_sent_once_after_handshake() {
    let mut s = Session::new();
    assert_eq!(s.after_read(false, false), Step::Proceed { open_h3: false, send_request: false });
    assert!(!s.after_flush(false));
    assert_eq!(s.after_read(false, true), Step::Proceed { open_h3: true, send_request: true });
    assert!(s.request_sent());
    assert!(!s.after_flush(false));
    assert_eq!(s.after_read(false, true), Step::Proceed { open_h3: false, send_request: false });
    assert_eq!(s.after_read(false, true), Step::Proceed { open_h3: false, send_request: false });
}

#[test]
fn closed_after_read_stops() {
    let mut s = Session::new();
    assert_eq!(s.after_read(true, true), Step::Stop);
    assert!(s.is_finished());
    assert!(!s.request_sent());
    // Once stopped, nothing more happens.
    assert_eq!(s.after_read(false, true), Step::Stop);
    assert!(!s.request_sent());
}

#[test]
fn closed_after_flush_stops() {
    let mut s = Session::new();
    assert_eq!(s.after_read(false, true), Step::Proceed { open_h3: true, send_request: true });
    assert!(s.after_flush(true));
    assert!(s.is_finished());
    assert!(s.after_flush(false));
    assert_eq!(s.after_read(false, true), Step::Stop);
}

#[test]
fn never_established_never_requests() {
    let mut s = Session::new();
    for _ in 0..10 {
        assert_eq!(s.after_read(false, false), Step::Proceed { open_h3: false, send_request: false });
        assert!(!s.after_flush(false));
    }
    assert!(!s.request_sent());
}
