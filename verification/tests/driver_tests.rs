use rust_client::driver::{after_transmit, close_frame, h3_action, initial_action, read_action, send_action, AfterTransmit, CloseFrame, CloseReason, H3Action, H3Event, H3Poll, InitialAction, ReadAction, ReadOutcome, SendAction, SendOutcome, TransmitOutcome};

#[test]
fn read_decisions() {
    assert_eq!(read_action(ReadOutcome::NoEvents), ReadAction::FireTimeout);
    assert_eq!(read_action(ReadOutcome::Datagram(1200)), ReadAction::Deliver(1200));
    assert_eq!(read_action(ReadOutcome::WouldBlock), ReadAction::Stop);
    assert_eq!(read_action(ReadOutcome::Failed), ReadAction::Fatal);
}

#[test]
fn send_decisions() {
    assert_eq!(send_action(SendOutcome::Packet(1350)), SendAction::Transmit(1350));
    assert_eq!(send_action(SendOutcome::Done), SendAction::Stop);
    assert_eq!(send_action(SendOutcome::Failed), SendAction::CloseAndStop(CloseReason::SendFailed));
    assert_eq!(after_transmit(TransmitOutcome::Sent), AfterTransmit::Next);
    assert_eq!(after_transmit(TransmitOutcome::WouldBlock), AfterTransmit::Stop);
    assert_eq!(after_transmit(TransmitOutcome::Failed), AfterTransmit::Fatal);
}

#[test]
fn initial_packet_retries() {
    assert_eq!(initial_action(TransmitOutcome::Sent), InitialAction::Done);
    assert_eq!(initial_action(TransmitOutcome::WouldBlock), InitialAction::Retry);
    assert_eq!(initial_action(TransmitOutcome::Failed), InitialAction::Fatal);
}

#[test]
fn h3_decisions() {
    assert_eq!(h3_action(H3Poll::Event(0, H3Event::Headers)), H3Action::Ignore);
    assert_eq!(h3_action(H3Poll::Event(4, H3Event::Data)), H3Action::DrainBody(4));
    assert_eq!(h3_action(H3Poll::Event(0, H3Event::Finished)), H3Action::Close(CloseReason::Completed));
    assert_eq!(h3_action(H3Poll::Event(0, H3Event::Reset(7))), H3Action::Close(CloseReason::Completed));
    assert_eq!(h3_action(H3Poll::Event(8, H3Event::GoAway)), H3Action::ReportGoAway(8));
    assert_eq!(h3_action(H3Poll::Done), H3Action::Stop);
    assert_eq!(h3_action(H3Poll::Failed), H3Action::ReportFailure);
}

#[test]
fn close_frames() {
    assert_eq!(
        close_frame(CloseReason::Completed),
        CloseFrame { app: true, code: 0x100, reason: b"kthxbye".to_vec() }
    );
    assert_eq!(
        close_frame(CloseReason::SendFailed),
        CloseFrame { app: false, code: 0x1, reason: b"fail".to_vec() }
    );
}
