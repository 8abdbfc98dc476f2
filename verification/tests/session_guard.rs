//! The interface session guard, driven against a mock USB backend that
//! records every claim, detach, release and reattach.

use glorious_mouse_control::session::{
    begin_session, session_step, SessionCommand, SessionEvent, SessionGuard,
};
use glorious_mouse_control::usb::{
    find_target_index, matches_target_device, transfer_args, ApplyError,
};

struct MockUsb {
    driver_active: Vec<u8>,
    fail_detach: Vec<u8>,
    fail_claim: Vec<u8>,
    fail_send: Vec<usize>,
    fail_release: Vec<u8>,
    queried: Vec<u8>,
    detached: Vec<u8>,
    claimed: Vec<u8>,
    sent: Vec<usize>,
    released: Vec<u8>,
    attached: Vec<u8>,
}

impl MockUsb {
    fn new() -> MockUsb {
        MockUsb {
            driver_active: Vec::new(),
            fail_detach: Vec::new(),
            fail_claim: Vec::new(),
            fail_send: Vec::new(),
            fail_release: Vec::new(),
            queried: Vec::new(),
            detached: Vec::new(),
            claimed: Vec::new(),
            sent: Vec::new(),
            released: Vec::new(),
            attached: Vec::new(),
        }
    }

    fn perform(&mut self, cmd: SessionCommand) -> SessionEvent {
        match cmd {
            SessionCommand::QueryDriver(iface) => {
                self.queried.push(iface);
                SessionEvent::DriverStatus(self.driver_active.contains(&iface))
            }
            SessionCommand::DetachDriver(iface) => {
                if self.fail_detach.contains(&iface) {
                    SessionEvent::Failed
                } else {
                    self.detached.push(iface);
                    SessionEvent::Done
                }
            }
            SessionCommand::ClaimInterface(iface) => {
                if self.fail_claim.contains(&iface) {
                    SessionEvent::Failed
                } else {
                    self.claimed.push(iface);
                    SessionEvent::Done
                }
            }
            SessionCommand::SendPacket(pkt) => {
                if self.fail_send.contains(&pkt) {
                    SessionEvent::Failed
                } else {
                    self.sent.push(pkt);
                    SessionEvent::Done
                }
            }
            SessionCommand::ReleaseInterface(iface) => {
                self.released.push(iface);
                if self.fail_release.contains(&iface) {
                    SessionEvent::Failed
                } else {
                    SessionEvent::Done
                }
            }
            SessionCommand::AttachDriver(iface) => {
                self.attached.push(iface);
                SessionEvent::Done
            }
            SessionCommand::Finish(_) => unreachable!(),
        }
    }
}

fn drive(mock: &mut MockUsb, interfaces: Vec<u8>, supports_detach: bool) -> (bool, SessionGuard) {
    let (mut guard, mut cmd) = begin_session(interfaces, supports_detach, 3);
    let mut steps: u32 = 0;
    loop {
        if let SessionCommand::Finish(ok) = cmd {
            return (ok, guard);
        }
        let event = mock.perform(cmd);
        let (next_guard, next_cmd) = session_step(guard, event);
        guard = next_guard;
        cmd = next_cmd;
        steps += 1;
        assert!(steps < 100, "session did not terminate");
    }
}

#[test]
fn successful_session_releases_everything() {
    let mut mock = MockUsb::new();
    mock.driver_active = vec![0];
    let (ok, guard) = drive(&mut mock, vec![0, 1], true);
    assert!(ok);
    assert_eq!(mock.claimed, vec![0, 1]);
    assert_eq!(mock.detached, vec![0]);
    assert_eq!(mock.sent, vec![0, 1, 2]);
    assert_eq!(mock.released, vec![0, 1]);
    assert_eq!(mock.attached, vec![0]);
    assert_eq!(guard.claimed, vec![(0, true), (1, false)]);
    assert_eq!(guard.released, vec![0, 1]);
    assert_eq!(guard.reattached, vec![0]);
}

#[test]
fn claim_failure_releases_what_was_claimed() {
    let mut mock = MockUsb::new();
    mock.fail_claim = vec![1];
    let (ok, _guard) = drive(&mut mock, vec![0, 1], true);
    assert!(!ok);
    assert_eq!(mock.claimed, vec![0]);
    assert_eq!(mock.sent, Vec::<usize>::new());
    assert_eq!(mock.released, vec![0]);
    assert_eq!(mock.attached, Vec::<u8>::new());
}

#[test]
fn send_failure_still_releases_all_interfaces() {
    let mut mock = MockUsb::new();
    mock.driver_active = vec![0, 1];
    mock.fail_send = vec![1];
    let (ok, guard) = drive(&mut mock, vec![0, 1], true);
    assert!(!ok);
    assert_eq!(mock.sent, vec![0]);
    assert_eq!(mock.released, vec![0, 1]);
    assert_eq!(mock.attached, vec![0, 1]);
    assert_eq!(guard.released, vec![0, 1]);
    assert_eq!(guard.reattached, vec![0, 1]);
}

#[test]
fn release_failure_does_not_stop_remaining_releases() {
    let mut mock = MockUsb::new();
    mock.fail_release = vec![0];
    let (ok, guard) = drive(&mut mock, vec![0, 1], true);
    // a failed release is best-effort — the remaining interfaces are
    // still released — but the failure is reported, never masked
    assert!(!ok);
    assert!(guard.failed);
    assert_eq!(mock.released, vec![0, 1]);
    assert_eq!(guard.released, vec![0, 1]);
}

#[test]
fn detach_failure_claims_nothing() {
    let mut mock = MockUsb::new();
    mock.driver_active = vec![0];
    mock.fail_detach = vec![0];
    let (ok, _guard) = drive(&mut mock, vec![0, 1], true);
    assert!(!ok);
    assert_eq!(mock.claimed, Vec::<u8>::new());
    assert_eq!(mock.released, Vec::<u8>::new());
}

#[test]
fn without_detach_support_interfaces_are_claimed_directly() {
    let mut mock = MockUsb::new();
    mock.driver_active = vec![0, 1];
    let (ok, _guard) = drive(&mut mock, vec![0, 1], false);
    assert!(ok);
    assert_eq!(mock.queried, Vec::<u8>::new());
    assert_eq!(mock.detached, Vec::<u8>::new());
    assert_eq!(mock.claimed, vec![0, 1]);
    assert_eq!(mock.released, vec![0, 1]);
    assert_eq!(mock.attached, Vec::<u8>::new());
}

#[test]
fn no_interfaces_means_send_only() {
    let mut mock = MockUsb::new();
    let (ok, guard) = drive(&mut mock, Vec::new(), true);
    assert!(ok);
    assert_eq!(mock.sent, vec![0, 1, 2]);
    assert_eq!(guard.claimed, Vec::<(u8, bool)>::new());
}

#[test]
fn target_device_identities() {
    assert!(matches_target_device(0x258a, 0x0033));
    assert!(matches_target_device(0x258a, 0x0036));
    assert!(!matches_target_device(0x258a, 0x0034));
    assert!(!matches_target_device(0x1234, 0x0033));
}

#[test]
fn find_target_index_picks_the_first_match() {
    let ids = vec![(0x1111, 0x2222), (0x258a, 0x0036), (0x258a, 0x0033)];
    assert_eq!(find_target_index(&ids), Some(1));
    let none = vec![(0x1111, 0x2222), (0x3333, 0x4444)];
    assert_eq!(find_target_index(&none), None);
    assert_eq!(find_target_index(&Vec::new()), None);
}

#[test]
fn transfer_steps_use_fixed_parameters_and_order() {
    let main: Vec<u8> = vec![1, 2, 3];
    let buttons: Vec<u8> = vec![4, 5, 6];
    let debounce: Vec<u8> = vec![7, 8, 9];
    for pkt in 0..3usize {
        let args = transfer_args(pkt, &main, &buttons, &debounce);
        assert_eq!(args.request_type, 0x21);
        assert_eq!(args.request, 0x09);
        assert_eq!(args.index, 0x1);
        assert_eq!(args.timeout_secs, 5);
        match pkt {
            0 => {
                assert_eq!(args.buf, &main);
                assert_eq!(args.value, 0x0304);
            }
            1 => {
                assert_eq!(args.buf, &buttons);
                assert_eq!(args.value, 0x0304);
            }
            _ => {
                assert_eq!(args.buf, &debounce);
                assert_eq!(args.value, 0x0305);
            }
        }
    }
}

#[test]
fn apply_error_messages() {
    assert_eq!(ApplyError::DeviceNotFound.message(), "could not find usb device");
    assert_eq!(ApplyError::Enumeration.message(), "could not load usb device list");
    assert_eq!(ApplyError::Open.message(), "could not open usb device");
    assert_eq!(ApplyError::Session.message(), "usb session failed");
}
