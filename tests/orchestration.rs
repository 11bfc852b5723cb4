use nvme_ata_security::identify::{IDENTIFY_LEN, OACS_OFFSET};
use nvme_ata_security::security::Protocol;
use nvme_ata_security::session::{
    Action, Command, DeviceError, Event, Operation, Outcome, SecurityOperation, Session, Stage,
    Step, Unsupported,
};

/// What a fake device was asked to do.
#[derive(Debug, Clone, PartialEq)]
enum Seen {
    Identify,
    Receive(u8, u16, usize),
    Send(SecurityOperation, Option<Vec<u8>>),
    Reset,
}

/// A scriptable device that records each command.
struct FakeDevice {
    security_commands: bool,
    protocols: Vec<u8>,
    status_flags: u16,
    fail_send: Option<SecurityOperation>,
    fail_reset: bool,
    fail_identify: bool,
    seen: Vec<Seen>,
}

impl FakeDevice {
    fn new() -> FakeDevice {
        FakeDevice {
            security_commands: true,
            protocols: vec![0x00, 0xEF],
            status_flags: 0x0001,
            fail_send: None,
            fail_reset: false,
            fail_identify: false,
            seen: Vec::new(),
        }
    }

    fn answer(&mut self, c: &Command) -> Event {
        match c {
            Command::Identify => {
                self.seen.push(Seen::Identify);
                if self.fail_identify {
                    return Event::Failed(DeviceError::Os(5));
                }
                let mut raw = vec![0u8; IDENTIFY_LEN];
                raw[OACS_OFFSET] = if self.security_commands { 0x03 } else { 0x02 };
                Event::Identity(raw)
            }
            Command::Receive { protocol, selector, length } => {
                self.seen.push(Seen::Receive(*protocol, *selector, *length));
                let mut buf = vec![0u8; *length];
                if *protocol == 0 {
                    let n = self.protocols.len() as u16;
                    buf[6..8].copy_from_slice(&n.to_be_bytes());
                    for (i, p) in self.protocols.iter().enumerate() {
                        if 8 + i < buf.len() {
                            buf[8 + i] = *p;
                        }
                    }
                } else {
                    buf[0..2].copy_from_slice(&self.status_flags.to_le_bytes());
                }
                Event::Received(buf)
            }
            Command::Send { operation, payload, .. } => {
                self.seen.push(Seen::Send(*operation, payload.clone()));
                if self.fail_send == Some(*operation) {
                    Event::Failed(DeviceError::Status(0x0286))
                } else {
                    Event::Completed
                }
            }
            Command::Reset => {
                self.seen.push(Seen::Reset);
                if self.fail_reset {
                    Event::Failed(DeviceError::Os(16))
                } else {
                    Event::Completed
                }
            }
        }
    }

    fn sends(&self) -> Vec<SecurityOperation> {
        self.seen
            .iter()
            .filter_map(|s| match s {
                Seen::Send(op, _) => Some(*op),
                _ => None,
            })
            .collect()
    }
}

fn run(op: Operation, dev: &mut FakeDevice) -> (Outcome, Session) {
    let (mut session, mut command) = Session::new(op);
    loop {
        let event = dev.answer(&command);
        match session.step(event) {
            Action::Issue(c) => command = c,
            Action::Finish(o) => {
                assert!(session.is_finished());
                return (o, session);
            }
        }
    }
}

fn pw() -> [u8; 32] {
    let mut p = [0u8; 32];
    p[..4].copy_from_slice(b"pass");
    p
}

#[test]
fn no_security_commands_means_no_device_command() {
    let mut dev = FakeDevice::new();
    dev.security_commands = false;
    let (o, s) = run(Operation::Query, &mut dev);
    assert_eq!(o, Outcome::Unsupported(Unsupported::SecurityCommands));
    assert_eq!(dev.seen, vec![Seen::Identify]);
    assert!(s.protocols.is_none());
}

#[test]
fn discovery_two_phases_three_entries() {
    let mut dev = FakeDevice::new();
    dev.protocols = vec![0xEF, 0x01, 0x02];
    let (o, s) = run(Operation::Query, &mut dev);
    assert_eq!(o, Outcome::Success);
    assert_eq!(
        dev.seen,
        vec![
            Seen::Identify,
            Seen::Receive(0, 0, 8),
            Seen::Receive(0, 0, 11),
            Seen::Receive(0xEF, 0, 16),
        ]
    );
    let p = s.protocols.unwrap();
    assert_eq!(p.len(), 3);
    assert_eq!(p[0], Protocol::AtaSecurity);
    assert_eq!(p[1], Protocol::Other(1));
    assert_eq!(p[2], Protocol::Other(2));
}

#[test]
fn zero_protocols_take_one_round_trip() {
    let mut dev = FakeDevice::new();
    dev.protocols = vec![];
    let (o, s) = run(Operation::Query, &mut dev);
    assert_eq!(o, Outcome::Unsupported(Unsupported::AtaSecurityProtocol));
    assert_eq!(dev.seen, vec![Seen::Identify, Seen::Receive(0, 0, 8)]);
    assert_eq!(s.protocols.unwrap().len(), 0);
}

#[test]
fn missing_ata_protocol_stops() {
    let mut dev = FakeDevice::new();
    dev.protocols = vec![0x01];
    let (o, _) = run(Operation::Freeze, &mut dev);
    assert_eq!(o, Outcome::Unsupported(Unsupported::AtaSecurityProtocol));
    assert!(dev.sends().is_empty());
}

#[test]
fn erase_prepare_failure_stops_before_unit() {
    let mut dev = FakeDevice::new();
    dev.fail_send = Some(SecurityOperation::ErasePrepare);
    let (o, _) = run(Operation::Erase { password: pw(), master: false, enhanced: true }, &mut dev);
    assert_eq!(
        o,
        Outcome::Failed(Stage::Run(Step::Send(SecurityOperation::ErasePrepare)), DeviceError::Status(0x0286))
    );
    assert_eq!(dev.sends(), vec![SecurityOperation::ErasePrepare]);
}

#[test]
fn erase_sends_prepare_then_unit() {
    let mut dev = FakeDevice::new();
    let (o, _) = run(Operation::Erase { password: pw(), master: true, enhanced: true }, &mut dev);
    assert_eq!(o, Outcome::Success);
    let n = dev.seen.len();
    assert_eq!(dev.seen[n - 2], Seen::Send(SecurityOperation::ErasePrepare, None));
    match &dev.seen[n - 1] {
        Seen::Send(SecurityOperation::EraseUnit, Some(p)) => {
            assert_eq!(p.len(), 36);
            assert_eq!(&p[0..2], &[1, 1]);
            assert_eq!(&p[2..34], &pw()[..]);
        }
        other => panic!("unexpected {:?}", other),
    }
}

#[test]
fn erase_unit_failure_names_the_step() {
    let mut dev = FakeDevice::new();
    dev.fail_send = Some(SecurityOperation::EraseUnit);
    let (o, _) = run(Operation::Erase { password: pw(), master: false, enhanced: false }, &mut dev);
    assert_eq!(
        o,
        Outcome::Failed(Stage::Run(Step::Send(SecurityOperation::EraseUnit)), DeviceError::Status(0x0286))
    );
}

#[test]
fn unlock_success_is_followed_by_one_reset() {
    let mut dev = FakeDevice::new();
    let (o, _) = run(Operation::Unlock { password: pw(), master: false }, &mut dev);
    assert_eq!(o, Outcome::Success);
    let unlock = dev
        .seen
        .iter()
        .position(|s| matches!(s, Seen::Send(SecurityOperation::Unlock, _)))
        .unwrap();
    let resets: Vec<usize> =
        dev.seen.iter().enumerate().filter(|(_, s)| **s == Seen::Reset).map(|(i, _)| i).collect();
    assert_eq!(resets, vec![unlock + 1]);
    assert_eq!(dev.seen.len(), unlock + 2);
}

#[test]
fn unlock_failure_means_no_reset() {
    let mut dev = FakeDevice::new();
    dev.fail_send = Some(SecurityOperation::Unlock);
    let (o, _) = run(Operation::Unlock { password: pw(), master: true }, &mut dev);
    assert_eq!(
        o,
        Outcome::Failed(Stage::Run(Step::Send(SecurityOperation::Unlock)), DeviceError::Status(0x0286))
    );
    assert!(!dev.seen.contains(&Seen::Reset));
}

#[test]
fn reset_failure_names_the_reset() {
    let mut dev = FakeDevice::new();
    dev.fail_reset = true;
    let (o, _) = run(Operation::Unlock { password: pw(), master: false }, &mut dev);
    assert_eq!(o, Outcome::Failed(Stage::Run(Step::Reset), DeviceError::Os(16)));
}

#[test]
fn query_never_sends() {
    for security_commands in [false, true] {
        for protocols in [vec![], vec![0x01], vec![0xEF], vec![0x00, 0xEF, 0xEF]] {
            for flags in [0u16, 1, 0x000F, 0xFFFF] {
                let mut dev = FakeDevice::new();
                dev.security_commands = security_commands;
                dev.protocols = protocols.clone();
                dev.status_flags = flags;
                let _ = run(Operation::Query, &mut dev);
                assert!(dev.sends().is_empty());
                assert!(!dev.seen.contains(&Seen::Reset));
            }
        }
    }
}

#[test]
fn query_reports_status_even_when_unsupported() {
    let mut dev = FakeDevice::new();
    dev.status_flags = 0x000E;
    let (o, s) = run(Operation::Query, &mut dev);
    assert_eq!(o, Outcome::Success);
    let st = s.status.unwrap();
    assert!(!st.supported);
    assert!(st.locked);
    assert!(s.identity.unwrap().security());
}

#[test]
fn unsupported_status_blocks_mutation() {
    let mut dev = FakeDevice::new();
    dev.status_flags = 0;
    let (o, _) = run(Operation::SetPasswordUser { password: pw(), maximum: true }, &mut dev);
    assert_eq!(o, Outcome::Unsupported(Unsupported::AtaSecurity));
    assert!(dev.sends().is_empty());
}

#[test]
fn set_password_payloads() {
    let mut dev = FakeDevice::new();
    let (o, _) = run(Operation::SetPasswordMaster { password: pw(), id: 0x0102 }, &mut dev);
    assert_eq!(o, Outcome::Success);
    match dev.seen.last().unwrap() {
        Seen::Send(SecurityOperation::SetPassword, Some(p)) => {
            assert_eq!(&p[0..2], &[1, 0]);
            assert_eq!(&p[34..36], &[0x02, 0x01]);
        }
        other => panic!("unexpected {:?}", other),
    }
    let mut dev = FakeDevice::new();
    let (o, _) = run(Operation::SetPasswordUser { password: pw(), maximum: true }, &mut dev);
    assert_eq!(o, Outcome::Success);
    match dev.seen.last().unwrap() {
        Seen::Send(SecurityOperation::SetPassword, Some(p)) => {
            assert_eq!(&p[0..2], &[0, 1]);
            assert_eq!(&p[34..36], &[0, 0]);
        }
        other => panic!("unexpected {:?}", other),
    }
}

#[test]
fn disable_and_freeze_send_once() {
    let mut dev = FakeDevice::new();
    let (o, _) = run(Operation::DisablePassword { password: pw(), master: true }, &mut dev);
    assert_eq!(o, Outcome::Success);
    assert_eq!(dev.sends(), vec![SecurityOperation::DisablePassword]);
    let mut dev = FakeDevice::new();
    let (o, _) = run(Operation::Freeze, &mut dev);
    assert_eq!(o, Outcome::Success);
    assert_eq!(dev.seen.last().unwrap(), &Seen::Send(SecurityOperation::FreezeLock, None));
}

#[test]
fn identify_failure_is_reported() {
    let mut dev = FakeDevice::new();
    dev.fail_identify = true;
    let (o, _) = run(Operation::Query, &mut dev);
    assert_eq!(o, Outcome::Failed(Stage::Identify, DeviceError::Os(5)));
}

#[test]
fn mismatched_answer_is_a_bad_response() {
    let (mut s, _) = Session::new(Operation::Query);
    match s.step(Event::Completed) {
        Action::Finish(o) => assert_eq!(o, Outcome::Failed(Stage::Identify, DeviceError::BadResponse)),
        other => panic!("unexpected {:?}", other),
    }
    let (mut s, _) = Session::new(Operation::Query);
    match s.step(Event::Identity(vec![0u8; 10])) {
        Action::Finish(o) => assert_eq!(o, Outcome::Failed(Stage::Identify, DeviceError::BadResponse)),
        other => panic!("unexpected {:?}", other),
    }
}

#[test]
fn selectors_are_fixed() {
    assert_eq!(SecurityOperation::SetPassword.selector(), 1);
    assert_eq!(SecurityOperation::Unlock.selector(), 2);
    assert_eq!(SecurityOperation::ErasePrepare.selector(), 3);
    assert_eq!(SecurityOperation::EraseUnit.selector(), 4);
    assert_eq!(SecurityOperation::FreezeLock.selector(), 5);
    assert_eq!(SecurityOperation::DisablePassword.selector(), 6);
}
