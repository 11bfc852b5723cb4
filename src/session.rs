//! The command orchestrator, as a state machine: the caller issues each
//! command that the session asks for, and hands back what the device answered.
//!
//! Every operation first reads the identify data, discovers the security
//! protocols in two round trips and reads the ATA Security status. Only when
//! all three confirm support does a mutating operation go on to its commands,
//! which run in a fixed order and stop at the first failure.

use vstd::prelude::*;
use crate::identify::{IdentifyController, IDENTIFY_LEN, decode_identity, identity_matches};
use crate::security::{
    Protocol, AtaSecurityStatus, ATA_SECURITY_ID, STATUS_LEN, decode_protocols, decode_status,
    has_ata_security, protocols_of, status_of,
};
use crate::bytes::{be16, read_be16};
use crate::password::{encode_password, payload_of};

verus! {

/// Length of the first protocol discovery response.
pub const DISCOVERY_HEADER_LEN: usize = 8;

/// The sub-commands of the ATA Security protocol.
#[derive(Debug, Clone, Copy, PartialEq, Eq, Structural)]
pub enum SecurityOperation {
    SetPassword,
    Unlock,
    ErasePrepare,
    EraseUnit,
    FreezeLock,
    DisablePassword,
}

impl SecurityOperation {
    /// The protocol-specific field that selects the sub-command.
    pub open spec fn selector_spec(self) -> u16 {
        match self {
            SecurityOperation::SetPassword => 1,
            SecurityOperation::Unlock => 2,
            SecurityOperation::ErasePrepare => 3,
            SecurityOperation::EraseUnit => 4,
            SecurityOperation::FreezeLock => 5,
            SecurityOperation::DisablePassword => 6,
        }
    }

    /// The protocol-specific field that selects the sub-command.
    pub fn selector(self) -> (r: u16)
        ensures
            r == self.selector_spec(),
    {
        match self {
            SecurityOperation::SetPassword => 1,
            SecurityOperation::Unlock => 2,
            SecurityOperation::ErasePrepare => 3,
            SecurityOperation::EraseUnit => 4,
            SecurityOperation::FreezeLock => 5,
            SecurityOperation::DisablePassword => 6,
        }
    }
}

/// A user-facing operation with its parameters.
#[derive(Debug, Clone, Copy)]
pub enum Operation {
    Query,
    SetPasswordUser { password: [u8; 32], maximum: bool },
    SetPasswordMaster { password: [u8; 32], id: u16 },
    Unlock { password: [u8; 32], master: bool },
    DisablePassword { password: [u8; 32], master: bool },
    Erase { password: [u8; 32], master: bool, enhanced: bool },
    Freeze,
}

/// One mutating step of an operation.
#[derive(Debug, Clone, Copy, PartialEq, Eq, Structural)]
pub enum Step {
    Send(SecurityOperation),
    Reset,
}

/// The mutating steps of an operation, in the order they are issued.
pub open spec fn plan(op: Operation) -> Seq<Step> {
    match op {
        Operation::Query => seq![],
        Operation::SetPasswordUser { .. } => seq![Step::Send(SecurityOperation::SetPassword)],
        Operation::SetPasswordMaster { .. } => seq![Step::Send(SecurityOperation::SetPassword)],
        Operation::Unlock { .. } => seq![Step::Send(SecurityOperation::Unlock), Step::Reset],
        Operation::DisablePassword { .. } => seq![Step::Send(SecurityOperation::DisablePassword)],
        Operation::Erase { .. } => seq![
            Step::Send(SecurityOperation::ErasePrepare),
            Step::Send(SecurityOperation::EraseUnit),
        ],
        Operation::Freeze => seq![Step::Send(SecurityOperation::FreezeLock)],
    }
}

/// The mutating steps of an operation, in the order they are issued.
pub fn steps(op: &Operation) -> (r: Vec<Step>)
    ensures
        r@ == plan(*op),
{
    match op {
        Operation::Query => vec![],
        Operation::SetPasswordUser { .. } => vec![Step::Send(SecurityOperation::SetPassword)],
        Operation::SetPasswordMaster { .. } => vec![Step::Send(SecurityOperation::SetPassword)],
        Operation::Unlock { .. } => vec![Step::Send(SecurityOperation::Unlock), Step::Reset],
        Operation::DisablePassword { .. } => vec![Step::Send(SecurityOperation::DisablePassword)],
        Operation::Erase { .. } => vec![
            Step::Send(SecurityOperation::ErasePrepare),
            Step::Send(SecurityOperation::EraseUnit),
        ],
        Operation::Freeze => vec![Step::Send(SecurityOperation::FreezeLock)],
    }
}

/// The order of the plans: an erase unit comes right after its prepare step,
/// a reset only right after an unlock and as the last step, and a query has
/// no step at all.
pub proof fn lemma_plan_order(op: Operation)
    ensures
        op is Query ==> plan(op).len() == 0,
        !(op is Query) ==> plan(op).len() > 0,
        forall|i: int| 0 <= i < plan(op).len() && #[trigger] plan(op)[i] == Step::Send(SecurityOperation::EraseUnit)
            ==> i > 0 && plan(op)[i - 1] == Step::Send(SecurityOperation::ErasePrepare),
        forall|i: int| 0 <= i < plan(op).len() && #[trigger] plan(op)[i] == Step::Reset
            ==> i == plan(op).len() - 1 && i > 0 && plan(op)[i - 1] == Step::Send(SecurityOperation::Unlock),
        forall|i: int| 0 <= i < plan(op).len() && #[trigger] plan(op)[i] == Step::Send(SecurityOperation::Unlock)
            ==> i + 1 < plan(op).len() && plan(op)[i + 1] == Step::Reset,
{
}

/// The payload that a send of `sop` carries within `op`.
pub open spec fn send_payload(op: Operation, sop: SecurityOperation) -> Option<Seq<u8>> {
    match op {
        Operation::SetPasswordUser { password, maximum } =>
            Some(payload_of(password@, false, Some(maximum), None)),
        Operation::SetPasswordMaster { password, id } =>
            Some(payload_of(password@, true, None, Some(id))),
        Operation::Unlock { password, master } =>
            Some(payload_of(password@, master, None, None)),
        Operation::DisablePassword { password, master } =>
            Some(payload_of(password@, master, None, None)),
        Operation::Erase { password, master, enhanced } =>
            if sop == SecurityOperation::EraseUnit {
                Some(payload_of(password@, master, Some(enhanced), None))
            } else {
                None
            },
        _ => None,
    }
}

/// A device command that the session asks the caller to issue.
#[derive(Debug)]
pub enum Command {
    /// Read the Identify Controller data.
    Identify,
    /// Security Receive into a buffer of `length` bytes.
    Receive { protocol: u8, selector: u16, length: usize },
    /// Security Send of an ATA Security sub-command.
    Send { protocol: u8, operation: SecurityOperation, payload: Option<Vec<u8>> },
    /// Reset the controller.
    Reset,
}

/// Whether `c` is the command that carries out `step` of `op`.
pub open spec fn command_for_step(c: Command, op: Operation, step: Step) -> bool {
    match step {
        Step::Reset => c is Reset,
        Step::Send(sop) => match c {
            Command::Send { protocol, operation, payload } => {
                &&& protocol == ATA_SECURITY_ID
                &&& operation == sop
                &&& match (payload, send_payload(op, sop)) {
                    (None, None) => true,
                    (Some(p), Some(q)) => p@ == q,
                    _ => false,
                }
            },
            _ => false,
        },
    }
}

/// Builds the command that carries out `step` of `op`.
pub fn command_for(op: &Operation, step: Step) -> (c: Command)
    ensures
        command_for_step(c, *op, step),
{
    match step {
        Step::Reset => Command::Reset,
        Step::Send(sop) => {
            let payload = match op {
                Operation::SetPasswordUser { password, maximum } =>
                    Some(encode_password(password, false, Some(*maximum), None)),
                Operation::SetPasswordMaster { password, id } =>
                    Some(encode_password(password, true, None, Some(*id))),
                Operation::Unlock { password, master } =>
                    Some(encode_password(password, *master, None, None)),
                Operation::DisablePassword { password, master } =>
                    Some(encode_password(password, *master, None, None)),
                Operation::Erase { password, master, enhanced } =>
                    if sop == SecurityOperation::EraseUnit {
                        Some(encode_password(password, *master, Some(*enhanced), None))
                    } else {
                        None
                    },
                _ => None,
            };
            Command::Send { protocol: ATA_SECURITY_ID, operation: sop, payload }
        },
    }
}

/// A failure reported by the device or its transport.
#[derive(Debug, Clone, Copy, PartialEq, Eq, Structural)]
pub enum DeviceError {
    /// The transport failed with this OS error number.
    Os(i32),
    /// The device completed the command with this nonzero status.
    Status(u32),
    /// The answer does not fit the command that was issued.
    BadResponse,
}

/// What the device answered to the last command.
#[derive(Debug)]
pub enum Event {
    /// The Identify Controller data.
    Identity(Vec<u8>),
    /// The buffer filled by a Security Receive.
    Received(Vec<u8>),
    /// A Security Send or a reset completed.
    Completed,
    /// The command failed.
    Failed(DeviceError),
}

/// The stage of an operation at which it failed.
#[derive(Debug, Clone, Copy, PartialEq, Eq, Structural)]
pub enum Stage {
    Identify,
    ProtocolCount,
    ProtocolList,
    Status,
    Run(Step),
}

/// The first check that found support missing.
#[derive(Debug, Clone, Copy, PartialEq, Eq, Structural)]
pub enum Unsupported {
    /// The controller lacks Security Send / Receive.
    SecurityCommands,
    /// The ATA Security protocol is not among the device's protocols.
    AtaSecurityProtocol,
    /// The ATA Security status says the feature set is not supported.
    AtaSecurity,
}

/// How an operation ended.
#[derive(Debug, Clone, Copy, PartialEq, Eq, Structural)]
pub enum Outcome {
    Success,
    Unsupported(Unsupported),
    Failed(Stage, DeviceError),
}

/// What the caller does next.
#[derive(Debug)]
pub enum Action {
    Issue(Command),
    Finish(Outcome),
}

/// Where a session stands: each phase waits for the answer to one command.
#[derive(Debug, Clone, Copy, PartialEq, Eq, Structural)]
pub enum Phase {
    Identifying,
    CountingProtocols,
    ListingProtocols { count: u16 },
    ReadingStatus,
    Running { index: usize },
    Finished,
}

/// The state of one operation against one device.
#[derive(Debug)]
pub struct Session {
    pub operation: Operation,
    pub phase: Phase,
    /// The identify data, once read.
    pub identity: Option<IdentifyController>,
    /// The device's security protocols, once discovered.
    pub protocols: Option<Vec<Protocol>>,
    /// The ATA Security status, once read.
    pub status: Option<AtaSecurityStatus>,
}

/// An action that ends the operation with a failure at `stage`.
pub open spec fn failure(stage: Stage, e: DeviceError) -> Action {
    Action::Finish(Outcome::Failed(stage, e))
}

/// An action that issues a Security Receive.
pub open spec fn receives(r: Action, protocol: u8, selector: u16, length: int) -> bool {
    r matches Action::Issue(Command::Receive { protocol: p, selector: s, length: l })
        && p == protocol && s == selector && l as int == length
}

/// An action that issues a Security Send.
pub open spec fn sends(r: Action) -> bool {
    r matches Action::Issue(Command::Send { .. })
}

/// An action that issues a Security Send of `sop`.
pub open spec fn sends_op(r: Action, sop: SecurityOperation) -> bool {
    r matches Action::Issue(Command::Send { operation, .. }) && operation == sop
}

/// An action that issues a controller reset.
pub open spec fn resets(r: Action) -> bool {
    r matches Action::Issue(Command::Reset)
}

/// An action that issues the command of `step` of `op`.
pub open spec fn issues_step(r: Action, op: Operation, step: Step) -> bool {
    r matches Action::Issue(c) && command_for_step(c, op, step)
}

impl Session {
    /// The session is consistent: a running phase points into the plan, and a
    /// protocol list is awaited only for a nonzero count.
    pub open spec fn wf(&self) -> bool {
        &&& (self.phase matches Phase::Running { index } ==> index < plan(self.operation).len())
        &&& (self.phase matches Phase::ListingProtocols { count } ==> count > 0)
        &&& !(self.phase is Identifying || self.phase is Finished) ==> self.security_seen()
        &&& (self.phase is ReadingStatus || self.phase is Running) ==> self.ata_listed()
        &&& self.phase is Running ==> self.confirmed()
    }

    /// All three checks have passed in this session: the controller has the
    /// security commands, the ATA Security protocol is listed, and the status
    /// says the feature set is supported.
    pub open spec fn confirmed(&self) -> bool {
        &&& self.security_seen()
        &&& self.ata_listed()
        &&& self.status matches Some(st) && st.supported
    }

    /// The identify data was read and shows the security commands.
    pub open spec fn security_seen(&self) -> bool {
        self.identity matches Some(id) && id.security_spec()
    }

    /// The protocol list was read and holds the ATA Security protocol.
    pub open spec fn ata_listed(&self) -> bool {
        self.protocols matches Some(p) && p@.contains(Protocol::AtaSecurity)
    }

    /// Whether the session has ended.
    pub fn is_finished(&self) -> (r: bool)
        ensures
            r == (self.phase is Finished),
    {
        matches!(self.phase, Phase::Finished)
    }

    /// Starts an operation; its first command reads the identify data.
    pub fn new(operation: Operation) -> (r: (Session, Command))
        ensures
            r.0.wf(),
            r.0.operation == operation,
            r.0.phase == Phase::Identifying,
            r.0.identity is None,
            r.0.protocols is None,
            r.0.status is None,
            r.1 is Identify,
    {
        (
            Session { operation, phase: Phase::Identifying, identity: None, protocols: None, status: None },
            Command::Identify,
        )
    }
}

/// After the protocol list is known: read the status if the ATA Security
/// protocol is listed, else stop.
pub open spec fn after_protocols(s: Session, protocols: Seq<Protocol>, r: Action) -> bool {
    &&& s.protocols matches Some(p) && p@ == protocols
    &&& if protocols.contains(Protocol::AtaSecurity) {
        receives(r, ATA_SECURITY_ID, 0, STATUS_LEN as int) && s.phase == Phase::ReadingStatus
    } else {
        r == Action::Finish(Outcome::Unsupported(Unsupported::AtaSecurityProtocol))
            && s.phase == Phase::Finished
    }
}

/// The answer to the identify command.
pub open spec fn identify_step(e: Event, s: Session, r: Action) -> bool {
    match e {
        Event::Identity(raw) => if raw@.len() == IDENTIFY_LEN {
            &&& s.identity matches Some(id) && identity_matches(id, raw@)
            &&& if s.identity.unwrap().security_spec() {
                receives(r, 0, 0, DISCOVERY_HEADER_LEN as int) && s.phase == Phase::CountingProtocols
            } else {
                r == Action::Finish(Outcome::Unsupported(Unsupported::SecurityCommands))
                    && s.phase == Phase::Finished
            }
        } else {
            r == failure(Stage::Identify, DeviceError::BadResponse) && s.phase == Phase::Finished
        },
        Event::Failed(err) => r == failure(Stage::Identify, err) && s.phase == Phase::Finished,
        _ => r == failure(Stage::Identify, DeviceError::BadResponse) && s.phase == Phase::Finished,
    }
}

/// The answer to the first discovery receive: the count at bytes 6 and 7.
pub open spec fn count_step(e: Event, s: Session, r: Action) -> bool {
    match e {
        Event::Received(buf) => if buf@.len() == DISCOVERY_HEADER_LEN {
            let count = be16(buf@, 6);
            if count == 0 {
                after_protocols(s, seq![], r)
            } else {
                receives(r, 0, 0, count as int + DISCOVERY_HEADER_LEN)
                    && s.phase == (Phase::ListingProtocols { count })
            }
        } else {
            r == failure(Stage::ProtocolCount, DeviceError::BadResponse) && s.phase == Phase::Finished
        },
        Event::Failed(err) => r == failure(Stage::ProtocolCount, err) && s.phase == Phase::Finished,
        _ => r == failure(Stage::ProtocolCount, DeviceError::BadResponse) && s.phase == Phase::Finished,
    }
}

/// The answer to the second discovery receive: the ids after the header.
pub open spec fn list_step(count: u16, e: Event, s: Session, r: Action) -> bool {
    match e {
        Event::Received(buf) => if buf@.len() == count as usize + DISCOVERY_HEADER_LEN {
            after_protocols(s, protocols_of(buf@.subrange(8, count as int + 8)), r)
        } else {
            r == failure(Stage::ProtocolList, DeviceError::BadResponse) && s.phase == Phase::Finished
        },
        Event::Failed(err) => r == failure(Stage::ProtocolList, err) && s.phase == Phase::Finished,
        _ => r == failure(Stage::ProtocolList, DeviceError::BadResponse) && s.phase == Phase::Finished,
    }
}

/// The answer to the status receive: a query ends here; another operation
/// goes on to its first step if the feature set is supported.
pub open spec fn status_step(op: Operation, e: Event, s: Session, r: Action) -> bool {
    match e {
        Event::Received(buf) => if buf@.len() == STATUS_LEN {
            &&& s.status == Some(status_of(buf@))
            &&& if op is Query {
                r == Action::Finish(Outcome::Success) && s.phase == Phase::Finished
            } else if !status_of(buf@).supported {
                r == Action::Finish(Outcome::Unsupported(Unsupported::AtaSecurity))
                    && s.phase == Phase::Finished
            } else {
                issues_step(r, op, plan(op)[0]) && s.phase == (Phase::Running { index: 0 })
            }
        } else {
            r == failure(Stage::Status, DeviceError::BadResponse) && s.phase == Phase::Finished
        },
        Event::Failed(err) => r == failure(Stage::Status, err) && s.phase == Phase::Finished,
        _ => r == failure(Stage::Status, DeviceError::BadResponse) && s.phase == Phase::Finished,
    }
}

/// The answer to step `index` of the plan: on completion the next step, or
/// success after the last; on failure the operation stops at that step.
pub open spec fn run_step(op: Operation, index: int, e: Event, s: Session, r: Action) -> bool {
    let stage = Stage::Run(plan(op)[index]);
    match e {
        Event::Completed => if index + 1 < plan(op).len() {
            issues_step(r, op, plan(op)[index + 1]) && s.phase == (Phase::Running { index: (index + 1) as usize })
        } else {
            r == Action::Finish(Outcome::Success) && s.phase == Phase::Finished
        },
        Event::Failed(err) => r == failure(stage, err) && s.phase == Phase::Finished,
        _ => r == failure(stage, DeviceError::BadResponse) && s.phase == Phase::Finished,
    }
}

impl Session {
    /// Ends the operation with a failure at `stage`.
    fn fail(&mut self, stage: Stage, e: DeviceError) -> (r: Action)
        ensures
            r == failure(stage, e),
            final(self).phase == Phase::Finished,
            final(self).operation == old(self).operation,
            final(self).identity == old(self).identity,
    {
        self.phase = Phase::Finished;
        Action::Finish(Outcome::Failed(stage, e))
    }

    /// Records the discovered protocols and moves on to the status, or stops
    /// when the ATA Security protocol is missing.
    fn protocols_known(&mut self, protocols: Vec<Protocol>) -> (r: Action)
        ensures
            after_protocols(*final(self), protocols@, r),
            final(self).operation == old(self).operation,
            final(self).identity == old(self).identity,
            final(self).status == old(self).status,
    {
        let ata = has_ata_security(&protocols);
        self.protocols = Some(protocols);
        if ata {
            self.phase = Phase::ReadingStatus;
            Action::Issue(Command::Receive { protocol: ATA_SECURITY_ID, selector: 0, length: STATUS_LEN })
        } else {
            self.phase = Phase::Finished;
            Action::Finish(Outcome::Unsupported(Unsupported::AtaSecurityProtocol))
        }
    }

    /// Takes the device's answer to the last command and decides what comes
    /// next. A query never reaches a Security Send; an erase unit is sent only
    /// right after its prepare step completed; a reset is issued only right
    /// after an unlock completed, and always then.
    pub fn step(&mut self, event: Event) -> (r: Action)
        requires
            old(self).wf(),
            !(old(self).phase is Finished),
        ensures
            final(self).wf(),
            final(self).operation == old(self).operation,
            match old(self).phase {
                Phase::Identifying => identify_step(event, *final(self), r),
                Phase::CountingProtocols => count_step(event, *final(self), r),
                Phase::ListingProtocols { count } => list_step(count, event, *final(self), r),
                Phase::ReadingStatus => status_step(old(self).operation, event, *final(self), r),
                Phase::Running { index } => run_step(old(self).operation, index as int, event, *final(self), r),
                Phase::Finished => false,
            },
            old(self).operation is Query ==> !sends(r),
            sends(r) || resets(r) ==> final(self).confirmed(),
            sends_op(r, SecurityOperation::EraseUnit) ==> {
                &&& old(self).phase matches Phase::Running { index }
                &&& plan(old(self).operation)[index as int] == Step::Send(SecurityOperation::ErasePrepare)
                &&& event is Completed
            },
            resets(r) ==> {
                &&& old(self).phase matches Phase::Running { index }
                &&& plan(old(self).operation)[index as int] == Step::Send(SecurityOperation::Unlock)
                &&& event is Completed
            },
            (old(self).phase matches Phase::Running { index }
                && plan(old(self).operation)[index as int] == Step::Send(SecurityOperation::Unlock)
                && event is Completed) ==> resets(r),
    {
        let op = self.operation;
        match self.phase {
            Phase::Identifying => match event {
                Event::Identity(raw) => {
                    if raw.len() == IDENTIFY_LEN {
                        let id = decode_identity(raw.as_slice());
                        let security = id.security();
                        self.identity = Some(id);
                        if security {
                            self.phase = Phase::CountingProtocols;
                            Action::Issue(Command::Receive { protocol: 0, selector: 0, length: DISCOVERY_HEADER_LEN })
                        } else {
                            self.phase = Phase::Finished;
                            Action::Finish(Outcome::Unsupported(Unsupported::SecurityCommands))
                        }
                    } else {
                        self.fail(Stage::Identify, DeviceError::BadResponse)
                    }
                },
                Event::Failed(e) => self.fail(Stage::Identify, e),
                _ => self.fail(Stage::Identify, DeviceError::BadResponse),
            },
            Phase::CountingProtocols => match event {
                Event::Received(buf) => {
                    if buf.len() == DISCOVERY_HEADER_LEN {
                        let count = read_be16(buf.as_slice(), 6);
                        if count == 0 {
                            let none: Vec<Protocol> = Vec::new();
                            assert(none@ =~= Seq::<Protocol>::empty());
                            self.protocols_known(none)
                        } else {
                            self.phase = Phase::ListingProtocols { count };
                            Action::Issue(Command::Receive {
                                protocol: 0,
                                selector: 0,
                                length: count as usize + DISCOVERY_HEADER_LEN,
                            })
                        }
                    } else {
                        self.fail(Stage::ProtocolCount, DeviceError::BadResponse)
                    }
                },
                Event::Failed(e) => self.fail(Stage::ProtocolCount, e),
                _ => self.fail(Stage::ProtocolCount, DeviceError::BadResponse),
            },
            Phase::ListingProtocols { count } => match event {
                Event::Received(buf) => {
                    if buf.len() == count as usize + DISCOVERY_HEADER_LEN {
                        let protocols = decode_protocols(buf.as_slice(), count as usize);
                        self.protocols_known(protocols)
                    } else {
                        self.fail(Stage::ProtocolList, DeviceError::BadResponse)
                    }
                },
                Event::Failed(e) => self.fail(Stage::ProtocolList, e),
                _ => self.fail(Stage::ProtocolList, DeviceError::BadResponse),
            },
            Phase::ReadingStatus => match event {
                Event::Received(buf) => {
                    if buf.len() == STATUS_LEN {
                        let status = decode_status(buf.as_slice());
                        self.status = Some(status);
                        if matches!(op, Operation::Query) {
                            self.phase = Phase::Finished;
                            Action::Finish(Outcome::Success)
                        } else if !status.supported {
                            self.phase = Phase::Finished;
                            Action::Finish(Outcome::Unsupported(Unsupported::AtaSecurity))
                        } else {
                            let plan = steps(&op);
                            self.phase = Phase::Running { index: 0 };
                            Action::Issue(command_for(&op, plan[0]))
                        }
                    } else {
                        self.fail(Stage::Status, DeviceError::BadResponse)
                    }
                },
                Event::Failed(e) => self.fail(Stage::Status, e),
                _ => self.fail(Stage::Status, DeviceError::BadResponse),
            },
            Phase::Running { index } => {
                let plan = steps(&op);
                let stage = Stage::Run(plan[index]);
                match event {
                    Event::Completed => {
                        if index + 1 < plan.len() {
                            self.phase = Phase::Running { index: index + 1 };
                            Action::Issue(command_for(&op, plan[index + 1]))
                        } else {
                            self.phase = Phase::Finished;
                            Action::Finish(Outcome::Success)
                        }
                    },
                    Event::Failed(e) => self.fail(stage, e),
                    _ => self.fail(stage, DeviceError::BadResponse),
                }
            },
            Phase::Finished => Action::Finish(Outcome::Success),
        }
    }
}

} // verus!
