//! The workflow of one device: version check, the self-test that unlocks the
//! device where needed, then the requested operation.
//!
//! The workflow is a state machine. It names the next thing to do on the
//! connection, and takes what the connection delivered.

use crate::command::{
    OP_GET_STATUS, OP_GET_VERSION, OP_READ_ALL, OP_SET_PASSTHROUGH, OP_SET_RESET,
    OP_SET_UNLOCKED, OP_WRITE_ALL,
};
use crate::entropy::random_bytes;
use crate::error::{Fault, Gbl32Error, IoFault};
use crate::session::{
    exchange_outcome, first_mismatch, mismatch_of, status_of, wire_request, Gbl32, Status,
    IMAGE_LEN,
};
use vstd::prelude::*;

verus! {

/// What a run does with every device.
#[derive(Clone, Debug, PartialEq, Eq)]
pub enum Operation {
    /// Flash this image of 32768 bytes and boot it.
    Upload(Vec<u8>),
    /// Report the status.
    Status,
}

/// Where the workflow stands: the step whose answer it waits for.
#[derive(Clone, Copy, Debug, PartialEq, Eq)]
pub enum Stage {
    /// Version query.
    Version,
    /// Status query that decides whether the device must be unlocked.
    Status,
    /// Self-test: passthrough off.
    Isolate,
    /// Self-test: write-unlock on.
    Unlock,
    /// Self-test: arm the bulk write.
    ArmWrite,
    /// Self-test: the random pattern, unframed.
    WritePattern,
    /// Self-test: arm the bulk read.
    ArmRead,
    /// Self-test: the memory read back, unframed.
    ReadBack,
    /// Self-test: status query that confirms the unlock.
    Recheck,
    /// Upload: reset asserted.
    HoldReset,
    /// Upload: passthrough off.
    Detach,
    /// Upload: arm the bulk write.
    ArmImage,
    /// Upload: the image, unframed.
    WriteImage,
    /// Upload: passthrough on.
    Attach,
    /// Upload: reset released.
    Release,
    /// Status operation: the status query.
    Report,
    /// Nothing is left to do.
    Finished,
}

/// Why the workflow of a device failed.
#[derive(Clone, Debug, PartialEq, Eq)]
pub enum WorkflowError {
    /// A command failed.
    Device(Gbl32Error),
    /// The firmware is neither 2.0 nor 2.1.
    UnsupportedVersion { major: u8, minor: u8 },
    /// The memory read back differs from the pattern, first at this index.
    SelfTest { index: usize },
    /// The device is still locked after a passing self-test.
    UnlockRejected,
    /// The image does not have 32768 bytes.
    ImageLength { received: usize },
    /// The bulk read did not deliver 32768 bytes.
    BulkLength { received: usize },
    /// Something was delivered that the step under way does not wait for.
    OutOfTurn,
}

/// Mathematical model of a [`WorkflowError`].
pub enum Failure {
    Device(Fault),
    UnsupportedVersion { major: u8, minor: u8 },
    SelfTest { index: usize },
    UnlockRejected,
    ImageLength { received: usize },
    BulkLength { received: usize },
    OutOfTurn,
}

impl View for WorkflowError {
    type V = Failure;

    open spec fn view(&self) -> Failure {
        match *self {
            WorkflowError::Device(e) => Failure::Device(e@),
            WorkflowError::UnsupportedVersion { major, minor } => Failure::UnsupportedVersion {
                major,
                minor,
            },
            WorkflowError::SelfTest { index } => Failure::SelfTest { index },
            WorkflowError::UnlockRejected => Failure::UnlockRejected,
            WorkflowError::ImageLength { received } => Failure::ImageLength { received },
            WorkflowError::BulkLength { received } => Failure::BulkLength { received },
            WorkflowError::OutOfTurn => Failure::OutOfTurn,
        }
    }
}

/// What the connection delivered.
#[derive(Clone, Debug, PartialEq, Eq)]
pub enum Event {
    /// The line read up to the delimiter, after a framed request.
    Line(Vec<u8>),
    /// The unframed bytes were written and flushed.
    Sent,
    /// The unframed bytes that were read.
    Raw(Vec<u8>),
    /// A read, write or flush failed.
    Fault(IoFault),
}

/// Mathematical model of an [`Event`].
pub enum Delivery {
    Line(Seq<u8>),
    Sent,
    Raw(Seq<u8>),
    Fault(IoFault),
}

impl View for Event {
    type V = Delivery;

    open spec fn view(&self) -> Delivery {
        match *self {
            Event::Line(line) => Delivery::Line(line@),
            Event::Sent => Delivery::Sent,
            Event::Raw(bytes) => Delivery::Raw(bytes@),
            Event::Fault(fault) => Delivery::Fault(fault),
        }
    }
}

/// What to do next on the connection.
#[derive(Clone, Debug, PartialEq, Eq)]
pub enum Action {
    /// Write these bytes, flush, and read up to the delimiter.
    Exchange(Vec<u8>),
    /// Write exactly these bytes, unframed, and flush.
    SendRaw(Vec<u8>),
    /// Read exactly this number of unframed bytes.
    ReceiveRaw(usize),
    /// The workflow is complete; a status operation reports the status.
    Finished(Option<Status>),
    /// The workflow failed.
    Failed(WorkflowError),
}

/// Mathematical model of an [`Action`].
pub enum Task {
    Exchange(Seq<u8>),
    SendRaw(Seq<u8>),
    ReceiveRaw(usize),
    Finished(Option<Status>),
    Failed(Failure),
}

impl View for Action {
    type V = Task;

    open spec fn view(&self) -> Task {
        match *self {
            Action::Exchange(wire) => Task::Exchange(wire@),
            Action::SendRaw(bytes) => Task::SendRaw(bytes@),
            Action::ReceiveRaw(count) => Task::ReceiveRaw(count),
            Action::Finished(status) => Task::Finished(status),
            Action::Failed(e) => Task::Failed(e@),
        }
    }
}

/// What a delivery leads to.
pub enum Step {
    /// The workflow goes on with this stage.
    Run(Stage),
    /// The workflow is complete.
    Done(Option<Status>),
    /// The workflow failed.
    Fail(Failure),
}

/// The first stage of the operation itself.
pub open spec fn operation_entry(upload: bool) -> Stage {
    if upload {
        Stage::HoldReset
    } else {
        Stage::Report
    }
}

/// Whether a stage belongs to the upload.
pub open spec fn upload_stage(stage: Stage) -> bool {
    stage == Stage::HoldReset || stage == Stage::Detach || stage == Stage::ArmImage || stage
        == Stage::WriteImage || stage == Stage::Attach || stage == Stage::Release
}

/// The step after a command without response data: `next` where the device
/// acknowledged, else the fault.
pub open spec fn acked(cmd: u8, line: Seq<u8>, next: Step) -> Step {
    match exchange_outcome(cmd, line, 0) {
        Ok(_) => next,
        Err(fault) => Step::Fail(Failure::Device(fault)),
    }
}

/// The step that a line leads to at each stage.
pub open spec fn line_step(stage: Stage, upload: bool, line: Seq<u8>) -> Step {
    match stage {
        Stage::Version => match exchange_outcome(OP_GET_VERSION, line, 2) {
            Ok(data) => if data[0] == 2 && (data[1] == 0 || data[1] == 1) {
                Step::Run(Stage::Status)
            } else {
                Step::Fail(Failure::UnsupportedVersion { major: data[0], minor: data[1] })
            },
            Err(fault) => Step::Fail(Failure::Device(fault)),
        },
        Stage::Status => match exchange_outcome(OP_GET_STATUS, line, 3) {
            Ok(data) => if status_of(data).unlocked {
                Step::Run(operation_entry(upload))
            } else {
                Step::Run(Stage::Isolate)
            },
            Err(fault) => Step::Fail(Failure::Device(fault)),
        },
        Stage::Isolate => acked(OP_SET_PASSTHROUGH, line, Step::Run(Stage::Unlock)),
        Stage::Unlock => acked(OP_SET_UNLOCKED, line, Step::Run(Stage::ArmWrite)),
        Stage::ArmWrite => acked(OP_WRITE_ALL, line, Step::Run(Stage::WritePattern)),
        Stage::ArmRead => acked(OP_READ_ALL, line, Step::Run(Stage::ReadBack)),
        Stage::Recheck => match exchange_outcome(OP_GET_STATUS, line, 3) {
            Ok(data) => if status_of(data).unlocked {
                Step::Run(operation_entry(upload))
            } else {
                Step::Fail(Failure::UnlockRejected)
            },
            Err(fault) => Step::Fail(Failure::Device(fault)),
        },
        Stage::HoldReset => acked(OP_SET_RESET, line, Step::Run(Stage::Detach)),
        Stage::Detach => acked(OP_SET_PASSTHROUGH, line, Step::Run(Stage::ArmImage)),
        Stage::ArmImage => acked(OP_WRITE_ALL, line, Step::Run(Stage::WriteImage)),
        Stage::Attach => acked(OP_SET_PASSTHROUGH, line, Step::Run(Stage::Release)),
        Stage::Release => acked(OP_SET_RESET, line, Step::Done(None)),
        Stage::Report => match exchange_outcome(OP_GET_STATUS, line, 3) {
            Ok(data) => Step::Done(Some(status_of(data))),
            Err(fault) => Step::Fail(Failure::Device(fault)),
        },
        _ => Step::Fail(Failure::OutOfTurn),
    }
}

/// The step after the memory was read back: the self-test fails at the
/// first byte that differs from the pattern.
pub open spec fn self_test_step(pattern: Seq<u8>, bytes: Seq<u8>) -> Step {
    if bytes.len() != IMAGE_LEN {
        Step::Fail(Failure::BulkLength { received: bytes.len() as usize })
    } else {
        match mismatch_of(pattern, bytes) {
            Some(index) => Step::Fail(Failure::SelfTest { index: index as usize }),
            None => Step::Run(Stage::Recheck),
        }
    }
}

/// The step that a delivery leads to. A fault of the connection is fatal at
/// every stage.
pub open spec fn next_step(stage: Stage, upload: bool, pattern: Seq<u8>, delivery: Delivery)
    -> Step {
    match delivery {
        Delivery::Fault(fault) => Step::Fail(Failure::Device(Fault::Io(fault))),
        Delivery::Line(line) => line_step(stage, upload, line),
        Delivery::Sent => match stage {
            Stage::WritePattern => Step::Run(Stage::ArmRead),
            Stage::WriteImage => Step::Run(Stage::Attach),
            _ => Step::Fail(Failure::OutOfTurn),
        },
        Delivery::Raw(bytes) => match stage {
            Stage::ReadBack => self_test_step(pattern, bytes),
            _ => Step::Fail(Failure::OutOfTurn),
        },
    }
}

/// What each stage asks of the connection.
pub open spec fn stage_task(stage: Stage, pattern: Seq<u8>, image: Seq<u8>) -> Task {
    let none = Seq::<u8>::empty();
    match stage {
        Stage::Version => Task::Exchange(wire_request(OP_GET_VERSION, none)),
        Stage::Status | Stage::Recheck | Stage::Report => Task::Exchange(
            wire_request(OP_GET_STATUS, none),
        ),
        Stage::Isolate | Stage::Detach => Task::Exchange(
            wire_request(OP_SET_PASSTHROUGH, seq![0u8]),
        ),
        Stage::Unlock => Task::Exchange(wire_request(OP_SET_UNLOCKED, seq![1u8])),
        Stage::ArmWrite | Stage::ArmImage => Task::Exchange(wire_request(OP_WRITE_ALL, none)),
        Stage::WritePattern => Task::SendRaw(pattern),
        Stage::ArmRead => Task::Exchange(wire_request(OP_READ_ALL, none)),
        Stage::ReadBack => Task::ReceiveRaw(IMAGE_LEN),
        Stage::HoldReset => Task::Exchange(wire_request(OP_SET_RESET, seq![1u8])),
        Stage::WriteImage => Task::SendRaw(image),
        Stage::Attach => Task::Exchange(wire_request(OP_SET_PASSTHROUGH, seq![1u8])),
        Stage::Release => Task::Exchange(wire_request(OP_SET_RESET, seq![0u8])),
        Stage::Finished => Task::Finished(None),
    }
}

/// What a step asks of the connection.
pub open spec fn step_task(step: Step, pattern: Seq<u8>, image: Seq<u8>) -> Task {
    match step {
        Step::Run(stage) => stage_task(stage, pattern, image),
        Step::Done(status) => Task::Finished(status),
        Step::Fail(failure) => Task::Failed(failure),
    }
}

/// The stage that a step leaves the workflow in.
pub open spec fn step_stage(step: Step) -> Stage {
    match step {
        Step::Run(stage) => stage,
        _ => Stage::Finished,
    }
}

/// What a workflow does and how far it has come.
struct Plan {
    stage: Stage,
    upload: bool,
    image: Vec<u8>,
    pattern: Vec<u8>,
}

impl Plan {
    /// The pattern has 32768 bytes, and so has the image of an upload; only
    /// an upload reaches the stages of an upload.
    #[verifier::type_invariant]
    spec fn wf(&self) -> bool {
        &&& self.pattern@.len() == IMAGE_LEN
        &&& self.upload ==> self.image@.len() == IMAGE_LEN
        &&& upload_stage(self.stage) ==> self.upload
    }
}

/// The workflow of one device, with its session.
pub struct Worker {
    session: Gbl32,
    plan: Plan,
}

/// What the exchange of a command without response data leads to.
fn after_ack(result: Result<(), Gbl32Error>, next: Stage) -> (outcome: Result<Stage, WorkflowError>)
    ensures
        match (outcome, result) {
            (Ok(stage), Ok(_)) => stage == next,
            (Err(e), Err(cause)) => e@ == Failure::Device(cause@),
            _ => false,
        },
{
    match result {
        Ok(_) => Ok(next),
        Err(e) => Err(WorkflowError::Device(e)),
    }
}

impl Worker {
    /// The step whose answer the workflow waits for.
    pub closed spec fn stage(&self) -> Stage {
        self.plan.stage
    }

    /// Whether the operation is an upload.
    pub closed spec fn uploads(&self) -> bool {
        self.plan.upload
    }

    /// The image to upload; empty for a status operation.
    pub closed spec fn image(&self) -> Seq<u8> {
        self.plan.image@
    }

    /// The random pattern of the self-test.
    pub closed spec fn pattern(&self) -> Seq<u8> {
        self.plan.pattern@
    }

    /// Takes a ready session and the operation. An upload whose image does
    /// not have exactly 32768 bytes is rejected here, before any command.
    /// The workflow starts at the version query, with a fresh random
    /// pattern for the self-test.
    pub fn new(session: Gbl32, operation: Operation) -> (result: Result<Worker, WorkflowError>)
        ensures
            match result {
                Ok(worker) => {
                    &&& worker.pattern().len() == IMAGE_LEN
                    &&& worker.stage() == Stage::Version
                    &&& match operation {
                        Operation::Upload(image) => image@.len() == IMAGE_LEN && worker.uploads()
                            && worker.image() == image@,
                        Operation::Status => !worker.uploads(),
                    }
                },
                Err(e) => match operation {
                    Operation::Upload(image) => image@.len() != IMAGE_LEN && e@
                        == (Failure::ImageLength { received: image@.len() as usize }),
                    Operation::Status => false,
                },
            },
    {
        match operation {
            Operation::Upload(image) => {
                if image.len() != IMAGE_LEN {
                    return Err(WorkflowError::ImageLength { received: image.len() });
                }
                let plan = Plan {
                    stage: Stage::Version,
                    upload: true,
                    image,
                    pattern: random_bytes(IMAGE_LEN),
                };
                Ok(Worker { session, plan })
            },
            Operation::Status => {
                let plan = Plan {
                    stage: Stage::Version,
                    upload: false,
                    image: Vec::new(),
                    pattern: random_bytes(IMAGE_LEN),
                };
                Ok(Worker { session, plan })
            },
        }
    }

    /// The step whose answer the workflow waits for.
    pub fn current_stage(&self) -> (stage: Stage)
        ensures
            stage == self.stage(),
    {
        self.plan.stage
    }

    /// What the stage under way asks of the connection.
    pub fn action(&self) -> (action: Action)
        ensures
            action@ == stage_task(self.stage(), self.pattern(), self.image()),
    {
        let none: Vec<u8> = Vec::new();
        let off: Vec<u8> = vec![0u8];
        let on: Vec<u8> = vec![1u8];
        proof {
            assert(none@ =~= Seq::<u8>::empty());
            assert(off@ =~= seq![0u8]);
            assert(on@ =~= seq![1u8]);
        }
        match self.plan.stage {
            Stage::Version => Action::Exchange(Gbl32::request(OP_GET_VERSION, none.as_slice())),
            Stage::Status | Stage::Recheck | Stage::Report => Action::Exchange(
                Gbl32::request(OP_GET_STATUS, none.as_slice()),
            ),
            Stage::Isolate | Stage::Detach => Action::Exchange(
                Gbl32::request(OP_SET_PASSTHROUGH, off.as_slice()),
            ),
            Stage::Unlock => Action::Exchange(Gbl32::request(OP_SET_UNLOCKED, on.as_slice())),
            Stage::ArmWrite | Stage::ArmImage => Action::Exchange(
                Gbl32::request(OP_WRITE_ALL, none.as_slice()),
            ),
            Stage::WritePattern => Action::SendRaw(self.plan.pattern.clone()),
            Stage::ArmRead => Action::Exchange(Gbl32::request(OP_READ_ALL, none.as_slice())),
            Stage::ReadBack => Action::ReceiveRaw(IMAGE_LEN),
            Stage::HoldReset => Action::Exchange(Gbl32::request(OP_SET_RESET, on.as_slice())),
            Stage::WriteImage => Action::SendRaw(self.plan.image.clone()),
            Stage::Attach => Action::Exchange(Gbl32::request(OP_SET_PASSTHROUGH, on.as_slice())),
            Stage::Release => Action::Exchange(Gbl32::request(OP_SET_RESET, off.as_slice())),
            Stage::Finished => Action::Finished(None),
        }
    }

    /// The first stage of the operation itself.
    fn entry(&self) -> (stage: Stage)
        ensures
            stage == operation_entry(self.uploads()),
    {
        if self.plan.upload {
            Stage::HoldReset
        } else {
            Stage::Report
        }
    }

    /// Reads the line that answered the framed request of the stage under
    /// way, and decides how the workflow goes on.
    fn on_line(&mut self, line: Vec<u8>) -> (outcome: Result<Option<Stage>, WorkflowError>)
        ensures
            final(self).stage() == old(self).stage(),
            final(self).uploads() == old(self).uploads(),
            final(self).image() == old(self).image(),
            final(self).pattern() == old(self).pattern(),
            match line_step(old(self).stage(), old(self).uploads(), line@) {
                Step::Run(stage) => outcome == Ok::<Option<Stage>, WorkflowError>(Some(stage)),
                Step::Done(None) => outcome == Ok::<Option<Stage>, WorkflowError>(None),
                Step::Done(Some(status)) => outcome == Ok::<Option<Stage>, WorkflowError>(None)
                    && final(self).session.data().len() == 3 && status_of(
                    final(self).session.data(),
                ) == status,
                Step::Fail(failure) => outcome matches Err(e) && e@ == failure,
            },
    {
        proof {
            use_type_invariant(&self.plan);
        }
        match self.plan.stage {
            Stage::Version => match self.session.get_version(line) {
                Ok((major, minor)) => {
                    if major == 2 && (minor == 0 || minor == 1) {
                        Ok(Some(Stage::Status))
                    } else {
                        Err(WorkflowError::UnsupportedVersion { major, minor })
                    }
                },
                Err(e) => Err(WorkflowError::Device(e)),
            },
            Stage::Status => match self.session.get_status(line) {
                Ok(status) => {
                    if status.unlocked {
                        Ok(Some(self.entry()))
                    } else {
                        Ok(Some(Stage::Isolate))
                    }
                },
                Err(e) => Err(WorkflowError::Device(e)),
            },
            Stage::Recheck => match self.session.get_status(line) {
                Ok(status) => {
                    if status.unlocked {
                        Ok(Some(self.entry()))
                    } else {
                        Err(WorkflowError::UnlockRejected)
                    }
                },
                Err(e) => Err(WorkflowError::Device(e)),
            },
            Stage::Report => match self.session.get_status(line) {
                Ok(_) => Ok(None),
                Err(e) => Err(WorkflowError::Device(e)),
            },
            Stage::Isolate => {
                let next = after_ack(self.session.set_passthrough(line), Stage::Unlock)?;
                Ok(Some(next))
            },
            Stage::Unlock => {
                let next = after_ack(self.session.set_unlocked(line), Stage::ArmWrite)?;
                Ok(Some(next))
            },
            Stage::ArmWrite => {
                let ack = self.session.write_all(self.plan.pattern.as_slice(), line);
                let next = after_ack(ack, Stage::WritePattern)?;
                Ok(Some(next))
            },
            Stage::ArmRead => match self.session.read_all(line) {
                Ok(_) => Ok(Some(Stage::ReadBack)),
                Err(e) => Err(WorkflowError::Device(e)),
            },
            Stage::HoldReset => {
                let next = after_ack(self.session.set_reset(line), Stage::Detach)?;
                Ok(Some(next))
            },
            Stage::Detach => {
                let next = after_ack(self.session.set_passthrough(line), Stage::ArmImage)?;
                Ok(Some(next))
            },
            Stage::ArmImage => {
                let ack = self.session.write_all(self.plan.image.as_slice(), line);
                let next = after_ack(ack, Stage::WriteImage)?;
                Ok(Some(next))
            },
            Stage::Attach => {
                let next = after_ack(self.session.set_passthrough(line), Stage::Release)?;
                Ok(Some(next))
            },
            Stage::Release => match self.session.set_reset(line) {
                Ok(_) => Ok(None),
                Err(e) => Err(WorkflowError::Device(e)),
            },
            _ => Err(WorkflowError::OutOfTurn),
        }
    }

    /// The status that the last response holds.
    fn reported(&self) -> (status: Status)
        requires
            self.session.data().len() == 3,
        ensures
            status == status_of(self.session.data()),
    {
        let data = self.session.response();
        Status { unlocked: data[0] != 0x00, passthrough: data[1] != 0x00, reset: data[2] != 0x00 }
    }

    /// Takes what the connection delivered for the action under way, and
    /// gives the next action. A fault of the connection or of a command
    /// ends the workflow; nothing is tried again.
    pub fn step(&mut self, event: Event) -> (action: Action)
        ensures
            final(self).uploads() == old(self).uploads(),
            final(self).image() == old(self).image(),
            final(self).pattern() == old(self).pattern(),
            final(self).stage() == step_stage(
                next_step(old(self).stage(), old(self).uploads(), old(self).pattern(), event@),
            ),
            action@ == step_task(
                next_step(old(self).stage(), old(self).uploads(), old(self).pattern(), event@),
                old(self).pattern(),
                old(self).image(),
            ),
    {
        proof {
            use_type_invariant(&self.plan);
        }
        let report = matches!(self.plan.stage, Stage::Report);
        let outcome: Result<Option<Stage>, WorkflowError> = match event {
            Event::Fault(fault) => Err(WorkflowError::Device(Gbl32Error::Io(fault))),
            Event::Line(line) => self.on_line(line),
            Event::Sent => match self.plan.stage {
                Stage::WritePattern => Ok(Some(Stage::ArmRead)),
                Stage::WriteImage => Ok(Some(Stage::Attach)),
                _ => Err(WorkflowError::OutOfTurn),
            },
            Event::Raw(bytes) => match self.plan.stage {
                Stage::ReadBack => {
                    if bytes.len() != IMAGE_LEN {
                        Err(WorkflowError::BulkLength { received: bytes.len() })
                    } else {
                        match first_mismatch(self.plan.pattern.as_slice(), bytes.as_slice()) {
                            Some(index) => Err(WorkflowError::SelfTest { index }),
                            None => Ok(Some(Stage::Recheck)),
                        }
                    }
                },
                _ => Err(WorkflowError::OutOfTurn),
            },
        };
        match outcome {
            Ok(Some(stage)) => {
                self.plan.stage = stage;
                self.action()
            },
            Ok(None) => {
                self.plan.stage = Stage::Finished;
                if report {
                    Action::Finished(Some(self.reported()))
                } else {
                    Action::Finished(None)
                }
            },
            Err(e) => {
                self.plan.stage = Stage::Finished;
                Action::Failed(e)
            },
        }
    }
}

/// A device that gives back the pattern unchanged passes the self-test: the
/// workflow goes on to confirm the unlock.
pub proof fn lemma_self_test_passes(pattern: Seq<u8>)
    requires
        pattern.len() == IMAGE_LEN,
    ensures
        self_test_step(pattern, pattern) == Step::Run(Stage::Recheck),
{
    assert forall|i: int| !crate::session::is_first_mismatch(pattern, pattern, i) by {}
}

/// A device that gives back the pattern with one byte changed fails the
/// self-test at exactly that byte's index.
pub proof fn lemma_self_test_names_index(pattern: Seq<u8>, index: usize, value: u8)
    requires
        pattern.len() == IMAGE_LEN,
        index < IMAGE_LEN,
        value != pattern[index as int],
    ensures
        self_test_step(pattern, pattern.update(index as int, value)) == Step::Fail(
            Failure::SelfTest { index },
        ),
{
    let bytes = pattern.update(index as int, value);
    assert(crate::session::is_first_mismatch(pattern, bytes, index as int));
    let chosen = choose|i: int| crate::session::is_first_mismatch(pattern, bytes, i);
    crate::session::lemma_first_mismatch_unique(pattern, bytes, index as int, chosen);
}

/// The upload keeps its order: reset is asserted and passthrough switched
/// off before the image is written, and they are restored, passthrough
/// first, only after it.
pub proof fn lemma_upload_order(line: Seq<u8>, upload: bool, pattern: Seq<u8>)
    ensures
        exchange_outcome(OP_SET_RESET, line, 0) is Ok ==> next_step(
            Stage::HoldReset,
            upload,
            pattern,
            Delivery::Line(line),
        ) == Step::Run(Stage::Detach) && next_step(
            Stage::Release,
            upload,
            pattern,
            Delivery::Line(line),
        ) == Step::Done(None),
        exchange_outcome(OP_SET_PASSTHROUGH, line, 0) is Ok ==> next_step(
            Stage::Detach,
            upload,
            pattern,
            Delivery::Line(line),
        ) == Step::Run(Stage::ArmImage) && next_step(
            Stage::Attach,
            upload,
            pattern,
            Delivery::Line(line),
        ) == Step::Run(Stage::Release),
        exchange_outcome(OP_WRITE_ALL, line, 0) is Ok ==> next_step(
            Stage::ArmImage,
            upload,
            pattern,
            Delivery::Line(line),
        ) == Step::Run(Stage::WriteImage),
        next_step(Stage::WriteImage, upload, pattern, Delivery::Sent) == Step::Run(Stage::Attach),
{
}

} // verus!
