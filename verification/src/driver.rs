//! The fill driver: when to reserve, when to render, when to append, and
//! when to stop.
//!
//! One iteration looks at the length; at a cluster boundary it reserves the
//! next cluster and has the status line rendered; then it appends one byte.
//! Rendering is the caller's part: the driver hands out one terminal command
//! at a time and is told whether it was carried out.

use vstd::prelude::*;
use crate::buffer::{Buffer, CLUSTER_SIZE, NULL_BYTE};
use crate::error::{FillError, Operation, TerminalStep};
use crate::status::{lemma_status_single_line, single_line, status_text, StatusStyle};
use crate::terminal::{
    command_sequence, command_step, init_cursor, lemma_script_single_line, operation_script,
    print_buffer_statistics, script_view, CommandView, TerminalCommand,
};

verus! {

/// Where a run stands.
#[derive(Clone, Copy, Debug, PartialEq, Eq, Structural)]
pub enum Phase {
    /// Anchoring the cursor; the number counts the commands carried out.
    Initializing(usize),
    /// At a cluster boundary, about to ask the allocator.
    Reserving,
    /// The next cluster is reserved and the status line is being painted; the
    /// number counts the commands carried out.
    Rendering(usize),
    /// Stopped for good.
    Terminated(FillError),
}

/// `count` bytes of the filler.
pub open spec fn filler(count: nat) -> Seq<u8> {
    Seq::new(count, |i: int| NULL_BYTE)
}

/// What can be observed of a driver.
pub struct DriverState {
    /// The bytes written.
    pub bytes: Seq<u8>,
    /// The bytes reserved.
    pub capacity: nat,
    /// The style of the status line.
    pub style: StatusStyle,
    /// Where the run stands.
    pub phase: Phase,
    /// The reservations granted so far.
    pub reservations: nat,
    /// The status lines flushed so far.
    pub renders: nat,
    /// The byte count that the last flushed status line reported.
    pub last_status: Option<nat>,
}

impl DriverState {
    /// The number of bytes written.
    pub open spec fn length(self) -> nat {
        self.bytes.len()
    }

    /// The number of whole clusters written.
    pub open spec fn clusters(self) -> nat {
        self.length() / (CLUSTER_SIZE as nat)
    }

    /// Nothing has happened yet.
    pub open spec fn at_start(self) -> bool {
        &&& self.length() == 0
        &&& self.capacity == 0
        &&& self.reservations == 0
        &&& self.renders == 0
    }

    /// Every reserved byte is written, and each cluster had its reservation
    /// and its status line.
    pub open spec fn between_clusters(self) -> bool {
        &&& self.capacity == self.length()
        &&& self.reservations == self.clusters()
        &&& self.renders == self.clusters()
    }

    /// The next cluster is reserved; its status line is not flushed yet.
    pub open spec fn reserved_ahead(self) -> bool {
        &&& self.capacity == self.length() + CLUSTER_SIZE
        &&& self.reservations == self.clusters() + 1
        &&& self.renders == self.clusters()
    }

    /// The commands of the operation under way, if one is.
    pub open spec fn script(self) -> Option<Seq<CommandView>> {
        match self.phase {
            Phase::Initializing(_) => Some(
                operation_script(Operation::Initialize, Seq::<char>::empty()),
            ),
            Phase::Rendering(_) => Some(
                operation_script(
                    Operation::RenderStatus,
                    status_text(self.style, self.length()),
                ),
            ),
            _ => None,
        }
    }

    /// The command that the caller is to carry out next, if any.
    pub open spec fn pending(self) -> Option<CommandView> {
        match self.phase {
            Phase::Initializing(done) => Some(self.script().unwrap()[done as int]),
            Phase::Rendering(done) => Some(self.script().unwrap()[done as int]),
            _ => None,
        }
    }

    /// The states that a run can be in.
    pub open spec fn wf(self) -> bool {
        &&& self.length() % (CLUSTER_SIZE as nat) == 0
        &&& self.capacity <= usize::MAX
        &&& self.bytes == filler(self.length())
        &&& self.last_status == (if self.renders == 0 {
            None
        } else {
            Some(((self.renders - 1) * CLUSTER_SIZE) as nat)
        })
        &&& match self.phase {
            Phase::Initializing(done) => done < 3 && self.at_start(),
            Phase::Reserving => self.between_clusters(),
            Phase::Rendering(done) => done < 4 && self.reserved_ahead(),
            Phase::Terminated(FillError::ReservationRefused { bytes }) => bytes == CLUSTER_SIZE
                && self.between_clusters(),
            Phase::Terminated(
                FillError::TerminalIoFailed { operation: Operation::Initialize, step },
            ) => self.at_start() && (step == TerminalStep::Move || step == TerminalStep::Save
                || step == TerminalStep::Flush),
            Phase::Terminated(
                FillError::TerminalIoFailed { operation: Operation::RenderStatus, step },
            ) => self.reserved_ahead() && (step == TerminalStep::Restore || step
                == TerminalStep::Clear || step == TerminalStep::Print || step
                == TerminalStep::Flush),
        }
    }

    /// The state after the pending command was carried out. The command that
    /// ends the initialization leads to the first reservation. The one that
    /// ends a rendering counts the status line, lets the reserved cluster be
    /// filled byte by byte, and leads to the next reservation. With no command
    /// pending nothing changes.
    pub open spec fn after_success(self) -> DriverState {
        match self.phase {
            Phase::Initializing(done) => if done + 1 < 3 {
                DriverState { phase: Phase::Initializing((done + 1) as usize), ..self }
            } else {
                DriverState { phase: Phase::Reserving, ..self }
            },
            Phase::Rendering(done) => if done + 1 < 4 {
                DriverState { phase: Phase::Rendering((done + 1) as usize), ..self }
            } else {
                DriverState {
                    bytes: self.bytes + filler(CLUSTER_SIZE as nat),
                    phase: Phase::Reserving,
                    renders: self.renders + 1,
                    last_status: Some(self.length()),
                    ..self
                }
            },
            _ => self,
        }
    }

    /// The state after the pending command failed: stopped, with the error
    /// that names the operation and the step, and nothing else touched. With
    /// no command pending nothing changes.
    pub open spec fn after_failure(self) -> DriverState {
        match self.phase {
            Phase::Initializing(_) => DriverState {
                phase: Phase::Terminated(
                    FillError::TerminalIoFailed {
                        operation: Operation::Initialize,
                        step: command_step(self.pending().unwrap()),
                    },
                ),
                ..self
            },
            Phase::Rendering(_) => DriverState {
                phase: Phase::Terminated(
                    FillError::TerminalIoFailed {
                        operation: Operation::RenderStatus,
                        step: command_step(self.pending().unwrap()),
                    },
                ),
                ..self
            },
            _ => self,
        }
    }

    /// Whether a granted reservation of one more cluster can be counted in
    /// `usize`.
    pub open spec fn can_hold_next_cluster(self) -> bool {
        self.length() + CLUSTER_SIZE <= usize::MAX
    }

    /// The state after the allocator answered at a cluster boundary. Granted,
    /// the capacity grows by one cluster and the rendering starts. Refused, the
    /// run stops with the error that carries the cluster size, and nothing else
    /// is touched. Away from a boundary nothing changes.
    pub open spec fn after_reservation(self, granted: bool) -> DriverState {
        match self.phase {
            Phase::Reserving => if granted && self.can_hold_next_cluster() {
                DriverState {
                    capacity: (self.length() + CLUSTER_SIZE) as nat,
                    phase: Phase::Rendering(0),
                    reservations: self.reservations + 1,
                    ..self
                }
            } else {
                DriverState {
                    phase: Phase::Terminated(
                        FillError::ReservationRefused { bytes: CLUSTER_SIZE },
                    ),
                    ..self
                }
            },
            _ => self,
        }
    }
}

/// Appends one cluster of filler, one byte per iteration, stopping at the
/// next boundary.
fn fill_cluster(buffer: &mut Buffer)
    requires
        old(buffer).wf(),
        old(buffer)@.len() % (CLUSTER_SIZE as nat) == 0,
        old(buffer).spec_capacity() == old(buffer)@.len() + CLUSTER_SIZE,
    ensures
        final(buffer).wf(),
        final(buffer)@ == old(buffer)@ + filler(CLUSTER_SIZE as nat),
        final(buffer).spec_capacity() == old(buffer).spec_capacity(),
{
    let ghost start = buffer@;
    buffer.push(NULL_BYTE);
    assert(buffer@ =~= start + filler(1));
    while buffer.len() % CLUSTER_SIZE != 0
        invariant
            buffer.wf(),
            start.len() % (CLUSTER_SIZE as nat) == 0,
            buffer.spec_capacity() == start.len() + CLUSTER_SIZE,
            start.len() < buffer@.len() <= start.len() + CLUSTER_SIZE,
            buffer@ == start + filler((buffer@.len() - start.len()) as nat),
        decreases start.len() + CLUSTER_SIZE - buffer@.len(),
    {
        buffer.push(NULL_BYTE);
        assert(buffer@ =~= start + filler((buffer@.len() - start.len()) as nat));
    }
}

/// The fill driver.
pub struct FillDriver {
    buffer: Buffer,
    style: StatusStyle,
    phase: Phase,
    reservations: usize,
    renders: usize,
    last_status: Option<usize>,
}

impl View for FillDriver {
    type V = DriverState;

    closed spec fn view(&self) -> DriverState {
        DriverState {
            bytes: self.buffer@,
            capacity: self.buffer.spec_capacity(),
            style: self.style,
            phase: self.phase,
            reservations: self.reservations as nat,
            renders: self.renders as nat,
            last_status: match self.last_status {
                Some(length) => Some(length as nat),
                None => None,
            },
        }
    }
}

impl FillDriver {
    /// The driver is in a state that a run can be in.
    pub closed spec fn wf(&self) -> bool {
        self.buffer.wf() && self@.wf()
    }

    /// What `wf` says of the observable state.
    pub proof fn lemma_wf(&self)
        requires
            self.wf(),
        ensures
            self@.wf(),
    {
    }

    /// A driver at the start of a run: an empty buffer, nothing reserved, the
    /// first command of the initialization pending.
    pub fn new(style: StatusStyle) -> (driver: Self)
        ensures
            driver.wf(),
            driver@ == (DriverState {
                bytes: Seq::<u8>::empty(),
                capacity: 0,
                style,
                phase: Phase::Initializing(0),
                reservations: 0,
                renders: 0,
                last_status: None,
            }),
    {
        let driver = FillDriver {
            buffer: Buffer::new(),
            style,
            phase: Phase::Initializing(0),
            reservations: 0,
            renders: 0,
            last_status: None,
        };
        assert(driver@.bytes =~= filler(0));
        driver
    }

    /// Where the run stands.
    pub fn phase(&self) -> (phase: Phase)
        ensures
            phase == self@.phase,
    {
        self.phase
    }

    /// The error that stopped the run, if it has stopped.
    pub fn error(&self) -> (error: Option<FillError>)
        ensures
            error == (match self@.phase {
                Phase::Terminated(e) => Some(e),
                _ => None,
            }),
    {
        match self.phase {
            Phase::Terminated(e) => Some(e),
            _ => None,
        }
    }

    /// The number of bytes written.
    pub fn len(&self) -> (length: usize)
        ensures
            length == self@.length(),
    {
        self.buffer.len()
    }

    /// The number of bytes reserved.
    pub fn capacity(&self) -> (capacity: usize)
        ensures
            capacity == self@.capacity,
    {
        self.buffer.capacity()
    }

    /// The number of reservations granted.
    pub fn reservations(&self) -> (count: usize)
        ensures
            count == self@.reservations,
    {
        self.reservations
    }

    /// The number of status lines flushed.
    pub fn renders(&self) -> (count: usize)
        ensures
            count == self@.renders,
    {
        self.renders
    }

    /// The byte count that the last flushed status line reported.
    pub fn last_status(&self) -> (length: Option<usize>)
        ensures
            length.is_some() == self@.last_status.is_some(),
            length.is_some() ==> length.unwrap() == self@.last_status.unwrap(),
    {
        self.last_status
    }

    /// The command that the caller is to carry out now: the next one of the
    /// initialization or of the rendering under way, the latter printing the
    /// status line for the current length. `None` at a boundary and after the
    /// run has stopped.
    pub fn pending_command(&self) -> (command: Option<TerminalCommand>)
        requires
            self.wf(),
        ensures
            command.is_some() == self@.pending().is_some(),
            command.is_some() ==> command.unwrap()@ == self@.pending().unwrap(),
            command.is_some() ==> command.unwrap().encodable(),
    {
        match self.phase {
            Phase::Initializing(done) => {
                let mut script = init_cursor();
                assert(script_view(script@)[done as int] == script@[done as int]@);
                Some(script.remove(done))
            },
            Phase::Rendering(done) => {
                let mut script = print_buffer_statistics(self.style, self.buffer.len());
                assert(script_view(script@)[done as int] == script@[done as int]@);
                Some(script.remove(done))
            },
            _ => None,
        }
    }

    /// Records that the pending command failed. The run stops with the error
    /// that names the step; no byte is appended.
    pub fn command_failed(&mut self)
        requires
            old(self).wf(),
        ensures
            final(self).wf(),
            final(self)@ == old(self)@.after_failure(),
            final(self)@.bytes == old(self)@.bytes,
    {
        match self.phase {
            Phase::Initializing(done) => {
                let step = if done == 0 {
                    TerminalStep::Move
                } else if done == 1 {
                    TerminalStep::Save
                } else {
                    TerminalStep::Flush
                };
                self.phase = Phase::Terminated(
                    FillError::TerminalIoFailed { operation: Operation::Initialize, step },
                );
            },
            Phase::Rendering(done) => {
                let step = if done == 0 {
                    TerminalStep::Restore
                } else if done == 1 {
                    TerminalStep::Clear
                } else if done == 2 {
                    TerminalStep::Print
                } else {
                    TerminalStep::Flush
                };
                self.phase = Phase::Terminated(
                    FillError::TerminalIoFailed { operation: Operation::RenderStatus, step },
                );
            },
            _ => {},
        }
    }

    /// Records that the pending command was carried out, without asking the
    /// allocator. After the flush of a rendering the reserved cluster is
    /// filled, and the driver stands at the next boundary.
    pub fn complete_command(&mut self)
        requires
            old(self).wf(),
        ensures
            final(self).wf(),
            final(self)@ == old(self)@.after_success(),
    {
        match self.phase {
            Phase::Initializing(done) => {
                if done + 1 < 3 {
                    self.phase = Phase::Initializing(done + 1);
                } else {
                    self.phase = Phase::Reserving;
                }
            },
            Phase::Rendering(done) => {
                if done + 1 < 4 {
                    self.phase = Phase::Rendering(done + 1);
                } else {
                    let length = self.buffer.len();
                    self.renders = self.renders + 1;
                    self.last_status = Some(length);
                    fill_cluster(&mut self.buffer);
                    self.phase = Phase::Reserving;
                    proof {
                        let before = old(self)@;
                        assert(before.bytes + filler(CLUSTER_SIZE as nat) =~= filler(
                            (before.length() + CLUSTER_SIZE) as nat,
                        ));
                        assert(self@.last_status == Some(before.length()));
                    }
                }
            },
            _ => {},
        }
    }

    /// Accounts for the allocator's answer at a cluster boundary.
    pub fn settle_reservation(&mut self, granted: bool)
        requires
            old(self).wf(),
        ensures
            final(self).wf(),
            final(self)@ == old(self)@.after_reservation(granted),
    {
        match self.phase {
            Phase::Reserving => {
                match self.buffer.record_reservation(CLUSTER_SIZE, granted) {
                    Ok(()) => {
                        self.reservations = self.reservations + 1;
                        self.phase = Phase::Rendering(0);
                    },
                    Err(error) => {
                        self.phase = Phase::Terminated(error);
                    },
                }
            },
            _ => {},
        }
    }

    /// At a cluster boundary, asks the allocator for exactly one more
    /// cluster and accounts for the answer. Which answer comes is the
    /// allocator's to say; a cluster that `usize` cannot count is refused.
    pub fn reserve(&mut self)
        requires
            old(self).wf(),
        ensures
            final(self).wf(),
            final(self)@ == old(self)@.after_reservation(true) || final(self)@ == old(
                self,
            )@.after_reservation(false),
            !old(self)@.can_hold_next_cluster() ==> final(self)@ == old(self)@.after_reservation(
                false,
            ),
    {
        match self.phase {
            Phase::Reserving => {
                let granted = self.buffer.request_exact(CLUSTER_SIZE);
                self.settle_reservation(granted);
            },
            _ => {},
        }
    }

    /// Records that the pending command was carried out and goes on as far
    /// as the driver can by itself: at a boundary it asks the allocator at
    /// once, so that afterwards either a command is pending or the run has
    /// stopped.
    pub fn command_succeeded(&mut self)
        requires
            old(self).wf(),
        ensures
            final(self).wf(),
            final(self)@ == old(self)@.after_success().after_reservation(true) || final(self)@
                == old(self)@.after_success().after_reservation(false),
            !(final(self)@.phase is Reserving),
    {
        self.complete_command();
        self.reserve();
    }
}

/// Every transition leads from a state that a run can be in to another such
/// state.
pub proof fn lemma_transitions_preserve_wf(state: DriverState, granted: bool)
    requires
        state.wf(),
    ensures
        state.after_success().wf(),
        state.after_failure().wf(),
        state.after_reservation(granted).wf(),
{
    assert(state.bytes + filler(CLUSTER_SIZE as nat) =~= filler(
        (state.length() + CLUSTER_SIZE) as nat,
    ));
}

/// In every state of a run the capacity covers the length and is a whole
/// number of clusters, and the length is a whole number of clusters too.
pub proof fn lemma_capacity_invariant(state: DriverState)
    requires
        state.wf(),
    ensures
        state.capacity >= state.length(),
        state.capacity % (CLUSTER_SIZE as nat) == 0,
        state.length() % (CLUSTER_SIZE as nat) == 0,
{
}

/// Length and capacity never shrink, whatever happens.
pub proof fn lemma_counters_never_decrease(state: DriverState, granted: bool)
    requires
        state.wf(),
    ensures
        state.after_success().length() >= state.length(),
        state.after_success().capacity >= state.capacity,
        state.after_failure().length() == state.length(),
        state.after_failure().capacity == state.capacity,
        state.after_reservation(granted).length() == state.length(),
        state.after_reservation(granted).capacity >= state.capacity,
{
}

/// The number of granted reservations changes only when the allocator
/// grants one, which happens only at a cluster boundary; no other transition
/// touches it.
pub proof fn lemma_reservations_only_at_boundaries(state: DriverState, granted: bool)
    requires
        state.wf(),
    ensures
        state.after_success().reservations == state.reservations,
        state.after_failure().reservations == state.reservations,
        state.after_reservation(granted).reservations == state.reservations + 1 <==> state.phase
            is Reserving && granted && state.can_hold_next_cluster(),
        state.after_reservation(granted).reservations != state.reservations
            ==> state.after_reservation(granted).reservations == state.reservations + 1
            && state.length() % (CLUSTER_SIZE as nat) == 0,
{
}

/// A status line is counted only when the flush of a rendering was carried
/// out, and a rendering is under way only after a reservation was granted at a
/// boundary: each granted reservation is followed by exactly one status line.
pub proof fn lemma_renders_follow_reservations(state: DriverState, granted: bool)
    requires
        state.wf(),
    ensures
        state.after_failure().renders == state.renders,
        state.after_reservation(granted).renders == state.renders,
        state.after_success().renders == state.renders + 1 <==> state.phase == Phase::Rendering(
            3,
        ),
        state.after_success().renders != state.renders ==> state.after_success().renders
            == state.renders + 1,
        state.phase is Rendering ==> state.reservations == state.renders + 1,
        state.phase is Reserving ==> state.reservations == state.renders,
{
}

/// The status line that a rendering prints is the one for the length at
/// that moment, and the flush that follows records that length.
pub proof fn lemma_status_reports_current_length(state: DriverState)
    requires
        state.wf(),
        state.phase is Rendering,
    ensures
        state.script().unwrap()[2] == CommandView::Print(
            status_text(state.style, state.length()),
        ),
        state.phase == Phase::Rendering(2) ==> state.pending() == Some(
            CommandView::Print(status_text(state.style, state.length())),
        ),
        state.phase == Phase::Rendering(3) ==> state.after_success().last_status == Some(
            state.length(),
        ),
{
}

/// No command that a run hands out puts a line break on the wire: the
/// status line is repainted in place and the terminal never scrolls.
pub proof fn lemma_pending_single_line(state: DriverState)
    requires
        state.wf(),
        state.pending().is_some(),
    ensures
        single_line(command_sequence(state.pending().unwrap())),
{
    lemma_status_single_line(state.style, state.length());
    match state.phase {
        Phase::Initializing(done) => {
            lemma_script_single_line(Operation::Initialize, Seq::<char>::empty(), done as int);
        },
        Phase::Rendering(done) => {
            lemma_script_single_line(
                Operation::RenderStatus,
                status_text(state.style, state.length()),
                done as int,
            );
        },
        _ => {},
    }
}

/// Bytes are appended only when the flush of a rendering was carried out:
/// the status line of a cluster is on the terminal before the first byte of
/// that cluster is written. No other event touches the buffer.
pub proof fn lemma_bytes_follow_flush(state: DriverState, granted: bool)
    requires
        state.wf(),
    ensures
        state.after_failure().bytes == state.bytes,
        state.after_reservation(granted).bytes == state.bytes,
        state.phase != Phase::Rendering(3) ==> state.after_success().bytes == state.bytes,
        state.phase == Phase::Rendering(3) ==> state.pending() == Some(CommandView::Flush)
            && state.after_success().bytes == state.bytes + filler(CLUSTER_SIZE as nat),
{
}

/// A refusal at a boundary stops the run with the error that carries the
/// cluster size, and leaves the buffer and the counters alone.
pub proof fn lemma_refusal_stops(state: DriverState)
    requires
        state.wf(),
        state.phase is Reserving,
    ensures
        state.after_reservation(false) == (DriverState {
            phase: Phase::Terminated(FillError::ReservationRefused { bytes: CLUSTER_SIZE }),
            ..state
        }),
{
}

/// A run that a refused reservation has stopped: with `k` reservations
/// granted before the refusal, `k` clusters are written, `k` status lines were
/// flushed, and the last of them, if there was one, reported `k - 1` clusters.
pub proof fn lemma_refused_run(state: DriverState)
    requires
        state.wf(),
        state.phase is Terminated,
        state.phase->Terminated_0 is ReservationRefused,
    ensures
        state.phase == Phase::Terminated(FillError::ReservationRefused { bytes: CLUSTER_SIZE }),
        state.length() == state.reservations * CLUSTER_SIZE,
        state.renders == state.reservations,
        state.reservations == 0 ==> state.last_status.is_none(),
        state.reservations > 0 ==> state.last_status == Some(
            ((state.reservations - 1) * CLUSTER_SIZE) as nat,
        ),
{
    let length = state.length();
    let clusters = state.clusters();
    assert(length == clusters * CLUSTER_SIZE) by (nonlinear_arith)
        requires
            clusters == length / (CLUSTER_SIZE as nat),
            length % (CLUSTER_SIZE as nat) == 0,
            CLUSTER_SIZE == 1_048_576,
    ;
}

/// A failed command stops the run with the error that names the operation
/// and the step of that command, and appends nothing.
pub proof fn lemma_failure_stops(state: DriverState)
    requires
        state.wf(),
        state.pending().is_some(),
    ensures
        state.after_failure().bytes == state.bytes,
        state.phase is Initializing ==> state.after_failure().phase == Phase::Terminated(
            FillError::TerminalIoFailed {
                operation: Operation::Initialize,
                step: command_step(state.pending().unwrap()),
            },
        ),
        state.phase is Rendering ==> state.after_failure().phase == Phase::Terminated(
            FillError::TerminalIoFailed {
                operation: Operation::RenderStatus,
                step: command_step(state.pending().unwrap()),
            },
        ),
{
}

/// A stopped run stays as it is: no command is pending, and no event
/// changes the state or appends a byte.
pub proof fn lemma_terminated_is_final(state: DriverState, granted: bool)
    requires
        state.phase is Terminated,
    ensures
        state.pending().is_none(),
        state.after_success() == state,
        state.after_failure() == state,
        state.after_reservation(granted) == state,
{
}

} // verus!
