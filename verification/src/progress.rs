//! The fill loop counted in iterations, with an allocator and a terminal
//! that never refuse.

use vstd::prelude::*;
use crate::buffer::{Buffer, CLUSTER_SIZE};
use crate::driver::DriverState;

verus! {

/// The counters of a run.
pub struct Progress {
    /// Bytes written.
    pub length: nat,
    /// Bytes reserved.
    pub capacity: nat,
    /// Reservations made.
    pub reservations: nat,
    /// Status lines rendered.
    pub renders: nat,
}

/// Whether an iteration that finds `length` bytes written reserves and
/// renders before it appends.
pub open spec fn at_boundary(length: nat) -> bool {
    length % (CLUSTER_SIZE as nat) == 0
}

/// One iteration: at a cluster boundary reserve one cluster and render the
/// status line; in any case append one byte.
pub open spec fn iterate(p: Progress) -> Progress {
    if at_boundary(p.length) {
        Progress {
            length: p.length + 1,
            capacity: Buffer::capacity_after_grant(p.capacity, p.length, CLUSTER_SIZE as nat),
            reservations: p.reservations + 1,
            renders: p.renders + 1,
        }
    } else {
        Progress { length: p.length + 1, ..p }
    }
}

/// The counters after the given number of iterations, from an empty buffer.
pub open spec fn progress_after(iterations: nat) -> Progress
    decreases iterations,
{
    if iterations == 0 {
        Progress { length: 0, capacity: 0, reservations: 0, renders: 0 }
    } else {
        iterate(progress_after((iterations - 1) as nat))
    }
}

/// The number of clusters that `iterations` iterations have begun.
pub open spec fn clusters_begun(iterations: nat) -> nat {
    (iterations + CLUSTER_SIZE - 1) as nat / (CLUSTER_SIZE as nat)
}

/// The counters after any number of iterations, in closed form.
pub proof fn lemma_progress_closed_form(iterations: nat)
    ensures
        progress_after(iterations) == (Progress {
            length: iterations,
            capacity: (clusters_begun(iterations) * CLUSTER_SIZE) as nat,
            reservations: clusters_begun(iterations),
            renders: clusters_begun(iterations),
        }),
    decreases iterations,
{
    if iterations > 0 {
        lemma_progress_closed_form((iterations - 1) as nat);
    }
}

/// Each iteration appends exactly one byte: after `iterations` iterations
/// the length is `iterations`.
pub proof fn lemma_length_counts_iterations(iterations: nat)
    ensures
        progress_after(iterations).length == iterations,
{
    lemma_progress_closed_form(iterations);
}

/// After every iteration the capacity covers the length and is a whole
/// number of clusters.
pub proof fn lemma_capacity_covers_length(iterations: nat)
    ensures
        progress_after(iterations).capacity >= progress_after(iterations).length,
        progress_after(iterations).capacity % (CLUSTER_SIZE as nat) == 0,
{
    lemma_progress_closed_form(iterations);
    let clusters = clusters_begun(iterations);
    assert(clusters * CLUSTER_SIZE >= iterations && (clusters * CLUSTER_SIZE) % (
    CLUSTER_SIZE as int) == 0) by (nonlinear_arith)
        requires
            clusters == (iterations + CLUSTER_SIZE - 1) / (CLUSTER_SIZE as int),
            CLUSTER_SIZE == 1_048_576,
    ;
}

/// An iteration reserves exactly when it finds the length at a cluster
/// boundary: iterations 0, one cluster, two clusters, and so on.
pub proof fn lemma_reservation_cadence(iteration: nat)
    ensures
        at_boundary(iteration) ==> progress_after(iteration + 1).reservations == progress_after(
            iteration,
        ).reservations + 1,
        !at_boundary(iteration) ==> progress_after(iteration + 1).reservations
            == progress_after(iteration).reservations,
{
    lemma_progress_closed_form(iteration);
}

/// An iteration renders the status line exactly when it reserves, and never
/// otherwise.
pub proof fn lemma_render_cadence(iteration: nat)
    ensures
        progress_after(iteration).renders == progress_after(iteration).reservations,
        at_boundary(iteration) ==> progress_after(iteration + 1).renders == progress_after(
            iteration,
        ).renders + 1,
        !at_boundary(iteration) ==> progress_after(iteration + 1).renders == progress_after(
            iteration,
        ).renders,
{
    lemma_progress_closed_form(iteration);
}

/// The counters of a driver.
pub open spec fn progress_of(state: DriverState) -> Progress {
    Progress {
        length: state.length(),
        capacity: state.capacity,
        reservations: state.reservations,
        renders: state.renders,
    }
}

/// A driver that stands at a boundary has the counters of as many whole
/// iterations as it has written bytes.
pub proof fn lemma_driver_follows_iterations(state: DriverState)
    requires
        state.wf(),
        state.phase is Reserving,
    ensures
        progress_of(state) == progress_after(state.length()),
{
    lemma_progress_closed_form(state.length());
}

/// A driver that is rendering is in the middle of the iteration that found
/// the boundary: once that iteration's byte is appended, the counters are
/// those of one more iteration.
pub proof fn lemma_driver_mid_iteration(state: DriverState)
    requires
        state.wf(),
        state.phase is Rendering,
    ensures
        progress_after(state.length() + 1) == (Progress {
            length: state.length() + 1,
            renders: state.renders + 1,
            ..progress_of(state)
        }),
{
    lemma_progress_closed_form(state.length() + 1);
}

} // verus!
