//! The growable byte buffer: written length, reserved capacity, exact and
//! fallible reservation.

use vstd::prelude::*;
use std::collections::TryReserveError;
use crate::error::FillError;

verus! {

/// The reservation granularity and the reporting cadence: one binary megabyte.
pub const CLUSTER_SIZE: usize = 1_048_576;

/// The byte that fills the buffer.
pub const NULL_BYTE: u8 = 0;

/// `Vec::try_reserve_exact` on a byte vector. Claimed of it: whether the
/// allocator grants or refuses, the bytes written so far stay as they are.
/// Nothing is claimed about which of the two answers comes back.
#[verifier::external_body]
fn try_reserve_exact_bytes(bytes: &mut Vec<u8>, additional: usize) -> (outcome: Result<
    (),
    TryReserveError,
>)
    ensures
        final(bytes)@ == old(bytes)@,
{
    bytes.try_reserve_exact(additional)
}

/// A contiguous run of written bytes with the capacity that exact
/// reservations have secured for it.
pub struct Buffer {
    bytes: Vec<u8>,
    reserved: usize,
}

impl View for Buffer {
    type V = Seq<u8>;

    /// The bytes written so far.
    closed spec fn view(&self) -> Seq<u8> {
        self.bytes@
    }
}

impl Buffer {
    /// The capacity secured by reservations, in bytes.
    pub closed spec fn spec_capacity(&self) -> nat {
        self.reserved as nat
    }

    /// The written bytes fit in the reserved capacity.
    pub closed spec fn wf(&self) -> bool {
        self.bytes@.len() <= self.reserved
    }

    /// The capacity after a reservation of `additional` bytes beyond `length`
    /// was granted: enough for them, and never less than before.
    pub open spec fn capacity_after_grant(capacity: nat, length: nat, additional: nat) -> nat {
        if capacity >= length + additional {
            capacity
        } else {
            length + additional
        }
    }

    /// An empty buffer with nothing reserved.
    pub fn new() -> (buffer: Self)
        ensures
            buffer.wf(),
            buffer@ == Seq::<u8>::empty(),
            buffer.spec_capacity() == 0,
    {
        Buffer { bytes: Vec::new(), reserved: 0 }
    }

    /// The number of bytes written.
    pub fn len(&self) -> (length: usize)
        ensures
            length == self@.len(),
    {
        self.bytes.len()
    }

    /// The number of bytes reserved.
    pub fn capacity(&self) -> (capacity: usize)
        ensures
            capacity == self.spec_capacity(),
    {
        self.reserved
    }

    /// The byte at `index`.
    pub fn byte_at(&self, index: usize) -> (byte: u8)
        requires
            index < self@.len(),
        ensures
            byte == self@[index as int],
    {
        self.bytes[index]
    }

    /// Asks the allocator for room for `additional` more bytes beyond the
    /// length, without accounting for the answer. A request whose total would
    /// not fit in `usize` is refused without asking.
    pub(crate) fn request_exact(&mut self, additional: usize) -> (granted: bool)
        ensures
            final(self)@ == old(self)@,
            final(self).spec_capacity() == old(self).spec_capacity(),
            final(self).wf() == old(self).wf(),
            old(self)@.len() + additional > usize::MAX ==> !granted,
    {
        if additional > usize::MAX - self.bytes.len() {
            false
        } else {
            let outcome = try_reserve_exact_bytes(&mut self.bytes, additional);
            outcome.is_ok()
        }
    }

    /// Accounts for the allocator's answer to a request for `additional` more
    /// bytes. Granted, the capacity covers the length and the request; refused
    /// (or not expressible in `usize`), nothing changes and the error carries
    /// the request.
    pub fn record_reservation(&mut self, additional: usize, granted: bool) -> (outcome: Result<
        (),
        FillError,
    >)
        requires
            old(self).wf(),
        ensures
            final(self).wf(),
            final(self)@ == old(self)@,
            outcome.is_ok() <==> granted && old(self)@.len() + additional <= usize::MAX,
            outcome.is_ok() ==> final(self).spec_capacity() == Self::capacity_after_grant(
                old(self).spec_capacity(),
                old(self)@.len(),
                additional as nat,
            ),
            outcome.is_err() ==> final(self).spec_capacity() == old(self).spec_capacity(),
            outcome.is_err() ==> outcome == Err::<(), FillError>(
                FillError::ReservationRefused { bytes: additional },
            ),
    {
        let length = self.bytes.len();
        if !granted || additional > usize::MAX - length {
            return Err(FillError::ReservationRefused { bytes: additional });
        }
        if self.reserved < length + additional {
            self.reserved = length + additional;
        }
        Ok(())
    }

    /// Reserves room for exactly `additional` more bytes beyond the length.
    /// The allocator decides; whatever it answers, the written bytes stay, a
    /// grant raises the capacity to cover the request and no further, and a
    /// refusal leaves the buffer as it was and reports the request.
    pub fn reserve_exact(&mut self, additional: usize) -> (outcome: Result<(), FillError>)
        requires
            old(self).wf(),
        ensures
            final(self).wf(),
            final(self)@ == old(self)@,
            old(self)@.len() + additional > usize::MAX ==> outcome.is_err(),
            outcome.is_ok() ==> final(self).spec_capacity() == Self::capacity_after_grant(
                old(self).spec_capacity(),
                old(self)@.len(),
                additional as nat,
            ),
            outcome.is_err() ==> final(self).spec_capacity() == old(self).spec_capacity(),
            outcome.is_err() ==> outcome == Err::<(), FillError>(
                FillError::ReservationRefused { bytes: additional },
            ),
    {
        let granted = self.request_exact(additional);
        self.record_reservation(additional, granted)
    }

    /// Writes `byte` at the end. The room for it must have been reserved.
    pub fn push(&mut self, byte: u8)
        requires
            old(self).wf(),
            old(self)@.len() < old(self).spec_capacity(),
        ensures
            final(self).wf(),
            final(self)@ == old(self)@.push(byte),
            final(self).spec_capacity() == old(self).spec_capacity(),
    {
        self.bytes.push(byte);
    }
}

} // verus!
