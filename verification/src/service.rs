use vstd::prelude::*;

use crate::errors::CounterError;
use crate::record::Superteam101;

verus! {

/// Size in bytes of the fixed header that precedes a record's payload
/// in storage.
pub const HEADER_SPACE: u64 = 8;

/// Total storage reserved for one record: the fixed header followed by
/// the single one-byte counter field. The reservation is funded at one
/// unit per byte when the record is created, and returned in full when
/// it is closed.
pub const RECORD_SPACE: u64 = HEADER_SPACE + 1;

/// A signing identity with funds: it pays the storage reservation when
/// a record is created, and the reservation is returned to it when the
/// record is closed.
#[derive(Clone, Copy, Debug, PartialEq, Eq, Structural)]
pub struct Payer {
    /// Distinguishes one signing identity from another.
    pub id: u64,
    /// Funds available for reserving storage.
    pub balance: u64,
}

/// A live record: the counter payload together with the authority that
/// funded it, the only identity allowed to close it.
#[derive(Clone, Copy, Debug, PartialEq, Eq, Structural)]
pub struct Record {
    /// The persisted counter payload.
    pub data: Superteam101,
    /// The identity whose signature a close requires.
    pub authority: u64,
}

/// One storage location. It either holds a record or it does not: every
/// operation other than `initialize` requires that a record exist, and
/// a successful `close` leaves the location empty again.
#[derive(Clone, Copy, Debug)]
pub struct Slot {
    /// The record occupying this location, if any.
    pub record: Option<Record>,
}

/// What `Slot::initialize` does. On an empty location, with a payer
/// that can fund the reservation, a record appears with the counter at
/// zero and the payer as its authority, and the reservation is deducted
/// from the payer; otherwise nothing changes and the allocation is
/// refused.
pub open spec fn spec_initialize(s: Slot, p: Payer) -> (Slot, Payer, Result<(), CounterError>) {
    if s.record is Some {
        (s, p, Err(CounterError::AllocationError))
    } else if p.balance < RECORD_SPACE {
        (s, p, Err(CounterError::AllocationError))
    } else {
        (
            Slot { record: Some(Record { data: Superteam101 { count: 0 }, authority: p.id }) },
            Payer { id: p.id, balance: (p.balance - RECORD_SPACE) as u64 },
            Ok(()),
        )
    }
}

/// What `Slot::increment` does. Where no record exists the operation
/// fails and nothing changes; where the counter is at its maximum it
/// fails with `ArithmeticOverflow` and nothing changes; otherwise the
/// counter grows by one.
pub open spec fn spec_increment(s: Slot) -> (Slot, Result<(), CounterError>) {
    match s.record {
        None => (s, Err(CounterError::RecordNotFound)),
        Some(rec) => if rec.data.count < 255 {
            (
                Slot {
                    record: Some(Record {
                        data: Superteam101 { count: (rec.data.count + 1) as u8 },
                        authority: rec.authority,
                    }),
                },
                Ok(()),
            )
        } else {
            (s, Err(CounterError::ArithmeticOverflow))
        },
    }
}

/// What `Slot::decrement` does. Where no record exists the operation
/// fails and nothing changes; where the counter is at zero it fails
/// with `ArithmeticUnderflow` and nothing changes; otherwise the
/// counter shrinks by one.
pub open spec fn spec_decrement(s: Slot) -> (Slot, Result<(), CounterError>) {
    match s.record {
        None => (s, Err(CounterError::RecordNotFound)),
        Some(rec) => if rec.data.count > 0 {
            (
                Slot {
                    record: Some(Record {
                        data: Superteam101 { count: (rec.data.count - 1) as u8 },
                        authority: rec.authority,
                    }),
                },
                Ok(()),
            )
        } else {
            (s, Err(CounterError::ArithmeticUnderflow))
        },
    }
}

/// What `Slot::set` does. Where a record exists its counter becomes
/// `value`, whatever it held before; where none exists the operation
/// fails and nothing changes.
pub open spec fn spec_set(s: Slot, value: u8) -> (Slot, Result<(), CounterError>) {
    match s.record {
        None => (s, Err(CounterError::RecordNotFound)),
        Some(rec) => (
            Slot {
                record: Some(Record { data: Superteam101 { count: value }, authority: rec.authority }),
            },
            Ok(()),
        ),
    }
}

/// What `Slot::close` does. Where no record exists the operation fails;
/// where the payer is not the record's authority it fails with
/// `AuthorizationError` and nothing changes; otherwise the record is
/// deallocated and the storage reservation returns to the payer.
pub open spec fn spec_close(s: Slot, p: Payer) -> (Slot, Payer, Result<(), CounterError>) {
    match s.record {
        None => (s, p, Err(CounterError::RecordNotFound)),
        Some(rec) => if rec.authority != p.id {
            (s, p, Err(CounterError::AuthorizationError))
        } else {
            (
                Slot { record: None },
                Payer { id: p.id, balance: (p.balance + RECORD_SPACE) as u64 },
                Ok(()),
            )
        },
    }
}

impl Slot {
    /// Fresh storage: no record occupies the location yet.
    pub fn new() -> (r: Slot)
        ensures
            r.record is None,
    {
        Slot { record: None }
    }

    /// Whether a record currently occupies this location.
    pub fn has_record(&self) -> (r: bool)
        ensures
            r == (self.record is Some),
    {
        self.record.is_some()
    }

    /// The counter's current value, where a record exists.
    pub fn count(&self) -> (r: Option<u8>)
        ensures
            self.record matches Some(rec) ==> r == Some(rec.data.count),
            self.record is None ==> r is None,
    {
        match &self.record {
            Some(rec) => Some(rec.data.count),
            None => None,
        }
    }

    /// Creates the record: reserves storage at this location, funded by
    /// `payer`, whose identity becomes the record's authority, and
    /// leaves the counter at the zero-initialized value of the fresh
    /// storage. Fails with `AllocationError`, changing nothing, where a
    /// record already occupies the location or the payer cannot fund
    /// the reservation.
    pub fn initialize(&mut self, payer: &mut Payer) -> (r: Result<(), CounterError>)
        ensures
            (*final(self), *final(payer), r) == spec_initialize(*old(self), *old(payer)),
            r is Ok <==> old(self).record is None && old(payer).balance >= RECORD_SPACE,
            r is Ok ==> (final(self).record matches Some(rec) && rec.data.count == 0
                && rec.authority == old(payer).id),
    {
        if self.record.is_some() {
            Err(CounterError::AllocationError)
        } else if payer.balance < RECORD_SPACE {
            Err(CounterError::AllocationError)
        } else {
            payer.balance = payer.balance - RECORD_SPACE;
            self.record = Some(Record { data: Superteam101::new(), authority: payer.id });
            Ok(())
        }
    }

    /// Adds one to the record's counter, in place. Fails with
    /// `RecordNotFound` where no record exists, and with
    /// `ArithmeticOverflow` where the counter is already at its
    /// maximum; a failed call changes nothing.
    pub fn increment(&mut self) -> (r: Result<(), CounterError>)
        ensures
            (*final(self), r) == spec_increment(*old(self)),
            r is Ok <==> (old(self).record matches Some(rec) && rec.data.count < 255),
    {
        match self.record {
            None => Err(CounterError::RecordNotFound),
            Some(mut rec) => {
                let outcome = rec.data.increment();
                self.record = Some(rec);
                outcome
            },
        }
    }

    /// Subtracts one from the record's counter, in place. Fails with
    /// `RecordNotFound` where no record exists, and with
    /// `ArithmeticUnderflow` where the counter is already at zero; a
    /// failed call changes nothing.
    pub fn decrement(&mut self) -> (r: Result<(), CounterError>)
        ensures
            (*final(self), r) == spec_decrement(*old(self)),
            r is Ok <==> (old(self).record matches Some(rec) && rec.data.count > 0),
    {
        match self.record {
            None => Err(CounterError::RecordNotFound),
            Some(mut rec) => {
                let outcome = rec.data.decrement();
                self.record = Some(rec);
                outcome
            },
        }
    }

    /// Overwrites the record's counter with `value`, whatever it held
    /// before. Fails only with `RecordNotFound`, where no record
    /// exists; a failed call changes nothing.
    pub fn set(&mut self, value: u8) -> (r: Result<(), CounterError>)
        ensures
            (*final(self), r) == spec_set(*old(self), value),
            r is Ok <==> old(self).record is Some,
            r is Ok ==> (final(self).record matches Some(rec) && rec.data.count == value),
    {
        match self.record {
            None => Err(CounterError::RecordNotFound),
            Some(mut rec) => {
                rec.data.set(value);
                self.record = Some(rec);
                Ok(())
            },
        }
    }

    /// Deallocates the record and returns its storage reservation to
    /// `payer`. Fails with `RecordNotFound` where no record exists, and
    /// with `AuthorizationError` where `payer` is not the record's
    /// authority; a failed call changes nothing.
    pub fn close(&mut self, payer: &mut Payer) -> (r: Result<(), CounterError>)
        requires
            (old(self).record matches Some(rec) && rec.authority == old(payer).id)
                ==> old(payer).balance + RECORD_SPACE <= u64::MAX,
        ensures
            (*final(self), *final(payer), r) == spec_close(*old(self), *old(payer)),
            r is Ok <==> (old(self).record matches Some(rec) && rec.authority == old(payer).id),
            r is Ok ==> final(self).record is None,
    {
        match self.record {
            None => Err(CounterError::RecordNotFound),
            Some(rec) => {
                if rec.authority != payer.id {
                    Err(CounterError::AuthorizationError)
                } else {
                    self.record = None;
                    payer.balance = payer.balance + RECORD_SPACE;
                    Ok(())
                }
            },
        }
    }
}

/// Once a close succeeds, the record no longer exists: the location is
/// empty, and every further operation on the same location fails with
/// `RecordNotFound` while changing nothing — increment, decrement, set
/// with any value, and a further close by any payer.
pub proof fn lemma_close_invalidates(s: Slot, p: Payer, q: Payer, value: u8)
    requires
        spec_close(s, p).2 is Ok,
    ensures
        ({
            let closed = spec_close(s, p).0;
            &&& closed.record is None
            &&& spec_increment(closed) == (closed, Err::<(), CounterError>(CounterError::RecordNotFound))
            &&& spec_decrement(closed) == (closed, Err::<(), CounterError>(CounterError::RecordNotFound))
            &&& spec_set(closed, value) == (closed, Err::<(), CounterError>(CounterError::RecordNotFound))
            &&& spec_close(closed, q) == (closed, q, Err::<(), CounterError>(CounterError::RecordNotFound))
        }),
{
}

} // verus!
