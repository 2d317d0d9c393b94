//! The record store: the records of one program, each at its address.

use vstd::prelude::*;
use crate::application::Application;
use crate::errors::JobError;
use crate::identity::Identity;
use crate::job::Job;
use crate::model::LedgerView;
use crate::payment::Payment;
use crate::records::follows;
use crate::records::Record;
use crate::records::RecordView;

verus! {

struct Entry {
    address: Identity,
    record: Record,
}

/// The records of one program. No two records share an address, and every
/// record is well formed.
pub struct Ledger {
    program_id: Identity,
    entries: Vec<Entry>,
}

spec fn holds(entries: Seq<Entry>, address: Seq<u8>) -> bool {
    exists|i: int| 0 <= i < entries.len() && (#[trigger] entries[i]).address@ == address
}

spec fn slot(entries: Seq<Entry>, address: Seq<u8>) -> int {
    choose|i: int| 0 <= i < entries.len() && (#[trigger] entries[i]).address@ == address
}

spec fn distinct(entries: Seq<Entry>) -> bool {
    forall|i: int, j: int|
        0 <= i < entries.len() && 0 <= j < entries.len() && (#[trigger] entries[i]).address@ == (
        #[trigger] entries[j]).address@ ==> i == j
}

spec fn records_of(entries: Seq<Entry>) -> Map<Seq<u8>, RecordView> {
    Map::new(|address: Seq<u8>| holds(entries, address), |address: Seq<u8>| entries[slot(entries, address)].record@)
}

impl View for Ledger {
    type V = LedgerView;

    closed spec fn view(&self) -> LedgerView {
        LedgerView { program_id: self.program_id@, records: records_of(self.entries@) }
    }
}

impl Ledger {
    #[verifier::type_invariant]
    spec fn valid(self) -> bool {
        distinct(self.entries@) && self@.records_well_formed()
    }

    /// The ledger of a program that holds no record yet.
    pub fn new(program_id: Identity) -> (ledger: Ledger)
        ensures
            ledger@ == LedgerView::empty(program_id@),
    {
        let entries: Vec<Entry> = Vec::new();
        assert(records_of(entries@) =~= Map::empty());
        Ledger { program_id, entries }
    }

    /// The program that owns the records.
    pub fn program_id(&self) -> (id: Identity)
        ensures
            id@ == self@.program_id,
    {
        self.program_id
    }

    fn position(&self, address: &Identity) -> (found: Option<usize>)
        ensures
            match found {
                Some(i) => i < self.entries@.len() && self.entries@[i as int].address@ == address@
                    && self@.records.contains_key(address@) && self@.records[address@]
                    == self.entries@[i as int].record@,
                None => !self@.records.contains_key(address@),
            },
            self@.records_well_formed(),
    {
        proof {
            use_type_invariant(self);
        }
        let mut i: usize = 0;
        while i < self.entries.len()
            invariant
                0 <= i <= self.entries@.len(),
                distinct(self.entries@),
                self@.records_well_formed(),
                forall|j: int| 0 <= j < i ==> (#[trigger] self.entries@[j]).address@ != address@,
            decreases self.entries@.len() - i,
        {
            if self.entries[i].address.same_as(address) {
                proof {
                    assert(holds(self.entries@, address@));
                    let k = slot(self.entries@, address@);
                    assert(self.entries@[k].address@ == self.entries@[i as int].address@);
                }
                return Some(i);
            }
            i += 1;
        }
        None
    }

    /// Whether a record lives at `address`.
    pub fn in_use(&self, address: &Identity) -> (used: bool)
        ensures
            used == self@.in_use(address@),
            self@.records_well_formed(),
    {
        self.position(address).is_some()
    }

    /// The record at `address`, if one lives there.
    pub fn record(&self, address: &Identity) -> (found: Option<&Record>)
        ensures
            match found {
                Some(record) => self@.in_use(address@) && self@.records[address@] == record@,
                None => !self@.in_use(address@),
            },
            self@.records_well_formed(),
    {
        match self.position(address) {
            Some(i) => Some(&self.entries[i].record),
            None => None,
        }
    }

    /// The job at `address`, if a job lives there.
    pub fn job(&self, address: &Identity) -> (found: Option<&Job>)
        ensures
            match found {
                Some(job) => self@.job_at(address@) == Some(job@),
                None => self@.job_at(address@) is None,
            },
            self@.records_well_formed(),
    {
        match self.record(address) {
            Some(Record::Job(job)) => Some(job),
            _ => None,
        }
    }

    /// The application at `address`, if an application lives there.
    pub fn application(&self, address: &Identity) -> (found: Option<&Application>)
        ensures
            match found {
                Some(application) => self@.application_at(address@) == Some(application@),
                None => self@.application_at(address@) is None,
            },
            self@.records_well_formed(),
    {
        match self.record(address) {
            Some(Record::Application(application)) => Some(application),
            _ => None,
        }
    }

    /// The payment at `address`, if a payment lives there.
    pub fn payment(&self, address: &Identity) -> (found: Option<&Payment>)
        ensures
            match found {
                Some(payment) => self@.payment_at(address@) == Some(payment@),
                None => self@.payment_at(address@) is None,
            },
            self@.records_well_formed(),
    {
        match self.record(address) {
            Some(Record::Payment(payment)) => Some(payment),
            _ => None,
        }
    }

    /// Stores a new record at `address`. Refused with `AddressAlreadyInUse`
    /// exactly when a record lives there already.
    pub(crate) fn insert_if_absent(&mut self, address: Identity, record: Record) -> (result: Result<(), JobError>)
        requires
            record@.well_formed(),
        ensures
            follows(
                result,
                old(self)@,
                final(self)@,
                old(self)@.insert_if_absent(address@, record@),
            ),
    {
        if self.position(&address).is_some() {
            return Err(JobError::AddressAlreadyInUse);
        }
        proof {
            use_type_invariant(&*self);
        }
        let ghost before = self.entries@;
        let ghost wanted = self@.with_record(address@, record@);
        let mut entries: Vec<Entry> = Vec::new();
        assert(records_of(entries@) =~= Map::empty());
        std::mem::swap(&mut entries, &mut self.entries);
        entries.push(Entry { address, record });
        proof {
            let after = entries@;
            let last = after.len() - 1;
            assert(after[last].address@ == address@);
            assert(holds(after, address@));
            assert forall|a: Seq<u8>| holds(after, a) <==> (a == address@ || holds(before, a)) by {
                if holds(before, a) {
                    let i = slot(before, a);
                    assert(after[i] == before[i]);
                }
                if holds(after, a) && a != address@ {
                    let i = slot(after, a);
                    assert(before[i] == after[i]);
                }
            }
            assert forall|a: Seq<u8>| holds(after, a) implies records_of(after)[a] == wanted.records[a] by {
                let i = slot(after, a);
                if a == address@ {
                    assert(i == last);
                } else {
                    let k = slot(before, a);
                    assert(after[k] == before[k]);
                    assert(i == k);
                }
            }
            assert(records_of(after) =~= wanted.records);
        }
        self.entries = entries;
        Ok(())
    }

    /// Puts `record` in place of the record at `address`.
    pub(crate) fn replace(&mut self, address: &Identity, record: Record)
        requires
            old(self)@.in_use(address@),
            record@.well_formed(),
        ensures
            final(self)@ == old(self)@.with_record(address@, record@),
    {
        proof {
            use_type_invariant(&*self);
        }
        let found = self.position(address);
        let i = found.unwrap();
        let ghost before = self.entries@;
        let ghost wanted = self@.with_record(address@, record@);
        let kept = self.entries[i].address;
        let mut entries: Vec<Entry> = Vec::new();
        assert(records_of(entries@) =~= Map::empty());
        std::mem::swap(&mut entries, &mut self.entries);
        entries.set(i, Entry { address: kept, record });
        proof {
            let after = entries@;
            assert forall|k: int| 0 <= k < after.len() implies (#[trigger] after[k]).address@
                == before[k].address@ by {}
            assert forall|a: Seq<u8>| holds(after, a) <==> holds(before, a) by {
                if holds(before, a) {
                    let k = slot(before, a);
                    assert(after[k].address@ == a);
                }
                if holds(after, a) {
                    let k = slot(after, a);
                    assert(before[k].address@ == a);
                }
            }
            assert(holds(before, address@));
            assert forall|a: Seq<u8>| holds(after, a) implies records_of(after)[a] == wanted.records[a] by {
                let k = slot(after, a);
                let b = slot(before, a);
                assert(before[k].address@ == a);
                assert(k == b);
                if a == address@ {
                    assert(k == i);
                } else {
                    assert(k != i);
                }
            }
            assert(records_of(after) =~= wanted.records);
        }
        self.entries = entries;
    }
}

} // verus!
