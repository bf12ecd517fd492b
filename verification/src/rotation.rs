//! A model of the rotating-file sink's persisted state: one log file per
//! day, bounded retention, the oldest file deleted on rotation.

use vstd::prelude::*;

verus! {

/// The name under which the file sink keeps one day's records: the
/// configured prefix, the day's date and the fixed `log` suffix,
/// separated by dots.
pub open spec fn spec_log_file_name(prefix: Seq<char>, date: Seq<char>) -> Seq<char> {
    prefix + "."@ + date + "."@ + "log"@
}

/// Builds the file name for one day's log file.
pub fn log_file_name(prefix: &str, date: &str) -> (r: String)
    ensures
        r@ == spec_log_file_name(prefix@, date@),
{
    let mut s = prefix.to_owned();
    s.append(".");
    s.append(date);
    s.append(".");
    s.append("log");
    s
}

/// The days — as abstract day numbers, strictly increasing — whose log
/// files remain on disk while daily rotation with bounded retention runs.
pub struct RotationLedger {
    days: Vec<u64>,
    cap: usize,
}

impl View for RotationLedger {
    type V = Seq<u64>;

    closed spec fn view(&self) -> Seq<u64> {
        self.days@
    }
}

impl RotationLedger {
    /// The retention bound: how many files may remain at once.
    pub closed spec fn spec_capacity(&self) -> usize {
        self.cap
    }

    /// At most the capacity many files remain, and the retained days are
    /// strictly increasing: each rotation happened on a later day.
    pub open spec fn wf(&self) -> bool {
        &&& self.spec_capacity() >= 1
        &&& self@.len() <= self.spec_capacity()
        &&& forall|i: int, j: int| 0 <= i < j < self@.len() ==> self@[i] < self@[j]
    }

    /// An empty ledger retaining at most `cap` files.
    pub fn new(cap: usize) -> (r: Self)
        requires
            cap >= 1,
        ensures
            r.wf(),
            r@ == Seq::<u64>::empty(),
            r.spec_capacity() == cap,
    {
        RotationLedger { days: Vec::new(), cap }
    }

    /// The retention bound.
    pub fn capacity(&self) -> (r: usize)
        ensures
            r == self.spec_capacity(),
    {
        self.cap
    }

    /// How many files remain.
    pub fn retained(&self) -> (r: usize)
        ensures
            r == self@.len(),
    {
        self.days.len()
    }

    /// The day of the oldest remaining file.
    pub fn oldest(&self) -> (r: Option<u64>)
        ensures
            r is None <==> self@.len() == 0,
            r matches Some(d) ==> self@.len() > 0 && d == self@[0],
    {
        if self.days.len() == 0 {
            None
        } else {
            Some(self.days[0])
        }
    }

    /// Whether `day`'s file remains.
    pub fn contains_day(&self, day: u64) -> (r: bool)
        ensures
            r == self@.contains(day),
    {
        let n = self.days.len();
        let mut i: usize = 0;
        while i < n
            invariant
                n == self@.len(),
                0 <= i <= n,
                forall|j: int| 0 <= j < i ==> self@[j] != day,
            decreases n - i,
        {
            if self.days[i] == day {
                return true;
            }
            i += 1;
        }
        proof {
            assert(!self@.contains(day));
        }
        false
    }

    /// One daily rotation on `day`: the new day's file appears, and once
    /// more files remain than the capacity allows, the oldest is deleted.
    pub fn rotate(&mut self, day: u64)
        requires
            old(self).wf(),
            forall|i: int| 0 <= i < old(self)@.len() ==> old(self)@[i] < day,
        ensures
            final(self).wf(),
            final(self).spec_capacity() == old(self).spec_capacity(),
            final(self)@ == if old(self)@.len() < old(self).spec_capacity() {
                old(self)@.push(day)
            } else {
                old(self)@.push(day).skip(1)
            },
    {
        self.days.push(day);
        if self.days.len() > self.cap {
            self.days.remove(0);
            proof {
                assert(self@ =~= old(self)@.push(day).skip(1));
            }
        }
    }
}

} // verus!
