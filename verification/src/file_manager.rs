//! The ordered log of completed scan results.
//!
//! This is the persistence collaborator as the core sees it: an
//! append-only sequence of records, handed over one completed scan at a
//! time and read back whole, in append order.  The storage medium (a flat
//! file, an embedded database) is the collaborator's own business and
//! lives outside the library; whatever mirrors this log to disk must keep
//! exactly the order and the fields modelled here.

use vstd::prelude::*;

use crate::game_scanner::ScanResult;

verus! {

/// An append-only log of scan results, oldest first.
pub struct FileManager {
    records: Vec<ScanResult>,
}

impl FileManager {
    /// The records appended so far, in append order.
    pub closed spec fn log(self) -> Seq<ScanResult> {
        self.records@
    }

    /// An empty log.
    pub fn new() -> (fm: FileManager)
        ensures
            fm.log() == Seq::<ScanResult>::empty(),
    {
        FileManager { records: Vec::new() }
    }

    /// Append one completed result to the end of the log.
    pub fn append(&mut self, item: &ScanResult)
        ensures
            final(self).log() == old(self).log().push(*item),
    {
        self.records.push(*item);
    }

    /// Every record appended so far, in append order, each field as it was
    /// appended.
    pub fn load_all(&self) -> (r: Vec<ScanResult>)
        ensures
            r@ == self.log(),
    {
        let mut r: Vec<ScanResult> = Vec::new();
        let mut i: usize = 0;
        while i < self.records.len()
            invariant
                i <= self.records@.len(),
                r@ == self.records@.subrange(0, i as int),
            decreases self.records@.len() - i,
        {
            r.push(self.records[i]);
            proof {
                assert(r@ =~= self.records@.subrange(0, i + 1));
            }
            i = i + 1;
        }
        proof {
            assert(r@ =~= self.records@);
        }
        r
    }
}

/// The log after appending `items` one by one onto `log`.
pub open spec fn append_all(log: Seq<ScanResult>, items: Seq<ScanResult>) -> Seq<ScanResult>
    decreases items.len(),
{
    if items.len() == 0 {
        log
    } else {
        append_all(log.push(items[0]), items.drop_first())
    }
}

/// The persistence round trip: appending N records one by one and then
/// reading the log back yields exactly those N records after what was
/// already there, in append order.  With [`FileManager::append`]'s
/// contract, N calls starting from a log `L` leave `append_all(L, items)`,
/// and [`FileManager::load_all`] returns the log itself.
pub proof fn lemma_persistence_round_trip(log: Seq<ScanResult>, items: Seq<ScanResult>)
    ensures
        append_all(log, items) == log + items,
    decreases items.len(),
{
    if items.len() == 0 {
        assert(append_all(log, items) =~= log + items);
    } else {
        lemma_persistence_round_trip(log.push(items[0]), items.drop_first());
        assert(log.push(items[0]) + items.drop_first() =~= log + items);
    }
}

} // verus!
