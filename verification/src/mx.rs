//! The mail servers of a domain.

use vstd::prelude::*;

verus! {

/// One MX record: a mail server and how much the domain prefers it.
#[derive(Debug, Clone, PartialEq, Eq)]
pub struct MxRecord {
    /// The preference; the lowest number is tried first.
    pub preference: u16,
    /// The host name of the mail server.
    pub exchange: String,
}

/// Details about the MX lookup.
#[derive(Debug, PartialEq, Eq)]
pub struct MxDetails {
    /// The records in the order in which the resolver gave them, or the
    /// resolver's text for why it gave none.
    pub lookup: Result<Vec<MxRecord>, String>,
}

/// Position `best` holds the lowest preference of `records`, and no earlier
/// position holds the same.
pub open spec fn is_preferred(records: Seq<MxRecord>, best: int) -> bool {
    &&& 0 <= best < records.len()
    &&& forall|j: int| 0 <= j < records.len() ==> records[best].preference <= records[j].preference
    &&& forall|j: int| 0 <= j < best ==> records[best].preference < records[j].preference
}

impl MxDetails {
    /// The lookup named no mail server: it failed, or it came back empty.
    pub open spec fn has_no_records(&self) -> bool {
        match self.lookup {
            Ok(records) => records@.len() == 0,
            Err(_) => true,
        }
    }

    /// The records found; none where the lookup failed.
    pub open spec fn records(&self) -> Seq<MxRecord> {
        match self.lookup {
            Ok(records) => records@,
            Err(_) => Seq::empty(),
        }
    }

    /// A successful lookup without records.
    pub open spec fn is_default(&self) -> bool {
        self.lookup matches Ok(records) && records@.len() == 0
    }

    /// Whether the lookup named no mail server.
    pub fn is_empty(&self) -> (r: bool)
        ensures
            r == self.has_no_records(),
    {
        match &self.lookup {
            Ok(records) => records.len() == 0,
            Err(_) => true,
        }
    }

    /// The record to probe: the one with the lowest preference, and of several
    /// with the same preference the one that the resolver gave first. `None`
    /// exactly where the lookup named no mail server.
    pub fn preferred(&self) -> (r: Option<&MxRecord>)
        ensures
            self.has_no_records() <==> r is None,
            r matches Some(record) ==> exists|best: int|
                is_preferred(self.records(), best) && *record == #[trigger] self.records()[best],
    {
        match &self.lookup {
            Err(_) => None,
            Ok(records) => {
                if records.len() == 0 {
                    return None;
                }
                let mut best: usize = 0;
                let mut i: usize = 1;
                while i < records.len()
                    invariant
                        1 <= i <= records.len(),
                        0 <= best < i,
                        forall|j: int| 0 <= j < i ==> records@[best as int].preference <= records@[j].preference,
                        forall|j: int| 0 <= j < best ==> records@[best as int].preference < records@[j].preference,
                    decreases records.len() - i,
                {
                    if records[i].preference < records[best].preference {
                        best = i;
                    }
                    i += 1;
                }
                assert(is_preferred(self.records(), best as int));
                Some(&records[best])
            },
        }
    }
}

/// Two positions that both hold the lowest preference first are one position.
pub proof fn lemma_preferred_unique(records: Seq<MxRecord>, a: int, b: int)
    requires
        is_preferred(records, a),
        is_preferred(records, b),
    ensures
        a == b,
{
    assert(records[a].preference <= records[b].preference);
    assert(records[b].preference <= records[a].preference);
}

impl Default for MxDetails {
    fn default() -> (r: MxDetails)
        ensures
            r.is_default(),
    {
        MxDetails { lookup: Ok(Vec::new()) }
    }
}

} // verus!
