use vstd::prelude::*;

verus! {

/// A MariaDB global transaction identifier.
#[derive(Clone, Copy, Debug, PartialEq, Eq, Structural)]
pub struct Gtid {
    /// Replication domain of the transaction.
    pub domain_id: u32,
    /// Server that logged the transaction first.
    pub server_id: u32,
    /// Sequence number of the transaction within its domain.
    pub sequence: u64,
}

/// The position of the first identifier of `domain` at or after `from`, or
/// the length of `list` when there is none.
pub open spec fn domain_position(list: Seq<Gtid>, domain: u32, from: int) -> int
    decreases list.len() - from,
{
    if from >= list.len() || list[from].domain_id == domain {
        from
    } else {
        domain_position(list, domain, from + 1)
    }
}

/// `list` after `gtid` was merged into it: the identifier takes the place of
/// the first one of its domain, or goes to the end when its domain is new.
pub open spec fn merged(list: Seq<Gtid>, gtid: Gtid) -> Seq<Gtid> {
    let at = domain_position(list, gtid.domain_id, 0);
    if at < list.len() {
        list.update(at, gtid)
    } else {
        list.push(gtid)
    }
}

/// `domain_position` stays inside the list and stops on the first
/// identifier of the domain.
pub proof fn lemma_domain_position(list: Seq<Gtid>, domain: u32, from: int)
    requires
        0 <= from <= list.len(),
    ensures
        from <= domain_position(list, domain, from) <= list.len(),
        forall|j: int|
            from <= j < domain_position(list, domain, from) ==> list[j].domain_id != domain,
        domain_position(list, domain, from) < list.len() ==> list[domain_position(
            list,
            domain,
            from,
        )].domain_id == domain,
    decreases list.len() - from,
{
    if from >= list.len() || list[from].domain_id == domain {
    } else {
        lemma_domain_position(list, domain, from + 1);
    }
}

/// The replication position of a MariaDB server: the last transaction seen
/// in each replication domain.
#[derive(Clone, Debug)]
pub struct GtidList {
    pub gtids: Vec<Gtid>,
}

impl View for GtidList {
    type V = Seq<Gtid>;

    open spec fn view(&self) -> Seq<Gtid> {
        self.gtids@
    }
}

impl GtidList {
    /// The empty list.
    pub fn new() -> (list: GtidList)
        ensures
            list@ == Seq::<Gtid>::empty(),
    {
        GtidList { gtids: Vec::new() }
    }

    /// Merges `gtid` into the list. Returns whether its domain was new.
    pub fn add_gtid(&mut self, gtid: Gtid) -> (added: bool)
        ensures
            final(self)@ == merged(old(self)@, gtid),
            added == (domain_position(old(self)@, gtid.domain_id, 0) == old(self)@.len()),
    {
        let mut i: usize = 0;
        while i < self.gtids.len()
            invariant
                0 <= i <= self.gtids@.len(),
                self.gtids@ == old(self).gtids@,
                domain_position(self.gtids@, gtid.domain_id, 0) == domain_position(
                    self.gtids@,
                    gtid.domain_id,
                    i as int,
                ),
            decreases self.gtids@.len() - i,
        {
            if self.gtids[i].domain_id == gtid.domain_id {
                self.gtids.set(i, gtid);
                return false;
            }
            i += 1;
        }
        self.gtids.push(gtid);
        true
    }
}

} // verus!
