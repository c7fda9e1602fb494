use vstd::prelude::*;
use crate::errors::Error;

verus! {

/// Identifier of the server that a MySQL transaction comes from.
#[derive(Clone, Copy, Debug, PartialEq, Eq, Structural)]
pub struct Uuid {
    /// High eight bytes of the identifier.
    pub high: u64,
    /// Low eight bytes of the identifier.
    pub low: u64,
}

/// A MySQL global transaction identifier.
#[derive(Clone, Copy, Debug, PartialEq, Eq, Structural)]
pub struct Gtid {
    /// Server that the transaction comes from.
    pub source_id: Uuid,
    /// Number of the transaction on that server.
    pub transaction_id: u64,
}

/// A run of transaction numbers, both ends included.
#[derive(Clone, Copy, Debug, PartialEq, Eq, Structural)]
pub struct Interval {
    /// First transaction of the run.
    pub start: u64,
    /// Last transaction of the run.
    pub end: u64,
}

/// Whether one of `intervals` holds the transaction number `t`.
pub open spec fn covers(intervals: Seq<Interval>, t: u64) -> bool {
    exists|i: int| 0 <= i < intervals.len() && (#[trigger] intervals[i]).start <= t <= intervals[i].end
}

/// Whether `intervals` are in ascending order with a gap between any two
/// neighbours, so that no two of them could be joined.
pub open spec fn separated(intervals: Seq<Interval>) -> bool {
    &&& forall|i: int| 0 <= i < intervals.len() ==> (#[trigger] intervals[i]).start <= intervals[i].end
    &&& forall|i: int, j: int|
        0 <= i < j < intervals.len() ==> (#[trigger] intervals[i]).end + 1 < (#[trigger] intervals[j]).start
}

/// The transactions of one server, as runs of transaction numbers.
#[derive(Clone, Debug)]
pub struct UuidSet {
    /// Server that the transactions come from.
    pub source_id: Uuid,
    /// The runs, in ascending order.
    pub intervals: Vec<Interval>,
}

impl View for UuidSet {
    type V = Set<u64>;

    /// The transaction numbers in the set.
    open spec fn view(&self) -> Set<u64> {
        Set::new(|t: u64| covers(self.intervals@, t))
    }
}

impl UuidSet {
    /// Whether the runs are in order and as few as can be.
    pub open spec fn wf(&self) -> bool {
        separated(self.intervals@)
    }

    /// The empty set of transactions of `source_id`.
    pub fn new(source_id: Uuid) -> (set: UuidSet)
        ensures
            set.wf(),
            set.source_id == source_id,
            set@ == Set::<u64>::empty(),
    {
        let set = UuidSet { source_id, intervals: Vec::new() };
        assert(set@ =~= Set::<u64>::empty());
        set
    }

    /// Whether the runs are in order and as few as can be: the test that a
    /// caller makes before it hands over a set that it built by hand.
    pub fn is_well_formed(&self) -> (ok: bool)
        ensures
            ok == self.wf(),
    {
        let len = self.intervals.len();
        let mut i: usize = 0;
        while i < len
            invariant
                0 <= i <= len,
                len == self.intervals@.len(),
                separated(self.intervals@.subrange(0, i as int)),
            decreases len - i,
        {
            let cur = self.intervals[i];
            if cur.start > cur.end {
                return false;
            }
            if i > 0 {
                let last = self.intervals[i - 1];
                if !(last.end < cur.start && cur.start - last.end > 1) {
                    assert(!(self.intervals@[i - 1].end + 1 < self.intervals@[i as int].start));
                    return false;
                }
            }
            proof {
                let head = self.intervals@.subrange(0, i as int);
                let grown = self.intervals@.subrange(0, i + 1);
                assert forall|a: int, b: int| 0 <= a < b < grown.len() implies (
                #[trigger] grown[a]).end + 1 < (#[trigger] grown[b]).start by {
                    if b < i {
                        assert(head[a].end + 1 < head[b].start);
                    } else if a < i - 1 {
                        assert(head[a].end + 1 < head[i - 1].start);
                        assert(head[i - 1].start <= head[i - 1].end);
                    }
                }
                assert forall|k: int| 0 <= k < grown.len() implies (#[trigger] grown[k]).start
                    <= grown[k].end by {
                    if k < i {
                        assert(head[k].start <= head[k].end);
                    }
                }
            }
            i += 1;
        }
        assert(self.intervals@.subrange(0, len as int) =~= self.intervals@);
        true
    }

    /// Whether the set holds the transaction number `t`.
    pub fn contains(&self, t: u64) -> (found: bool)
        ensures
            found == self@.contains(t),
    {
        let mut i: usize = 0;
        while i < self.intervals.len()
            invariant
                0 <= i <= self.intervals@.len(),
                forall|j: int| 0 <= j < i ==> !((#[trigger] self.intervals@[j]).start <= t <= self.intervals@[j].end),
            decreases self.intervals@.len() - i,
        {
            if self.intervals[i].start <= t && t <= self.intervals[i].end {
                return true;
            }
            i += 1;
        }
        false
    }

    /// Adds the transaction of `gtid` to the set, joining runs that come to
    /// touch. Returns whether the transaction was new. An identifier of
    /// another server is refused and leaves the set as it was.
    pub fn add_gtid(&mut self, gtid: Gtid) -> (r: Result<bool, Error>)
        requires
            old(self).wf(),
        ensures
            final(self).wf(),
            final(self).source_id == old(self).source_id,
            gtid.source_id == old(self).source_id ==> r == Ok::<bool, Error>(
                !old(self)@.contains(gtid.transaction_id),
            ) && final(self)@ == old(self)@.insert(gtid.transaction_id),
            gtid.source_id != old(self).source_id ==> r is Err && r->Err_0.protocol_message()
                == Some("SourceId of the passed gtid doesn't belong to the UuidSet"@)
                && final(self).intervals@ == old(self).intervals@,
    {
        if !(self.source_id == gtid.source_id) {
            return Err(
                Error::protocol("SourceId of the passed gtid doesn't belong to the UuidSet"),
            );
        }
        let t = gtid.transaction_id;
        let ghost before = self.intervals@;
        let len = self.intervals.len();
        let mut i: usize = 0;
        while i < len && self.intervals[i].end < t && t - self.intervals[i].end > 1
            invariant
                0 <= i <= len,
                len == self.intervals@.len(),
                self.intervals@ == before,
                forall|j: int| 0 <= j < i ==> (#[trigger] before[j]).end + 1 < t,
            decreases len - i,
        {
            i += 1;
        }
        if i == len {
            self.intervals.push(Interval { start: t, end: t });
            proof {
                lemma_insert_run(before, i as int, t);
                assert(self.intervals@ =~= before.insert(i as int, Interval { start: t, end: t }));
                lemma_same_runs(self.intervals@, before, t);
                assert(self@ =~= old(self)@.insert(t));
            }
            return Ok(true);
        }
        let cur = self.intervals[i];
        if cur.start <= t && t <= cur.end {
            proof {
                assert(before[i as int] == cur);
                assert(self@ =~= old(self)@.insert(t));
            }
            return Ok(false);
        }
        if cur.end < t {
            if i + 1 < len && self.intervals[i + 1].start - t == 1 {
                let next = self.intervals[i + 1];
                self.intervals.set(i, Interval { start: cur.start, end: next.end });
                self.intervals.remove(i + 1);
                proof {
                    lemma_join_runs(before, i as int, t);
                }
            } else {
                self.intervals.set(i, Interval { start: cur.start, end: t });
                proof {
                    lemma_extend_end(before, i as int, t);
                }
            }
        } else {
            if cur.start - t == 1 {
                self.intervals.set(i, Interval { start: t, end: cur.end });
                proof {
                    lemma_extend_start(before, i as int, t);
                }
            } else {
                self.intervals.insert(i, Interval { start: t, end: t });
                proof {
                    lemma_insert_run(before, i as int, t);
                }
            }
        }
        proof {
            lemma_new_transaction(before, i as int, t);
            lemma_same_runs(self.intervals@, before, t);
            assert(self@ =~= old(self)@.insert(t));
        }
        Ok(true)
    }
}

/// Whether one of `sets` is of the server of `gtid` and holds its
/// transaction.
pub open spec fn holds(sets: Seq<UuidSet>, gtid: Gtid) -> bool {
    exists|k: int|
        0 <= k < sets.len() && (#[trigger] sets[k]).source_id == gtid.source_id && sets[k]@.contains(
            gtid.transaction_id,
        )
}

/// The position of the first set of server `source` at or after `from`, or
/// the length of `sets` when there is none.
pub open spec fn source_position(sets: Seq<UuidSet>, source: Uuid, from: int) -> int
    decreases sets.len() - from,
{
    if from >= sets.len() || sets[from].source_id == source {
        from
    } else {
        source_position(sets, source, from + 1)
    }
}

/// The replication position of a MySQL server: the transactions seen, by the
/// server that each comes from.
#[derive(Clone, Debug)]
pub struct GtidSet {
    /// One set for each server, no server twice.
    pub uuid_sets: Vec<UuidSet>,
}

impl View for GtidSet {
    type V = Set<Gtid>;

    /// The transactions in the set.
    open spec fn view(&self) -> Set<Gtid> {
        Set::new(|gtid: Gtid| holds(self.uuid_sets@, gtid))
    }
}

impl GtidSet {
    /// Whether every server has one set, and that set is well formed.
    pub open spec fn wf(&self) -> bool {
        &&& forall|k: int| 0 <= k < self.uuid_sets@.len() ==> (#[trigger] self.uuid_sets@[k]).wf()
        &&& forall|i: int, j: int|
            0 <= i < j < self.uuid_sets@.len() ==> (#[trigger] self.uuid_sets@[i]).source_id != (
            #[trigger] self.uuid_sets@[j]).source_id
    }

    /// The empty set: it holds no transaction, and no server has a set of
    /// its own in it yet.
    pub fn new() -> (set: GtidSet)
        ensures
            set.wf(),
            set@ == Set::<Gtid>::empty(),
            set.uuid_sets@ == Seq::<UuidSet>::empty(),
    {
        let set = GtidSet { uuid_sets: Vec::new() };
        assert(set@ =~= Set::<Gtid>::empty());
        set
    }

    /// Whether every server has one set, and that set is well formed: the
    /// test that a caller makes before it hands over a set that it built
    /// by hand.
    pub fn is_well_formed(&self) -> (ok: bool)
        ensures
            ok == self.wf(),
    {
        let len = self.uuid_sets.len();
        let mut j: usize = 0;
        while j < len
            invariant
                0 <= j <= len,
                len == self.uuid_sets@.len(),
                forall|k: int| 0 <= k < j ==> (#[trigger] self.uuid_sets@[k]).wf(),
                forall|a: int, b: int|
                    0 <= a < b < j ==> (#[trigger] self.uuid_sets@[a]).source_id != (
                    #[trigger] self.uuid_sets@[b]).source_id,
            decreases len - j,
        {
            if !self.uuid_sets[j].is_well_formed() {
                return false;
            }
            let mut i: usize = 0;
            while i < j
                invariant
                    0 <= i <= j < len,
                    len == self.uuid_sets@.len(),
                    forall|a: int|
                        0 <= a < i ==> (#[trigger] self.uuid_sets@[a]).source_id
                            != self.uuid_sets@[j as int].source_id,
                decreases j - i,
            {
                if self.uuid_sets[i].source_id == self.uuid_sets[j].source_id {
                    return false;
                }
                i += 1;
            }
            j += 1;
        }
        true
    }

    /// Whether the set holds the transaction `gtid`.
    pub fn contains(&self, gtid: Gtid) -> (found: bool)
        ensures
            found == self@.contains(gtid),
    {
        let mut k: usize = 0;
        while k < self.uuid_sets.len()
            invariant
                0 <= k <= self.uuid_sets@.len(),
                forall|j: int|
                    0 <= j < k ==> !((#[trigger] self.uuid_sets@[j]).source_id == gtid.source_id
                        && self.uuid_sets@[j]@.contains(gtid.transaction_id)),
            decreases self.uuid_sets@.len() - k,
        {
            if self.uuid_sets[k].source_id == gtid.source_id && self.uuid_sets[k].contains(
                gtid.transaction_id,
            ) {
                return true;
            }
            k += 1;
        }
        false
    }

    /// Adds the transaction `gtid` to the set of its server, which is made
    /// when the server is new. Returns whether the transaction was new. On a
    /// well-formed set this never fails.
    pub fn add_gtid(&mut self, gtid: Gtid) -> (r: Result<bool, Error>)
        requires
            old(self).wf(),
        ensures
            final(self).wf(),
            r == Ok::<bool, Error>(!old(self)@.contains(gtid)),
            final(self)@ == old(self)@.insert(gtid),
    {
        let ghost before = self.uuid_sets@;
        let mut k: usize = 0;
        while k < self.uuid_sets.len() && !(self.uuid_sets[k].source_id == gtid.source_id)
            invariant
                0 <= k <= self.uuid_sets@.len(),
                self.uuid_sets@ == before,
                forall|j: int| 0 <= j < k ==> (#[trigger] before[j]).source_id != gtid.source_id,
            decreases self.uuid_sets@.len() - k,
        {
            k += 1;
        }
        let mut set = if k < self.uuid_sets.len() {
            self.uuid_sets.remove(k)
        } else {
            UuidSet::new(gtid.source_id)
        };
        let ghost taken = set;
        let r = set.add_gtid(gtid);
        let ghost grown = set;
        self.uuid_sets.insert(k, set);
        proof {
            let after = self.uuid_sets@;
            assert(after.len() == if k < before.len() { before.len() } else { before.len() + 1 });
            assert forall|j: int| 0 <= j < after.len() implies (#[trigger] after[j]) == (if j == k {
                grown
            } else {
                before[j]
            }) by {}
            assert(k < before.len() ==> taken == before[k as int]);
            assert forall|g: Gtid| holds(after, g) <==> holds(before, g) || g == gtid by {
                if holds(before, g) {
                    let j = choose|j: int|
                        0 <= j < before.len() && (#[trigger] before[j]).source_id == g.source_id
                            && before[j]@.contains(g.transaction_id);
                    assert(after[j].source_id == g.source_id && after[j]@.contains(
                        g.transaction_id,
                    ));
                }
                if g == gtid {
                    assert(after[k as int].source_id == g.source_id && after[k as int]@.contains(
                        g.transaction_id,
                    ));
                }
                if holds(after, g) && g != gtid {
                    let j = choose|j: int|
                        0 <= j < after.len() && (#[trigger] after[j]).source_id == g.source_id
                            && after[j]@.contains(g.transaction_id);
                    if j == k {
                        assert(taken@.contains(g.transaction_id));
                        assert(before[j].source_id == g.source_id && before[j]@.contains(
                            g.transaction_id,
                        ));
                    } else {
                        assert(before[j].source_id == g.source_id && before[j]@.contains(
                            g.transaction_id,
                        ));
                    }
                }
            }
            assert(self@ =~= old(self)@.insert(gtid));
            if old(self)@.contains(gtid) {
                let j = choose|j: int|
                    0 <= j < before.len() && (#[trigger] before[j]).source_id == gtid.source_id
                        && before[j]@.contains(gtid.transaction_id);
                assert(j == k);
            }
        }
        r
    }
}

/// A transaction between the runs in front of position `i` and the run at
/// `i` is in none of the runs.
proof fn lemma_new_transaction(before: Seq<Interval>, i: int, t: u64)
    requires
        separated(before),
        0 <= i < before.len(),
        forall|j: int| 0 <= j < i ==> (#[trigger] before[j]).end + 1 < t,
        !(before[i].start <= t <= before[i].end),
        before[i].end + 1 >= t,
    ensures
        !covers(before, t),
{
    if covers(before, t) {
        let k = choose|k: int| 0 <= k < before.len() && (#[trigger] before[k]).start <= t <= before[k].end;
        if k > i {
            assert(before[i].end + 1 < before[k].start);
        }
    }
}

/// Runs that cover what `before` covers and `t` besides hold the
/// transactions of `before` and `t`.
proof fn lemma_same_runs(after: Seq<Interval>, before: Seq<Interval>, t: u64)
    requires
        forall|x: u64| covers(after, x) <==> covers(before, x) || x == t,
    ensures
        Set::new(|x: u64| covers(after, x)) =~= Set::new(|x: u64| covers(before, x)).insert(t),
{
}

/// A run of one transaction, put between runs that it does not touch.
proof fn lemma_insert_run(before: Seq<Interval>, i: int, t: u64)
    requires
        separated(before),
        0 <= i <= before.len(),
        forall|j: int| 0 <= j < i ==> (#[trigger] before[j]).end + 1 < t,
        i < before.len() ==> t + 1 < before[i].start,
    ensures
        separated(before.insert(i, Interval { start: t, end: t })),
        forall|x: u64|
            covers(before.insert(i, Interval { start: t, end: t }), x) <==> covers(before, x) || x
                == t,
{
    let after = before.insert(i, Interval { start: t, end: t });
    assert forall|k: int| 0 <= k < after.len() implies (#[trigger] after[k]) == (if k < i {
        before[k]
    } else if k == i {
        Interval { start: t, end: t }
    } else {
        before[k - 1]
    }) by {}
    assert forall|a: int, b: int| 0 <= a < b < after.len() implies (#[trigger] after[a]).end + 1 < (
    #[trigger] after[b]).start by {
        if a == i {
            if b - 1 > i {
                assert(before[i].end + 1 < before[b - 1].start);
                assert(before[i].start <= before[i].end);
            }
        } else if b == i {
        } else {
            let a0 = if a < i { a } else { a - 1 };
            let b0 = if b < i { b } else { b - 1 };
            assert(before[a0].end + 1 < before[b0].start);
        }
    }
    assert forall|k: int| 0 <= k < after.len() implies (#[trigger] after[k]).start <= after[k].end by {
        if k < i {
            assert(before[k].start <= before[k].end);
        } else if k > i {
            assert(before[k - 1].start <= before[k - 1].end);
        }
    }
    assert forall|x: u64| covers(after, x) <==> covers(before, x) || x == t by {
        if covers(before, x) {
            let k = choose|k: int| 0 <= k < before.len() && (#[trigger] before[k]).start <= x <= before[k].end;
            let k2 = if k < i { k } else { k + 1 };
            assert(after[k2].start <= x <= after[k2].end);
        }
        if x == t {
            assert(after[i].start <= x <= after[i].end);
        }
        if covers(after, x) {
            let k = choose|k: int| 0 <= k < after.len() && (#[trigger] after[k]).start <= x <= after[k].end;
            if k < i {
                assert(before[k].start <= x <= before[k].end);
            } else if k > i {
                assert(before[k - 1].start <= x <= before[k - 1].end);
            }
        }
    }
}

/// The run at `i` grows by the transaction in front of it.
proof fn lemma_extend_start(before: Seq<Interval>, i: int, t: u64)
    requires
        separated(before),
        0 <= i < before.len(),
        forall|j: int| 0 <= j < i ==> (#[trigger] before[j]).end + 1 < t,
        t + 1 == before[i].start,
    ensures
        separated(before.update(i, Interval { start: t, end: before[i].end })),
        forall|x: u64|
            covers(before.update(i, Interval { start: t, end: before[i].end }), x) <==> covers(
                before,
                x,
            ) || x == t,
{
    let after = before.update(i, Interval { start: t, end: before[i].end });
    assert forall|a: int, b: int| 0 <= a < b < after.len() implies (#[trigger] after[a]).end + 1 < (
    #[trigger] after[b]).start by {
        if b != i {
            assert(before[a].end + 1 < before[b].start);
        }
    }
    assert forall|k: int| 0 <= k < after.len() implies (#[trigger] after[k]).start <= after[k].end by {
        assert(before[k].start <= before[k].end);
    }
    assert forall|x: u64| covers(after, x) <==> covers(before, x) || x == t by {
        if covers(before, x) {
            let k = choose|k: int| 0 <= k < before.len() && (#[trigger] before[k]).start <= x <= before[k].end;
            assert(after[k].start <= x <= after[k].end);
        }
        if x == t {
            assert(after[i].start <= x <= after[i].end);
        }
        if covers(after, x) {
            let k = choose|k: int| 0 <= k < after.len() && (#[trigger] after[k]).start <= x <= after[k].end;
            if k != i {
                assert(before[k].start <= x <= before[k].end);
            } else if x > t {
                assert(before[i].start <= x <= before[i].end);
            }
        }
    }
}

/// The run at `i` grows by the transaction behind it, which the next run
/// does not touch.
proof fn lemma_extend_end(before: Seq<Interval>, i: int, t: u64)
    requires
        separated(before),
        0 <= i < before.len(),
        before[i].end + 1 == t,
        i + 1 < before.len() ==> t + 1 < before[i + 1].start,
    ensures
        separated(before.update(i, Interval { start: before[i].start, end: t })),
        forall|x: u64|
            covers(before.update(i, Interval { start: before[i].start, end: t }), x) <==> covers(
                before,
                x,
            ) || x == t,
{
    let after = before.update(i, Interval { start: before[i].start, end: t });
    assert forall|a: int, b: int| 0 <= a < b < after.len() implies (#[trigger] after[a]).end + 1 < (
    #[trigger] after[b]).start by {
        if a == i {
            if b > i + 1 {
                assert(before[i + 1].end + 1 < before[b].start);
                assert(before[i + 1].start <= before[i + 1].end);
            }
        } else {
            assert(before[a].end + 1 < before[b].start);
        }
    }
    assert forall|k: int| 0 <= k < after.len() implies (#[trigger] after[k]).start <= after[k].end by {
        assert(before[k].start <= before[k].end);
    }
    assert forall|x: u64| covers(after, x) <==> covers(before, x) || x == t by {
        if covers(before, x) {
            let k = choose|k: int| 0 <= k < before.len() && (#[trigger] before[k]).start <= x <= before[k].end;
            assert(after[k].start <= x <= after[k].end);
        }
        if x == t {
            assert(after[i].start <= x <= after[i].end);
        }
        if covers(after, x) {
            let k = choose|k: int| 0 <= k < after.len() && (#[trigger] after[k]).start <= x <= after[k].end;
            if k != i {
                assert(before[k].start <= x <= before[k].end);
            } else if x < t {
                assert(before[i].start <= x <= before[i].end);
            }
        }
    }
}

/// The transaction between the runs at `i` and `i + 1` joins the two.
proof fn lemma_join_runs(before: Seq<Interval>, i: int, t: u64)
    requires
        separated(before),
        0 <= i,
        i + 1 < before.len(),
        before[i].end + 1 == t,
        t + 1 == before[i + 1].start,
    ensures
        separated(
            before.update(i, Interval { start: before[i].start, end: before[i + 1].end }).remove(
                i + 1,
            ),
        ),
        forall|x: u64|
            covers(
                before.update(
                    i,
                    Interval { start: before[i].start, end: before[i + 1].end },
                ).remove(i + 1),
                x,
            ) <==> covers(before, x) || x == t,
{
    let joined = Interval { start: before[i].start, end: before[i + 1].end };
    let after = before.update(i, joined).remove(i + 1);
    assert(before[i].start <= before[i].end);
    assert(before[i + 1].start <= before[i + 1].end);
    assert forall|k: int| 0 <= k < after.len() implies (#[trigger] after[k]) == (if k < i {
        before[k]
    } else if k == i {
        joined
    } else {
        before[k + 1]
    }) by {}
    assert forall|a: int, b: int| 0 <= a < b < after.len() implies (#[trigger] after[a]).end + 1 < (
    #[trigger] after[b]).start by {
        let a1 = if a < i { a } else { a + 1 };
        assert(before[a1].end + 1 < before[b + 1].start || b < i);
        if b < i {
            assert(before[a].end + 1 < before[b].start);
        } else if b == i {
            assert(before[a].end + 1 < before[i].start);
        }
    }
    assert forall|k: int| 0 <= k < after.len() implies (#[trigger] after[k]).start <= after[k].end by {
        if k < i {
            assert(before[k].start <= before[k].end);
        } else if k > i {
            assert(before[k + 1].start <= before[k + 1].end);
        }
    }
    assert forall|x: u64| covers(after, x) <==> covers(before, x) || x == t by {
        if covers(before, x) {
            let k = choose|k: int| 0 <= k < before.len() && (#[trigger] before[k]).start <= x <= before[k].end;
            let k2 = if k <= i { k } else { k - 1 };
            assert(after[k2].start <= x <= after[k2].end);
        }
        if x == t {
            assert(after[i].start <= x <= after[i].end);
        }
        if covers(after, x) {
            let k = choose|k: int| 0 <= k < after.len() && (#[trigger] after[k]).start <= x <= after[k].end;
            if k < i {
                assert(before[k].start <= x <= before[k].end);
            } else if k > i {
                assert(before[k + 1].start <= x <= before[k + 1].end);
            } else if x < t {
                assert(before[i].start <= x <= before[i].end);
            } else if x > t {
                assert(before[i + 1].start <= x <= before[i + 1].end);
            }
        }
    }
}

} // verus!
