//! A table of price points keyed by the instant at which each price starts,
//! kept in order of that instant, and the lookup of the price in effect at a
//! given instant.

use vstd::prelude::*;

use crate::time::{ts_le, ts_lt, Timestamp};

verus! {

/// A price that takes effect at `starts_at`. The price itself is held as the
/// IEEE-754 bit pattern of the `f64` total, so that the table compares and
/// copies it exactly.
#[derive(Clone, Copy, Debug, PartialEq, Eq, Structural)]
pub struct PricePoint {
    pub starts_at: Timestamp,
    pub total_bits: u64,
}

/// The points of `s` start at strictly increasing instants.
pub open spec fn strictly_sorted(s: Seq<PricePoint>) -> bool {
    forall|i: int, j: int| 0 <= i < j < s.len() ==> ts_lt(#[trigger] s[i].starts_at, #[trigger] s[j].starts_at)
}

/// The map that inserting the points of `s`, first to last, into an empty
/// map yields: where two points start at the same instant, the later one wins.
pub open spec fn points_map(s: Seq<PricePoint>) -> Map<Timestamp, u64>
    decreases s.len(),
{
    if s.len() == 0 {
        Map::empty()
    } else {
        points_map(s.drop_last()).insert(s.last().starts_at, s.last().total_bits)
    }
}

/// `k` is the latest key of `m` at or before `t`.
pub open spec fn is_latest_at_or_before(m: Map<Timestamp, u64>, t: Timestamp, k: Timestamp) -> bool {
    &&& m.contains_key(k)
    &&& ts_le(k, t)
    &&& forall|k2: Timestamp| #[trigger] m.contains_key(k2) && ts_le(k2, t) ==> ts_le(k2, k)
}

/// The price in effect at `t`: the value of the latest key at or before `t`,
/// or `None` where there is none.
pub open spec fn price_at(m: Map<Timestamp, u64>, t: Timestamp) -> Option<u64> {
    if exists|k: Timestamp| is_latest_at_or_before(m, t, k) {
        Some(m[choose|k: Timestamp| is_latest_at_or_before(m, t, k)])
    } else {
        None
    }
}

/// A key of `m` at or before `t` that is no earlier than any other such key is
/// the only one of its kind.
pub proof fn lemma_latest_unique(m: Map<Timestamp, u64>, t: Timestamp, a: Timestamp, b: Timestamp)
    requires
        is_latest_at_or_before(m, t, a),
        is_latest_at_or_before(m, t, b),
    ensures
        a == b,
{
    assert(ts_le(a, b));
    assert(ts_le(b, a));
}

/// Where `k` is the latest key at or before `t`, the price in effect at `t` is
/// the one stored under `k`.
pub proof fn lemma_price_at_latest(m: Map<Timestamp, u64>, t: Timestamp, k: Timestamp)
    requires
        is_latest_at_or_before(m, t, k),
    ensures
        price_at(m, t) == Some(m[k]),
{
    let c = choose|c: Timestamp| is_latest_at_or_before(m, t, c);
    lemma_latest_unique(m, t, c, k);
}

/// Where no key lies at or before `t`, no price is in effect at `t`.
pub proof fn lemma_price_at_none(m: Map<Timestamp, u64>, t: Timestamp)
    requires
        forall|k: Timestamp| #[trigger] m.contains_key(k) ==> !ts_le(k, t),
    ensures
        price_at(m, t) is None,
{
}

/// `r` is the price in effect at `t` in `m`: the price under a key at or before
/// `t` that no other key at or before `t` follows, or `None` where no key lies
/// at or before `t`.
pub open spec fn is_price_in_effect(m: Map<Timestamp, u64>, t: Timestamp, r: Option<u64>) -> bool {
    match r {
        Some(v) => exists|k: Timestamp|
            #[trigger] m.contains_key(k) && ts_le(k, t) && m[k] == v && (forall|k2: Timestamp|
                #[trigger] m.contains_key(k2) && ts_le(k2, t) ==> ts_le(k2, k)),
        None => forall|k: Timestamp| #[trigger] m.contains_key(k) ==> !ts_le(k, t),
    }
}

/// Some key of `m` lies at or before `t`.
pub open spec fn has_key_at_or_before(m: Map<Timestamp, u64>, t: Timestamp) -> bool {
    exists|k: Timestamp| #[trigger] m.contains_key(k) && ts_le(k, t)
}

/// A finite set of instants with one at or before `t` has a latest one at or
/// before `t`.
proof fn lemma_latest_exists(s: Set<Timestamp>, t: Timestamp)
    requires
        s.finite(),
        exists|k: Timestamp| #[trigger] s.contains(k) && ts_le(k, t),
    ensures
        exists|k: Timestamp|
            #[trigger] s.contains(k) && ts_le(k, t) && (forall|k2: Timestamp|
                #[trigger] s.contains(k2) && ts_le(k2, t) ==> ts_le(k2, k)),
    decreases s.len(),
{
    let a = choose|k: Timestamp| #[trigger] s.contains(k) && ts_le(k, t);
    let r = s.remove(a);
    assert(r.len() < s.len());
    if exists|k: Timestamp| #[trigger] r.contains(k) && ts_le(k, t) {
        lemma_latest_exists(r, t);
        let b = choose|k: Timestamp|
            #[trigger] r.contains(k) && ts_le(k, t) && (forall|k2: Timestamp|
                #[trigger] r.contains(k2) && ts_le(k2, t) ==> ts_le(k2, k));
        if ts_le(a, b) {
            assert forall|k2: Timestamp| #[trigger] s.contains(k2) && ts_le(k2, t) implies ts_le(k2, b) by {
                if k2 != a {
                    assert(r.contains(k2));
                }
            }
            assert(s.contains(b));
        } else {
            assert forall|k2: Timestamp| #[trigger] s.contains(k2) && ts_le(k2, t) implies ts_le(k2, a) by {
                if k2 != a {
                    assert(r.contains(k2));
                }
            }
        }
    } else {
        assert forall|k2: Timestamp| #[trigger] s.contains(k2) && ts_le(k2, t) implies ts_le(k2, a) by {
            if k2 != a {
                assert(r.contains(k2));
            }
        }
    }
}

/// In a map with finitely many keys, the price in effect at `t` is the price
/// under the latest key at or before `t`, and there is none exactly where no
/// key lies at or before `t`.
pub proof fn lemma_price_at_in_effect(m: Map<Timestamp, u64>, t: Timestamp)
    requires
        m.dom().finite(),
    ensures
        is_price_in_effect(m, t, price_at(m, t)),
{
    if exists|k: Timestamp| #[trigger] m.dom().contains(k) && ts_le(k, t) {
        lemma_latest_exists(m.dom(), t);
        let k = choose|k: Timestamp|
            #[trigger] m.dom().contains(k) && ts_le(k, t) && (forall|k2: Timestamp|
                #[trigger] m.dom().contains(k2) && ts_le(k2, t) ==> ts_le(k2, k));
        assert(is_latest_at_or_before(m, t, k));
        lemma_price_at_latest(m, t, k);
        assert(m.contains_key(k));
    } else {
        assert forall|k: Timestamp| #[trigger] m.contains_key(k) implies !ts_le(k, t) by {
            assert(m.dom().contains(k));
        }
        lemma_price_at_none(m, t);
    }
}

/// Right after a price is set for an instant, that price is the one in effect
/// at that instant.
pub proof fn lemma_price_at_inserted_point(m: Map<Timestamp, u64>, at: Timestamp, total_bits: u64)
    ensures
        price_at(m.insert(at, total_bits), at) == Some(total_bits),
{
    let m2 = m.insert(at, total_bits);
    assert(is_latest_at_or_before(m2, at, at));
    lemma_price_at_latest(m2, at, at);
}

/// The price in effect does not change between two instants where no price
/// starts after the first and at or before the second.
pub proof fn lemma_price_steady_between_points(m: Map<Timestamp, u64>, t1: Timestamp, t2: Timestamp)
    requires
        ts_le(t1, t2),
        forall|k: Timestamp| #[trigger] m.contains_key(k) ==> !(ts_lt(t1, k) && ts_le(k, t2)),
    ensures
        price_at(m, t1) == price_at(m, t2),
{
    assert forall|k: Timestamp| is_latest_at_or_before(m, t1, k) <==> is_latest_at_or_before(m, t2, k) by {
        if is_latest_at_or_before(m, t1, k) {
            assert forall|k2: Timestamp| #[trigger] m.contains_key(k2) && ts_le(k2, t2) implies ts_le(k2, k) by {
                assert(!(ts_lt(t1, k2) && ts_le(k2, t2)));
            }
        }
        if is_latest_at_or_before(m, t2, k) {
            assert(!(ts_lt(t1, k) && ts_le(k, t2)));
        }
    }
    if exists|k: Timestamp| is_latest_at_or_before(m, t1, k) {
        let k = choose|k: Timestamp| is_latest_at_or_before(m, t1, k);
        lemma_price_at_latest(m, t1, k);
        lemma_price_at_latest(m, t2, k);
    }
}

/// The instants of a map of points are those at which the points start.
pub proof fn lemma_points_map_domain(s: Seq<PricePoint>)
    ensures
        forall|i: int| 0 <= i < s.len() ==> #[trigger] points_map(s).contains_key(s[i].starts_at),
        forall|k: Timestamp| #[trigger]
            points_map(s).contains_key(k) ==> exists|i: int| 0 <= i < s.len() && s[i].starts_at == k,
    decreases s.len(),
{
    if s.len() > 0 {
        let p = s.drop_last();
        lemma_points_map_domain(p);
        assert forall|i: int| 0 <= i < s.len() implies #[trigger] points_map(s).contains_key(s[i].starts_at) by {
            if i < s.len() - 1 {
                assert(p[i] == s[i]);
                assert(points_map(p).contains_key(p[i].starts_at));
            }
        }
        assert forall|k: Timestamp| #[trigger] points_map(s).contains_key(k) implies exists|i: int|
            0 <= i < s.len() && s[i].starts_at == k by {
            if k == s.last().starts_at {
                assert(s[s.len() - 1].starts_at == k);
            } else {
                assert(points_map(p).contains_key(k));
                let i = choose|i: int| 0 <= i < p.len() && p[i].starts_at == k;
                assert(s[i] == p[i]);
            }
        }
    }
}

/// Inserting points one after another leaves, under each instant, the price of
/// the last point that starts there.
pub proof fn lemma_points_map_last_wins(s: Seq<PricePoint>)
    ensures
        forall|k: Timestamp| #[trigger]
            points_map(s).contains_key(k) ==> exists|i: int|
                0 <= i < s.len() && s[i].starts_at == k && points_map(s)[k] == s[i].total_bits && (forall|
                    j: int,
                | i < j < s.len() ==> (#[trigger] s[j]).starts_at != k),
    decreases s.len(),
{
    if s.len() > 0 {
        let p = s.drop_last();
        lemma_points_map_last_wins(p);
        let m = points_map(s);
        assert forall|k: Timestamp| #[trigger] m.contains_key(k) implies exists|i: int|
            0 <= i < s.len() && s[i].starts_at == k && m[k] == s[i].total_bits && (forall|j: int|
                i < j < s.len() ==> (#[trigger] s[j]).starts_at != k) by {
            let n = s.len() - 1;
            if k == s[n].starts_at {
                assert(s[n].starts_at == k && m[k] == s[n].total_bits);
            } else {
                assert(points_map(p).contains_key(k));
                let i = choose|i: int|
                    0 <= i < p.len() && p[i].starts_at == k && points_map(p)[k] == p[i].total_bits && (forall|
                        j: int,
                    | i < j < p.len() ==> (#[trigger] p[j]).starts_at != k);
                assert(s[i] == p[i]);
                assert forall|j: int| i < j < s.len() implies (#[trigger] s[j]).starts_at != k by {
                    if j < n {
                        assert(s[j] == p[j]);
                    }
                }
            }
        }
    }
}

/// Of a sequence of points with distinct instants, the map holds each point's
/// price under its instant.
proof fn lemma_points_map(s: Seq<PricePoint>)
    requires
        strictly_sorted(s),
    ensures
        forall|i: int|
            0 <= i < s.len() ==> #[trigger] points_map(s).contains_key(s[i].starts_at)
                && points_map(s)[s[i].starts_at] == s[i].total_bits,
        forall|k: Timestamp| #[trigger]
            points_map(s).contains_key(k) ==> exists|i: int| 0 <= i < s.len() && s[i].starts_at == k,
    decreases s.len(),
{
    lemma_points_map_domain(s);
    if s.len() > 0 {
        let p = s.drop_last();
        assert(strictly_sorted(p)) by {
            assert forall|i: int, j: int| 0 <= i < j < p.len() implies ts_lt(
                #[trigger] p[i].starts_at,
                #[trigger] p[j].starts_at,
            ) by {
                assert(p[i] == s[i] && p[j] == s[j]);
            }
        }
        lemma_points_map(p);
        let m = points_map(s);
        assert forall|i: int| 0 <= i < s.len() implies m[s[i].starts_at] == s[i].total_bits by {
            if i < s.len() - 1 {
                assert(p[i] == s[i]);
                assert(ts_lt(s[i].starts_at, s[s.len() - 1].starts_at));
                assert(points_map(p).contains_key(p[i].starts_at));
            }
        }
    }
}

/// Price points ordered by the instant at which they start, at most one per
/// instant: what the map from start instant to price holds.
///
/// The points stand in a `Vec` kept in order rather than in std's `BTreeMap`:
/// vstd gives `BTreeMap` no specification of the range query that the lookup
/// of the price in effect needs.
pub struct PriceTable {
    entries: Vec<PricePoint>,
}

impl PriceTable {
    #[verifier::type_invariant]
    spec fn is_sorted(self) -> bool {
        strictly_sorted(self.entries@)
    }
}

impl View for PriceTable {
    type V = Map<Timestamp, u64>;

    closed spec fn view(&self) -> Map<Timestamp, u64> {
        points_map(self.entries@)
    }
}

/// A table holds finitely many points.
pub proof fn lemma_table_finite(table: &PriceTable)
    ensures
        table@.dom().finite(),
{
    lemma_points_map_finite(table.entries@);
}

proof fn lemma_points_map_finite(s: Seq<PricePoint>)
    ensures
        points_map(s).dom().finite(),
    decreases s.len(),
{
    if s.len() > 0 {
        lemma_points_map_finite(s.drop_last());
    }
}

impl PriceTable {
    /// An empty table.
    pub fn new() -> (table: PriceTable)
        ensures
            table@ == Map::<Timestamp, u64>::empty(),
    {
        PriceTable { entries: Vec::new() }
    }

    /// The number of points that start strictly before `at`: since the points
    /// are in order, they are the first ones.
    fn count_before(&self, at: Timestamp) -> (n: usize)
        ensures
            n <= self.entries@.len(),
            forall|i: int| 0 <= i < n ==> ts_lt(#[trigger] self.entries@[i].starts_at, at),
            forall|i: int| n <= i < self.entries@.len() ==> ts_le(at, #[trigger] self.entries@[i].starts_at),
    {
        proof {
            use_type_invariant(self);
        }
        let mut lo: usize = 0;
        let mut hi: usize = self.entries.len();
        while lo < hi
            invariant
                lo <= hi <= self.entries@.len(),
                strictly_sorted(self.entries@),
                forall|i: int| 0 <= i < lo ==> ts_lt(#[trigger] self.entries@[i].starts_at, at),
                forall|i: int| hi <= i < self.entries@.len() ==> ts_le(at, #[trigger] self.entries@[i].starts_at),
            decreases hi - lo,
        {
            let mid = lo + (hi - lo) / 2;
            if self.entries[mid].starts_at.is_before(&at) {
                assert forall|i: int| 0 <= i < mid + 1 implies ts_lt(#[trigger] self.entries@[i].starts_at, at) by {
                    if i < mid {
                        assert(ts_lt(self.entries@[i].starts_at, self.entries@[mid as int].starts_at));
                    }
                }
                lo = mid + 1;
            } else {
                assert forall|i: int| mid <= i < self.entries@.len() implies ts_le(at, #[trigger] self.entries@[i].starts_at) by {
                    if i > mid {
                        assert(ts_lt(self.entries@[mid as int].starts_at, self.entries@[i].starts_at));
                    }
                }
                hi = mid;
            }
        }
        lo
    }

    /// The number of points that start at or before `at`: the first ones.
    fn count_at_or_before(&self, at: Timestamp) -> (n: usize)
        ensures
            n <= self.entries@.len(),
            forall|i: int| 0 <= i < n ==> ts_le(#[trigger] self.entries@[i].starts_at, at),
            forall|i: int| n <= i < self.entries@.len() ==> ts_lt(at, #[trigger] self.entries@[i].starts_at),
    {
        proof {
            use_type_invariant(self);
        }
        let mut lo: usize = 0;
        let mut hi: usize = self.entries.len();
        while lo < hi
            invariant
                lo <= hi <= self.entries@.len(),
                strictly_sorted(self.entries@),
                forall|i: int| 0 <= i < lo ==> ts_le(#[trigger] self.entries@[i].starts_at, at),
                forall|i: int| hi <= i < self.entries@.len() ==> ts_lt(at, #[trigger] self.entries@[i].starts_at),
            decreases hi - lo,
        {
            let mid = lo + (hi - lo) / 2;
            if self.entries[mid].starts_at.is_at_or_before(&at) {
                assert forall|i: int| 0 <= i < mid + 1 implies ts_le(#[trigger] self.entries@[i].starts_at, at) by {
                    if i < mid {
                        assert(ts_lt(self.entries@[i].starts_at, self.entries@[mid as int].starts_at));
                    }
                }
                lo = mid + 1;
            } else {
                assert forall|i: int| mid <= i < self.entries@.len() implies ts_lt(at, #[trigger] self.entries@[i].starts_at) by {
                    if i > mid {
                        assert(ts_lt(self.entries@[mid as int].starts_at, self.entries@[i].starts_at));
                    }
                }
                hi = mid;
            }
        }
        lo
    }

    /// Sets the price that starts at `at`, replacing the one that started there
    /// before, if any.
    pub fn insert(&mut self, at: Timestamp, total_bits: u64)
        ensures
            final(self)@ == old(self)@.insert(at, total_bits),
    {
        proof {
            use_type_invariant(&*self);
        }
        let p = self.count_before(at);
        let ghost old_entries = self.entries@;
        let mut entries: Vec<PricePoint> = Vec::new();
        std::mem::swap(&mut entries, &mut self.entries);
        assert(entries@ == old_entries);
        let point = PricePoint { starts_at: at, total_bits };
        if p < entries.len() && entries[p].starts_at == at {
            entries.set(p, point);
            proof {
                assert(entries@ == old_entries.update(p as int, point));
                assert forall|i: int, j: int| 0 <= i < j < entries@.len() implies ts_lt(
                    #[trigger] entries@[i].starts_at,
                    #[trigger] entries@[j].starts_at,
                ) by {
                    assert(ts_lt(old_entries[i].starts_at, old_entries[j].starts_at));
                }
                lemma_points_map(old_entries);
                lemma_points_map(entries@);
                let m_old = points_map(old_entries);
                let m_new = points_map(entries@);
                assert forall|k: Timestamp| #[trigger] m_new.contains_key(k) <==> m_old.insert(at, total_bits).contains_key(k) by {
                    if m_new.contains_key(k) {
                        let i = choose|i: int| 0 <= i < entries@.len() && entries@[i].starts_at == k;
                        assert(m_old.contains_key(old_entries[i].starts_at));
                    }
                    if m_old.contains_key(k) {
                        let i = choose|i: int| 0 <= i < old_entries.len() && old_entries[i].starts_at == k;
                        assert(m_new.contains_key(entries@[i].starts_at));
                    }
                    if k == at {
                        assert(m_new.contains_key(entries@[p as int].starts_at));
                    }
                }
                assert forall|k: Timestamp| #[trigger] m_new.contains_key(k) implies m_new[k] == m_old.insert(at, total_bits)[k] by {
                    let i = choose|i: int| 0 <= i < entries@.len() && entries@[i].starts_at == k;
                    assert(m_new.contains_key(entries@[i].starts_at));
                    if i != p {
                        assert(m_old.contains_key(old_entries[i].starts_at));
                    }
                }
                assert(m_new =~= m_old.insert(at, total_bits));
            }
        } else {
            entries.insert(p, point);
            proof {
                assert(entries@ == old_entries.insert(p as int, point));
                assert forall|i: int| p <= i < old_entries.len() implies ts_lt(at, #[trigger] old_entries[i].starts_at) by {
                    if i > p {
                        assert(ts_lt(old_entries[p as int].starts_at, old_entries[i].starts_at));
                    }
                }
                assert forall|i: int, j: int| 0 <= i < j < entries@.len() implies ts_lt(
                    #[trigger] entries@[i].starts_at,
                    #[trigger] entries@[j].starts_at,
                ) by {
                    if j < p {
                        assert(ts_lt(old_entries[i].starts_at, old_entries[j].starts_at));
                    } else if j == p {
                        assert(ts_lt(old_entries[i].starts_at, at));
                    } else if i == p {
                        assert(ts_lt(at, old_entries[j - 1].starts_at));
                    } else if i < p {
                        assert(ts_lt(old_entries[i].starts_at, old_entries[j - 1].starts_at));
                    } else {
                        assert(ts_lt(old_entries[i - 1].starts_at, old_entries[j - 1].starts_at));
                    }
                }
                lemma_points_map(old_entries);
                lemma_points_map(entries@);
                let m_old = points_map(old_entries);
                let m_new = points_map(entries@);
                assert forall|k: Timestamp| #[trigger] m_new.contains_key(k) <==> m_old.insert(at, total_bits).contains_key(k) by {
                    if m_new.contains_key(k) {
                        let i = choose|i: int| 0 <= i < entries@.len() && entries@[i].starts_at == k;
                        if i < p {
                            assert(m_old.contains_key(old_entries[i].starts_at));
                        } else if i > p {
                            assert(m_old.contains_key(old_entries[i - 1].starts_at));
                        }
                    }
                    if m_old.contains_key(k) {
                        let i = choose|i: int| 0 <= i < old_entries.len() && old_entries[i].starts_at == k;
                        if i < p {
                            assert(m_new.contains_key(entries@[i].starts_at));
                        } else {
                            assert(m_new.contains_key(entries@[i + 1].starts_at));
                        }
                    }
                    if k == at {
                        assert(m_new.contains_key(entries@[p as int].starts_at));
                    }
                }
                assert forall|k: Timestamp| #[trigger] m_new.contains_key(k) implies m_new[k] == m_old.insert(at, total_bits)[k] by {
                    let i = choose|i: int| 0 <= i < entries@.len() && entries@[i].starts_at == k;
                    assert(m_new.contains_key(entries@[i].starts_at));
                    if i < p {
                        assert(m_old.contains_key(old_entries[i].starts_at));
                        assert(k != at);
                    } else if i > p {
                        assert(m_old.contains_key(old_entries[i - 1].starts_at));
                        assert(k != at);
                    }
                }
                assert(m_new =~= m_old.insert(at, total_bits));
            }
        }
        self.entries = entries;
    }

    /// The price in effect at `now`: that of the latest point that starts at or
    /// before `now`, or `None` where every point starts after `now`.
    pub fn price_at(&self, now: Timestamp) -> (r: Option<u64>)
        ensures
            r == price_at(self@, now),
            match r {
                None => forall|k: Timestamp| #[trigger] self@.contains_key(k) ==> !ts_le(k, now),
                Some(v) => exists|k: Timestamp| is_latest_at_or_before(self@, now, k) && self@[k] == v,
            },
    {
        proof {
            use_type_invariant(self);
            lemma_points_map(self.entries@);
        }
        let n = self.count_at_or_before(now);
        if n == 0 {
            proof {
                assert forall|k: Timestamp| #[trigger] self@.contains_key(k) implies !ts_le(k, now) by {
                    let i = choose|i: int| 0 <= i < self.entries@.len() && self.entries@[i].starts_at == k;
                    assert(ts_lt(now, self.entries@[i].starts_at));
                }
                lemma_price_at_none(self@, now);
            }
            None
        } else {
            let point = self.entries[n - 1];
            proof {
                let k = point.starts_at;
                assert(self@.contains_key(self.entries@[n - 1].starts_at));
                assert forall|k2: Timestamp| #[trigger] self@.contains_key(k2) && ts_le(k2, now) implies ts_le(k2, k) by {
                    let i = choose|i: int| 0 <= i < self.entries@.len() && self.entries@[i].starts_at == k2;
                    if i >= n {
                        assert(ts_lt(now, self.entries@[i].starts_at));
                    } else if i < n - 1 {
                        assert(ts_lt(self.entries@[i].starts_at, self.entries@[n - 1].starts_at));
                    }
                }
                assert(is_latest_at_or_before(self@, now, k));
                lemma_price_at_latest(self@, now, k);
            }
            Some(point.total_bits)
        }
    }

    /// The points of the table, in order of their start.
    pub fn points(&self) -> (r: &[PricePoint])
        ensures
            strictly_sorted(r@),
            points_map(r@) == self@,
    {
        proof {
            use_type_invariant(self);
        }
        self.entries.as_slice()
    }
}

} // verus!
