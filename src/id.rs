//! Time-ordered row identifiers in the version-1 UUID layout.
//!
//! An identifier is a 60-bit count of 100-nanosecond ticks since
//! 1582-10-15, a 14-bit clock sequence, and a 6-byte node tag. A generator
//! issues strictly increasing tick counts: when the clock has not moved on
//! since the last identifier, it issues the tick after the last one.
//!
//! Identifiers are ordered by their tick count (then by sequence), which is
//! the order the store gives to time UUIDs. The 128-bit value itself is not
//! ordered that way: its first field holds the low bits of the tick count.
//!
//! The node tag must differ between writers that run at the same time: two
//! writers sharing a tag may issue equal values.

use vstd::prelude::*;
use uuid::{Timestamp, Uuid};

verus! {

/// Largest tick count that fits the 60 timestamp bits.
pub const MAX_TICKS: u64 = 0x0FFF_FFFF_FFFF_FFFF;

/// Largest sequence number that fits the 14 clock-sequence bits.
pub const MAX_SEQ: u16 = 0x3FFF;

/// A row identifier, held as the plain values that make it up.
#[derive(Clone, Copy, Debug)]
pub struct RowId {
    pub ticks: u64,
    pub seq: u16,
    pub node: [u8; 6],
}

impl RowId {
    /// The timestamp and sequence fit their bit widths.
    pub open spec fn valid(self) -> bool {
        self.ticks <= MAX_TICKS && self.seq <= MAX_SEQ
    }
}

/// Time order of identifiers: by tick count, then by sequence.
pub open spec fn id_before(a: RowId, b: RowId) -> bool {
    a.ticks < b.ticks || (a.ticks == b.ticks && a.seq < b.seq)
}

/// The tick count issued after `prev`, given the clock reading `now` (`None`
/// when the clock could not be read). A clock that has moved past `prev`
/// gives its own reading; otherwise the tick after `prev` is taken. `None`
/// only when `prev` is the last tick that fits, or when nothing was issued
/// yet and there is no reading that fits the 60 bits.
pub open spec fn next_tick(prev: Option<u64>, now: Option<u64>) -> Option<u64> {
    match prev {
        None => match now {
            Some(n) => if n <= MAX_TICKS { Some(n) } else { None },
            None => None,
        },
        Some(t) => match now {
            Some(n) if t < n && n <= MAX_TICKS => Some(n),
            _ => if t < MAX_TICKS { Some((t + 1) as u64) } else { None },
        },
    }
}

/// Value of the six node bytes read as a big-endian integer.
pub open spec fn node_value(n: [u8; 6]) -> int {
    n[0] as int * 0x100_0000_0000 + n[1] as int * 0x1_0000_0000 + n[2] as int * 0x100_0000
        + n[3] as int * 0x1_0000 + n[4] as int * 0x100 + n[5] as int
}

/// The 128-bit version-1 UUID of a stamp and node: time-low, time-mid,
/// time-high with version 1, the sequence with the RFC variant, then the node.
pub open spec fn v1_layout(ticks: u64, seq: u16, node: [u8; 6]) -> int {
    (ticks as int % 0x1_0000_0000) * 0x1_0000_0000_0000_0000_0000_0000
        + ((ticks as int / 0x1_0000_0000) % 0x1_0000) * 0x1_0000_0000_0000_0000_0000
        + (0x1000 + ticks as int / 0x1_0000_0000_0000) * 0x1_0000_0000_0000_0000
        + (0x8000 + seq as int) * 0x1_0000_0000_0000
        + node_value(node)
}

/// Relies on uuid's `Timestamp::try_from(SystemTime)` (read back with
/// `Timestamp::to_gregorian`): the current time in 100-nanosecond ticks since
/// 1582-10-15, or `None` when the system clock reads before 1970. Nothing is
/// promised of the value: it is what the system clock says.
#[verifier::external_body]
pub(crate) fn gregorian_ticks_now() -> (r: Option<u64>) {
    Timestamp::try_from(std::time::SystemTime::now()).ok().map(|t| t.to_gregorian().0)
}

/// Relies on uuid's `Uuid::new_v1` (given `Timestamp::from_gregorian_time`,
/// which keeps the ticks and counter) and `Uuid::as_u128`: the version-1
/// field layout, read as a big-endian integer.
#[verifier::external_body]
fn encode_v1(ticks: u64, seq: u16, node: [u8; 6]) -> (r: u128)
    requires
        ticks <= MAX_TICKS,
        seq <= MAX_SEQ,
    ensures
        r as int == v1_layout(ticks, seq, node),
{
    Uuid::new_v1(Timestamp::from_gregorian_time(ticks, seq), &node).as_u128()
}

impl RowId {
    /// The identifier as a 128-bit version-1 UUID.
    pub fn timeuuid(&self) -> (r: u128)
        requires
            self.valid(),
        ensures
            r as int == v1_layout(self.ticks, self.seq, self.node),
    {
        encode_v1(self.ticks, self.seq, self.node)
    }
}

/// Issues row identifiers for one writer node, with strictly increasing
/// tick counts.
pub struct IdGenerator {
    node: [u8; 6],
    last: Option<u64>,
    issued: Ghost<Seq<RowId>>,
}

impl IdGenerator {
    /// The node tag stamped into every identifier.
    pub closed spec fn node_tag(self) -> [u8; 6] {
        self.node
    }

    /// Every identifier issued so far, oldest first.
    pub closed spec fn issued(self) -> Seq<RowId> {
        self.issued@
    }

    /// The tick count of the last identifier issued, if any.
    pub closed spec fn last_tick(self) -> Option<u64> {
        self.last
    }

    /// No further identifier can be issued: the last one took the last tick.
    pub open spec fn exhausted(self) -> bool {
        self.last_tick() == Some(MAX_TICKS)
    }

    /// Well-formedness: the issued identifiers are valid, carry the node tag
    /// and sequence 0, have strictly increasing tick counts, and the last tick
    /// is remembered.
    pub closed spec fn wf(self) -> bool {
        &&& forall|i: int| 0 <= i < self.issued@.len() ==> {
            &&& (#[trigger] self.issued@[i]).valid()
            &&& self.issued@[i].node == self.node
            &&& self.issued@[i].seq == 0
        }
        &&& forall|i: int, j: int|
            0 <= i < j < self.issued@.len() ==> (#[trigger] self.issued@[i]).ticks
                < (#[trigger] self.issued@[j]).ticks
        &&& match self.last {
            None => self.issued@.len() == 0,
            Some(t) => self.issued@.len() > 0 && self.issued@.last().ticks == t,
        }
    }

    /// A generator for the given node tag that has issued nothing.
    pub fn new(node: [u8; 6]) -> (g: IdGenerator)
        ensures
            g.wf(),
            g.node_tag() == node,
            g.issued() == Seq::<RowId>::empty(),
            g.last_tick() is None,
    {
        IdGenerator { node, last: None, issued: Ghost(Seq::empty()) }
    }

    /// Issues the identifier that follows the last one for the clock reading
    /// `now_ticks` (`None` when the clock could not be read), or `None` when
    /// `next_tick` has none.
    pub fn next_id(&mut self, now_ticks: Option<u64>) -> (r: Option<RowId>)
        requires
            old(self).wf(),
        ensures
            final(self).wf(),
            final(self).node_tag() == old(self).node_tag(),
            match next_tick(old(self).last_tick(), now_ticks) {
                None => {
                    &&& r is None
                    &&& *final(self) == *old(self)
                    &&& old(self).last_tick() is None || old(self).exhausted()
                },
                Some(t) => {
                    &&& r == Some(RowId { ticks: t, seq: 0, node: old(self).node_tag() })
                    &&& r.unwrap().valid()
                    &&& final(self).issued() == old(self).issued().push(r.unwrap())
                    &&& final(self).last_tick() == Some(t)
                },
            },
    {
        let tick: Option<u64> = match self.last {
            None => match now_ticks {
                Some(n) => if n <= MAX_TICKS { Some(n) } else { None },
                None => None,
            },
            Some(t) => match now_ticks {
                Some(n) if t < n && n <= MAX_TICKS => Some(n),
                _ => if t < MAX_TICKS { Some(t + 1) } else { None },
            },
        };
        match tick {
            None => None,
            Some(t) => {
                let id = RowId { ticks: t, seq: 0, node: self.node };
                self.last = Some(t);
                self.issued = Ghost(self.issued@.push(id));
                Some(id)
            },
        }
    }

    /// Issues the next identifier for the current time of the system clock.
    /// It fails only when nothing was issued yet and the clock gives no usable
    /// reading, or when the generator is exhausted.
    pub fn generate(&mut self) -> (r: Option<RowId>)
        requires
            old(self).wf(),
        ensures
            final(self).wf(),
            final(self).node_tag() == old(self).node_tag(),
            r is None ==> *final(self) == *old(self),
            r is None ==> old(self).last_tick() is None || old(self).exhausted(),
            r is Some ==> final(self).issued() == old(self).issued().push(r.unwrap()),
            r is Some ==> r.unwrap().valid() && r.unwrap().node == old(self).node_tag(),
            r is Some && old(self).last_tick() is Some ==> old(self).last_tick().unwrap()
                < r.unwrap().ticks,
    {
        let now = gregorian_ticks_now();
        self.next_id(now)
    }
}

/// Identifiers issued by one generator have strictly increasing tick counts,
/// so they are strictly increasing in time order and pairwise distinct, as
/// stamps and as UUID values, however many were issued and however fast.
pub proof fn lemma_issued_distinct_and_ordered(g: IdGenerator)
    requires
        g.wf(),
    ensures
        forall|i: int, j: int|
            0 <= i < j < g.issued().len() ==> g.issued()[i].ticks < g.issued()[j].ticks,
        forall|i: int, j: int|
            0 <= i < j < g.issued().len() ==> id_before(g.issued()[i], g.issued()[j]),
        forall|i: int, j: int|
            0 <= i < g.issued().len() && 0 <= j < g.issued().len() && i != j ==> v1_layout(
                g.issued()[i].ticks,
                g.issued()[i].seq,
                g.issued()[i].node,
            ) != v1_layout(g.issued()[j].ticks, g.issued()[j].seq, g.issued()[j].node),
{
    assert forall|i: int, j: int|
        0 <= i < g.issued().len() && 0 <= j < g.issued().len() && i != j implies v1_layout(
            g.issued()[i].ticks,
            g.issued()[i].seq,
            g.issued()[i].node,
        ) != v1_layout(g.issued()[j].ticks, g.issued()[j].seq, g.issued()[j].node) by {
        let a = g.issued@[i];
        let b = g.issued@[j];
        if i < j {
            assert(a.ticks < b.ticks);
        } else {
            assert(b.ticks < a.ticks);
        }
        if v1_layout(a.ticks, a.seq, a.node) == v1_layout(b.ticks, b.seq, b.node) {
            lemma_timeuuid_injective(a, b);
        }
    }
}

proof fn lemma_split_unique(a1: int, b1: int, a2: int, b2: int, base: int)
    requires
        base > 0,
        0 <= b1 < base,
        0 <= b2 < base,
        a1 * base + b1 == a2 * base + b2,
    ensures
        a1 == a2,
        b1 == b2,
{
    assert(a1 == a2) by (nonlinear_arith)
        requires
            base > 0,
            0 <= b1 < base,
            0 <= b2 < base,
            a1 * base + b1 == a2 * base + b2,
    ;
}

proof fn lemma_ticks_parts(t: int)
    requires
        0 <= t,
    ensures
        t == t % 0x1_0000_0000 + ((t / 0x1_0000_0000) % 0x1_0000) * 0x1_0000_0000 + (t
            / 0x1_0000_0000_0000) * 0x1_0000_0000_0000,
{
    let p = t / 0x1_0000_0000;
    assert(t == p * 0x1_0000_0000 + t % 0x1_0000_0000);
    assert(p == (p / 0x1_0000) * 0x1_0000 + p % 0x1_0000);
    assert(p / 0x1_0000 == t / 0x1_0000_0000_0000) by {
        vstd::arithmetic::div_mod::lemma_div_denominator(t, 0x1_0000_0000, 0x1_0000);
    }
    assert(t == (p / 0x1_0000) * 0x1_0000 * 0x1_0000_0000 + (p % 0x1_0000) * 0x1_0000_0000 + t
        % 0x1_0000_0000) by (nonlinear_arith)
        requires
            t == p * 0x1_0000_0000 + t % 0x1_0000_0000,
            p == (p / 0x1_0000) * 0x1_0000 + p % 0x1_0000,
    ;
}

/// Two valid identifiers with the same node tag and the same UUID value have
/// the same stamp: distinct stamps give distinct UUIDs.
pub proof fn lemma_timeuuid_injective(a: RowId, b: RowId)
    requires
        a.valid(),
        b.valid(),
        a.node == b.node,
        v1_layout(a.ticks, a.seq, a.node) == v1_layout(b.ticks, b.seq, b.node),
    ensures
        a.ticks == b.ticks,
        a.seq == b.seq,
{
    let ta = a.ticks as int;
    let tb = b.ticks as int;
    let low_a = (0x8000 + a.seq as int) * 0x1_0000_0000_0000 + node_value(a.node);
    let low_b = (0x8000 + b.seq as int) * 0x1_0000_0000_0000 + node_value(b.node);
    let x_a = ((ta % 0x1_0000_0000) * 0x1_0000 + (ta / 0x1_0000_0000) % 0x1_0000) * 0x1_0000 + (
    0x1000 + ta / 0x1_0000_0000_0000);
    let x_b = ((tb % 0x1_0000_0000) * 0x1_0000 + (tb / 0x1_0000_0000) % 0x1_0000) * 0x1_0000 + (
    0x1000 + tb / 0x1_0000_0000_0000);
    assert(v1_layout(a.ticks, a.seq, a.node) == x_a * 0x1_0000_0000_0000_0000 + low_a);
    assert(v1_layout(b.ticks, b.seq, b.node) == x_b * 0x1_0000_0000_0000_0000 + low_b);
    assert(0 <= node_value(a.node) < 0x1_0000_0000_0000);
    lemma_split_unique(x_a, low_a, x_b, low_b, 0x1_0000_0000_0000_0000);
    lemma_split_unique(
        0x8000 + a.seq as int,
        node_value(a.node),
        0x8000 + b.seq as int,
        node_value(b.node),
        0x1_0000_0000_0000,
    );
    lemma_split_unique(
        (ta % 0x1_0000_0000) * 0x1_0000 + (ta / 0x1_0000_0000) % 0x1_0000,
        0x1000 + ta / 0x1_0000_0000_0000,
        (tb % 0x1_0000_0000) * 0x1_0000 + (tb / 0x1_0000_0000) % 0x1_0000,
        0x1000 + tb / 0x1_0000_0000_0000,
        0x1_0000,
    );
    lemma_split_unique(
        ta % 0x1_0000_0000,
        (ta / 0x1_0000_0000) % 0x1_0000,
        tb % 0x1_0000_0000,
        (tb / 0x1_0000_0000) % 0x1_0000,
        0x1_0000,
    );
    lemma_ticks_parts(ta);
    lemma_ticks_parts(tb);
}

} // verus!
