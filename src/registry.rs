//! The deployment registry: an append-only log of deployment records with an
//! overflow-checked counter, and linear-filter queries over it.
use vstd::prelude::*;
use crate::ids::Address;

verus! {

/// A deployment record as the registry sees it: it has a kind, can be
/// duplicated for a caller, and has an abstract value that queries speak of.
pub trait Record: View + Sized {
    type Kind;

    spec fn kind_of(v: Self::V) -> Self::Kind;

    fn duplicate(&self) -> (r: Self)
        ensures
            r@ == self@,
    ;

    fn has_kind(&self, k: &Self::Kind) -> (r: bool)
        ensures
            r == (Self::kind_of(self@) == *k),
    ;
}

/// A record that names the identity which owns or administers the instance.
pub trait HeldRecord: Record {
    spec fn holder_of(v: Self::V) -> Address;

    fn held_by(&self, a: &Address) -> (r: bool)
        ensures
            r == (Self::holder_of(self@) == *a),
    ;
}

/// The counter would pass its largest value.
#[derive(Clone, Copy, Debug, PartialEq, Eq, Structural)]
pub struct CounterOverflow;

pub open spec fn views<R: View>(s: Seq<R>) -> Seq<R::V> {
    s.map_values(|r: R| r@)
}

pub open spec fn kind_is<R: Record>(k: R::Kind) -> spec_fn(R::V) -> bool {
    |v: R::V| R::kind_of(v) == k
}

pub open spec fn holder_is<R: HeldRecord>(a: Address) -> spec_fn(R::V) -> bool {
    |v: R::V| R::holder_of(v) == a
}

/// The records of kind `k`, in order.
pub open spec fn of_kind<R: Record>(s: Seq<R::V>, k: R::Kind) -> Seq<R::V> {
    s.filter(kind_is::<R>(k))
}

/// The records held by `a`, in order.
pub open spec fn held_by_addr<R: HeldRecord>(s: Seq<R::V>, a: Address) -> Seq<R::V> {
    s.filter(holder_is::<R>(a))
}

/// One step of a left-to-right filter.
pub proof fn lemma_filter_step<A>(s: Seq<A>, i: int, p: spec_fn(A) -> bool)
    requires
        0 <= i < s.len(),
    ensures
        s.take(i + 1).filter(p) == if p(s[i]) {
            s.take(i).filter(p).push(s[i])
        } else {
            s.take(i).filter(p)
        },
{
    reveal(Seq::filter);
    assert(s.take(i + 1).drop_last() =~= s.take(i));
    assert(s.take(i + 1).last() == s[i]);
}

pub proof fn lemma_views_push<R: View>(s: Seq<R>, x: R)
    ensures
        views(s.push(x)) == views(s).push(x@),
{
    assert(views(s.push(x)) =~= views(s).push(x@));
}

/// Append-only deployment log. `count` is kept beside the log and always
/// equals its length.
pub struct Registry<R> {
    entries: Vec<R>,
    count: u32,
}

impl<R: Record> Registry<R> {
    /// The records in deployment order.
    pub closed spec fn records(&self) -> Seq<R::V> {
        views(self.entries@)
    }

    /// The stored counter.
    pub closed spec fn counter(&self) -> u32 {
        self.count
    }

    pub closed spec fn wf(&self) -> bool {
        self.count as int == self.entries@.len()
    }

    /// In a well-formed registry the counter is the number of records.
    pub proof fn lemma_counter_is_len(&self)
        requires
            self.wf(),
        ensures
            self.counter() as int == self.records().len(),
    {
    }

    pub fn new() -> (r: Registry<R>)
        ensures
            r.wf(),
            r.records() == Seq::<R::V>::empty(),
            r.counter() == 0,
    {
        let r = Registry { entries: Vec::new(), count: 0 };
        assert(r.records() =~= Seq::<R::V>::empty());
        r
    }

    /// Appends `entry` and increments the counter, unless the counter is at
    /// its largest value: then nothing changes.
    pub fn record(&mut self, entry: R) -> (r: Result<(), CounterOverflow>)
        requires
            old(self).wf(),
        ensures
            final(self).wf(),
            r is Err <==> old(self).counter() == u32::MAX,
            r is Ok ==> final(self).records() == old(self).records().push(entry@),
            r is Ok ==> final(self).counter() == old(self).counter() + 1,
            r is Err ==> *final(self) == *old(self),
    {
        if self.count == u32::MAX {
            return Err(CounterOverflow);
        }
        proof {
            lemma_views_push(self.entries@, entry);
        }
        self.entries.push(entry);
        self.count = self.count + 1;
        Ok(())
    }

    /// Whether one more record fits under the counter's largest value.
    pub fn has_room(&self) -> (r: bool)
        ensures
            r == (self.counter() < u32::MAX),
    {
        self.count < u32::MAX
    }

    /// The counter, read directly.
    pub fn count(&self) -> (r: u32)
        requires
            self.wf(),
        ensures
            r == self.counter(),
            r as int == self.records().len(),
    {
        self.count
    }

    /// Every record, in deployment order.
    pub fn all(&self) -> (out: Vec<R>)
        ensures
            views(out@) == self.records(),
    {
        let mut out: Vec<R> = Vec::new();
        let mut i: usize = 0;
        while i < self.entries.len()
            invariant
                0 <= i <= self.entries@.len(),
                views(out@) == views(self.entries@.take(i as int)),
            decreases self.entries@.len() - i,
        {
            let d = self.entries[i].duplicate();
            proof {
                lemma_views_push(out@, d);
                assert(views(self.entries@.take(i as int + 1)) =~= views(
                    self.entries@.take(i as int),
                ).push(self.entries@[i as int]@));
            }
            out.push(d);
            i = i + 1;
        }
        assert(self.entries@.take(i as int) =~= self.entries@);
        out
    }

    /// The records of kind `k`, in deployment order.
    pub fn by_kind(&self, k: &R::Kind) -> (out: Vec<R>)
        ensures
            views(out@) == of_kind::<R>(self.records(), *k),
    {
        let ghost p = kind_is::<R>(*k);
        let mut out: Vec<R> = Vec::new();
        let mut i: usize = 0;
        while i < self.entries.len()
            invariant
                0 <= i <= self.entries@.len(),
                p == kind_is::<R>(*k),
                views(out@) == views(self.entries@).take(i as int).filter(p),
            decreases self.entries@.len() - i,
        {
            proof {
                lemma_filter_step(views(self.entries@), i as int, p);
            }
            if self.entries[i].has_kind(k) {
                let d = self.entries[i].duplicate();
                proof {
                    lemma_views_push(out@, d);
                }
                out.push(d);
            }
            i = i + 1;
        }
        assert(views(self.entries@).take(i as int) =~= views(self.entries@));
        out
    }
}

impl<R: HeldRecord> Registry<R> {
    /// The records held by `a`, in deployment order.
    pub fn by_holder(&self, a: &Address) -> (out: Vec<R>)
        ensures
            views(out@) == held_by_addr::<R>(self.records(), *a),
    {
        let ghost p = holder_is::<R>(*a);
        let mut out: Vec<R> = Vec::new();
        let mut i: usize = 0;
        while i < self.entries.len()
            invariant
                0 <= i <= self.entries@.len(),
                p == holder_is::<R>(*a),
                views(out@) == views(self.entries@).take(i as int).filter(p),
            decreases self.entries@.len() - i,
        {
            proof {
                lemma_filter_step(views(self.entries@), i as int, p);
            }
            if self.entries[i].held_by(a) {
                let d = self.entries[i].duplicate();
                proof {
                    lemma_views_push(out@, d);
                }
                out.push(d);
            }
            i = i + 1;
        }
        assert(views(self.entries@).take(i as int) =~= views(self.entries@));
        out
    }
}

} // verus!
