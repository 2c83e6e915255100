//! Series of random instants between two bounds.

use vstd::prelude::*;
use vstd::seq_lib::{to_multiset_contains, to_multiset_len};
use crate::random::{random_in, random_upto};

verus! {

/// An instant in UTC, counted in nanoseconds since the Unix epoch.
#[derive(Clone, Copy, Debug, PartialEq, Eq, Structural)]
pub struct DateTime {
    pub nanos: i128,
}

impl DateTime {
    pub fn from_nanos(nanos: i128) -> (r: DateTime)
        ensures
            r.nanos == nanos,
    {
        DateTime { nanos }
    }

    pub fn nanos(&self) -> (r: i128)
        ensures
            r == self.nanos,
    {
        self.nanos
    }
}

/// The message of the error that both samplers return when the bounds are out of order.
pub open spec fn order_error_text() -> Seq<char> {
    "start date/time is greater than end date/time"@
}

/// Nanoseconds in one second.
pub const NANOS_PER_SEC: i128 = 1_000_000_000;

/// Generation of instants between `self` (the start) and an end instant.
pub trait GenerateTime: Sized {
    /// The instant, in nanoseconds since the epoch.
    spec fn instant(&self) -> int;

    /// A random walk from the start to the end: it begins with the start,
    /// advances by a whole number of seconds below 15 at each step while that
    /// stays before the end, and closes with the end once a step would reach
    /// it (or once the series fills the address space). Fails when the start
    /// is not before the end.
    fn generate_until(&self, end: &Self) -> (r: Result<Vec<Self>, String>)
        ensures
            r is Err <==> self.instant() >= end.instant(),
            r matches Err(e) ==> e@ == order_error_text(),
            r matches Ok(v) ==> {
                &&& v@.len() >= 2
                &&& v@[0].instant() == self.instant()
                &&& v@.last().instant() == end.instant()
                &&& forall|i: int, j: int| 0 <= i <= j < v@.len() ==> v@[i].instant() <= v@[j].instant()
                &&& forall|i: int| 0 < i < v@.len() - 1 ==> {
                    let gap = (#[trigger] v@[i].instant()) - v@[i - 1].instant();
                    &&& 0 <= gap < 15 * NANOS_PER_SEC
                    &&& gap % (NANOS_PER_SEC as int) == 0
                }
                &&& forall|i: int| 0 <= i < v@.len() - 1 ==> (#[trigger] v@[i].instant()) < end.instant()
                &&& v@.len() < usize::MAX ==> end.instant() - v@[v@.len() - 2].instant() < 15 * NANOS_PER_SEC
            },
    ;

    /// `limit` instants drawn independently and uniformly from `[start, end)`,
    /// in ascending order. Fails when the start is not before the end.
    fn generate_until_with_limit(&self, end: &Self, limit: usize) -> (r: Result<Vec<Self>, String>)
        ensures
            r is Err <==> self.instant() >= end.instant(),
            r matches Err(e) ==> e@ == order_error_text(),
            r matches Ok(v) ==> {
                &&& v@.len() == limit
                &&& forall|i: int| 0 <= i < v@.len() ==> self.instant() <= #[trigger] v@[i].instant() < end.instant()
                &&& forall|i: int, j: int| 0 <= i <= j < v@.len() ==> v@[i].instant() <= v@[j].instant()
            },
    ;
}

/// Relies on std's `slice::sort_unstable`: the same values, in ascending order.
#[verifier::external_body]
fn sort_nanos(v: &mut Vec<i128>)
    ensures
        final(v)@.to_multiset() == old(v)@.to_multiset(),
        forall|i: int, j: int| 0 <= i <= j < final(v)@.len() ==> final(v)@[i] <= final(v)@[j],
{
    v.sort_unstable();
}

fn order_error() -> (r: String)
    ensures
        r@ == order_error_text(),
{
    String::from_str("start date/time is greater than end date/time")
}

impl GenerateTime for DateTime {
    open spec fn instant(&self) -> int {
        self.nanos as int
    }

    fn generate_until(&self, end: &Self) -> (r: Result<Vec<Self>, String>) {
        if self.nanos >= end.nanos {
            return Err(order_error());
        }
        let mut result: Vec<DateTime> = vec![*self];
        let mut last: i128 = self.nanos;
        loop
            invariant
                1 <= result@.len() <= usize::MAX - 1,
                result@[0] == *self,
                result@.last().nanos == last,
                self.nanos <= last < end.nanos,
                forall|i: int, j: int| 0 <= i <= j < result@.len() ==> result@[i].nanos <= result@[j].nanos,
                forall|i: int| 0 < i < result@.len() ==> {
                    let gap = (#[trigger] result@[i]).nanos - result@[i - 1].nanos;
                    &&& 0 <= gap < 15 * NANOS_PER_SEC
                    &&& gap % (NANOS_PER_SEC as int) == 0
                },
            ensures
                1 <= result@.len() <= usize::MAX - 1,
                result@.len() < usize::MAX - 1 ==> end.nanos - last < 15 * NANOS_PER_SEC,
            decreases usize::MAX - result@.len(),
        {
            if result.len() == usize::MAX - 1 {
                break;
            }
            let step = (random_in(0, 15) as i128) * NANOS_PER_SEC;
            if end.nanos < i128::MIN + step || last >= end.nanos - step {
                break;
            }
            last = last + step;
            proof {
                assert((step as int) % (NANOS_PER_SEC as int) == 0) by (nonlinear_arith)
                    requires
                        step == (step / NANOS_PER_SEC) * NANOS_PER_SEC,
                ;
            }
            result.push(DateTime { nanos: last });
        }
        result.push(*end);
        Ok(result)
    }

    fn generate_until_with_limit(&self, end: &Self, limit: usize) -> (r: Result<Vec<Self>, String>) {
        if self.nanos >= end.nanos {
            return Err(order_error());
        }
        let span: u128 = if self.nanos >= 0 || end.nanos < 0 {
            (end.nanos - self.nanos) as u128
        } else {
            (end.nanos as u128) + ((-(self.nanos + 1)) as u128) + 1
        };
        let mut offsets: Vec<i128> = Vec::new();
        let mut k: usize = 0;
        while k < limit
            invariant
                k <= limit,
                offsets@.len() == k,
                span == end.nanos - self.nanos,
                span >= 1,
                forall|i: int| 0 <= i < k ==> self.nanos <= #[trigger] offsets@[i] < end.nanos,
            decreases limit - k,
        {
            let off = random_upto(span - 1);
            let at: i128 = if off <= i128::MAX as u128 {
                self.nanos + (off as i128)
            } else {
                (self.nanos + i128::MAX) + ((off - i128::MAX as u128) as i128)
            };
            offsets.push(at);
            k += 1;
        }
        let ghost drawn = offsets@;
        sort_nanos(&mut offsets);
        proof {
            to_multiset_len(drawn);
            to_multiset_len(offsets@);
            assert forall|i: int| 0 <= i < offsets@.len() implies self.nanos <= #[trigger] offsets@[i] < end.nanos by {
                to_multiset_contains(offsets@, offsets@[i]);
                to_multiset_contains(drawn, offsets@[i]);
                assert(offsets@.contains(offsets@[i]));
                let j = choose|j: int| 0 <= j < drawn.len() && drawn[j] == offsets@[i];
            }
        }
        let mut result: Vec<DateTime> = Vec::new();
        let mut i: usize = 0;
        while i < offsets.len()
            invariant
                i <= offsets@.len(),
                result@.len() == i,
                forall|j: int| 0 <= j < i ==> (#[trigger] result@[j]).nanos == offsets@[j],
            decreases offsets@.len() - i,
        {
            result.push(DateTime { nanos: offsets[i] });
            i += 1;
        }
        Ok(result)
    }
}

} // verus!
