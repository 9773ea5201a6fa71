use crate::classification::{classifies, lemma_classification, lemma_fifteen, FizzOrBuzz};
use crate::numeric::{Five, Inc, Numeric, Three, Zero};
use vstd::prelude::*;

verus! {

/// A generator of classifications for the indices from a start up to an
/// inclusive end, one index at a time.
pub struct FizzBuzz<T> {
    index: T,
    end: T,
}

/// How many indices are left from `first` up to the exclusive bound `stop`.
pub open spec fn remaining(first: int, stop: int) -> nat {
    if first < stop {
        (stop - first) as nat
    } else {
        0
    }
}

/// `s` is the sequence produced from index `first` up to the exclusive bound
/// `stop`: one classification per index, in ascending order.
pub open spec fn produces<T: Numeric>(s: Seq<FizzOrBuzz<T>>, first: int, stop: int) -> bool {
    &&& s.len() == remaining(first, stop)
    &&& forall|k: int| 0 <= k < s.len() ==> classifies(#[trigger] s[k], first + k)
}

/// The sequence for the inclusive range `start..=end` holds one element per
/// index, `end - start + 1` in all, and none when `start > end`.
pub proof fn lemma_length<T: Numeric>(s: Seq<FizzOrBuzz<T>>, start: int, end: int)
    requires
        produces(s, start, end + 1),
    ensures
        start <= end ==> s.len() == end - start + 1,
        start > end ==> s.len() == 0,
{
}

/// Each produced element at position `k` stands for index `first + k`: it is
/// `FizzBuzz` exactly when fifteen divides the index, `Fizz` when three does
/// and five does not, `Buzz` when five does and three does not, and the number
/// itself otherwise.
pub proof fn lemma_produced_classification<T: Numeric>(
    s: Seq<FizzOrBuzz<T>>,
    first: int,
    stop: int,
    k: int,
)
    requires
        produces(s, first, stop),
        0 <= k < s.len(),
    ensures
        (s[k] is FizzBuzz) == ((first + k) % 15 == 0),
        (s[k] is Fizz) == ((first + k) % 3 == 0 && (first + k) % 5 != 0),
        (s[k] is Buzz) == ((first + k) % 5 == 0 && (first + k) % 3 != 0),
        (s[k] is Number) == ((first + k) % 3 != 0 && (first + k) % 5 != 0),
        s[k] is Number ==> s[k]->Number_0.value() == first + k,
{
    lemma_classification(s[k], first + k);
}

/// The produced elements follow the indices in strictly ascending order with
/// no index skipped: the element at position `k` stands for `first + k`, the
/// last one for `stop - 1`, and the numbers among them ascend strictly.
pub proof fn lemma_ascending<T: Numeric>(s: Seq<FizzOrBuzz<T>>, first: int, stop: int)
    requires
        produces(s, first, stop),
    ensures
        s.len() > 0 ==> first + s.len() - 1 == stop - 1,
        forall|k: int|
            0 <= k < s.len() && s[k] is Number ==> #[trigger] s[k]->Number_0.value() == first
                + k,
        forall|j: int, k: int|
            0 <= j < k < s.len() && s[j] is Number && s[k] is Number
                ==> #[trigger] s[j]->Number_0.value() < #[trigger] s[k]->Number_0.value(),
{
    assert forall|k: int| 0 <= k < s.len() && s[k] is Number implies #[trigger] s[k]->Number_0.value()
        == first + k by {
        assert(classifies(s[k], first + k));
    }
}

impl<T: Numeric> FizzBuzz<T> {
    /// The next index to classify.
    pub closed spec fn first(&self) -> int {
        self.index.value()
    }

    /// The exclusive bound: one past the inclusive end.
    pub closed spec fn stop(&self) -> int {
        self.end.value()
    }
}

impl<T: Numeric + Inc<Output = T> + Zero + Three + Five> FizzBuzz<T> {
    /// A generator for the indices from `start` to `end`, both included; it
    /// produces nothing when `start > end`.
    pub fn new(start: T, end: T) -> (r: FizzBuzz<T>)
        requires
            end.value() < T::greatest(),
        ensures
            r.first() == start.value(),
            r.stop() == end.value() + 1,
    {
        FizzBuzz { index: start, end: end.inc() }
    }

    /// Produces the classification of the current index and moves to the
    /// next one, or `None` once the end has been passed.
    pub fn next(&mut self) -> (r: Option<FizzOrBuzz<T>>)
        ensures
            final(self).stop() == old(self).stop(),
            old(self).first() >= old(self).stop() ==> (r is None && final(self).first()
                == old(self).first()),
            old(self).first() < old(self).stop() ==> (r is Some && classifies(
                r->Some_0,
                old(self).first(),
            ) && final(self).first() == old(self).first() + 1),
    {
        let rem_3 = self.index.rem(T::three());
        let rem_5 = self.index.rem(T::five());
        let result;
        if rem_3.equals(T::zero()) && rem_5.equals(T::zero()) {
            result = FizzOrBuzz::FizzBuzz;
        } else if rem_3.equals(T::zero()) {
            result = FizzOrBuzz::Fizz;
        } else if rem_5.equals(T::zero()) {
            result = FizzOrBuzz::Buzz;
        } else {
            result = FizzOrBuzz::Number(self.index);
        }
        proof {
            lemma_fifteen(self.index.value());
        }
        if self.index.at_least(self.end) {
            None
        } else {
            proof {
                T::lemma_at_most_greatest(self.end);
            }
            self.index = self.index.inc();
            Some(result)
        }
    }

    /// Drains the generator into a vector, in the order produced.
    pub fn to_vec(&mut self) -> (r: Vec<FizzOrBuzz<T>>)
        ensures
            produces(r@, old(self).first(), old(self).stop()),
            final(self).stop() == old(self).stop(),
            final(self).first() == if old(self).first() < old(self).stop() {
                old(self).stop()
            } else {
                old(self).first()
            },
    {
        let mut v = Vec::new();
        loop
            invariant
                self.stop() == old(self).stop(),
                old(self).first() < old(self).stop() ==> old(self).first() <= self.first(),
                old(self).first() < old(self).stop() ==> self.first() <= self.stop(),
                old(self).first() >= old(self).stop() ==> self.first() == old(self).first(),
                v.len() == remaining(old(self).first(), self.first()),
                forall|k: int|
                    0 <= k < v.len() ==> classifies(#[trigger] v@[k], old(self).first() + k),
            decreases remaining(self.first(), self.stop()),
        {
            match self.next() {
                Some(fb) => v.push(fb),
                None => return v,
            }
        }
    }
}

} // verus!
