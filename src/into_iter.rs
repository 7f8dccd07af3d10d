use crate::array::reversed;
use vstd::prelude::*;

verus! {

/// A consuming iterator over the elements of a `DynArray`.
///
/// It owns every element it has not yet yielded; each call of `next` moves
/// the element at the cursor out to the caller. Dropping it before it is
/// exhausted drops the elements it still owns, so none of them is leaked.
pub struct IntoIter<T> {
    /// The elements not yet yielded, the next one last.
    rest: Vec<T>,
    /// The elements of the array it was made from.
    source: Ghost<Seq<T>>,
}

impl<T> IntoIter<T> {
    /// Well-formedness: `rest` holds exactly the source's elements past the
    /// cursor, in reverse.
    pub closed spec fn wf(self) -> bool {
        &&& self.rest@.len() <= self.source@.len()
        &&& self.rest@ == self.source@.skip(
            self.source@.len() - self.rest@.len(),
        ).reverse()
    }

    /// The elements of the array the iterator was made from, in order.
    pub closed spec fn source(self) -> Seq<T> {
        self.source@
    }

    /// The cursor: how many elements have been yielded.
    pub closed spec fn pos(self) -> nat {
        (self.source@.len() - self.rest@.len()) as nat
    }

    /// The elements yielded so far.
    pub open spec fn yielded(self) -> Seq<T> {
        self.source().take(self.pos() as int)
    }

    /// Whether the cursor has reached the end.
    pub open spec fn is_exhausted(self) -> bool {
        self.pos() >= self.source().len()
    }

    /// One call of `next` that starts in `self` ends in `post` and returns
    /// `r`: the element at the cursor and one step forward, or nothing and no
    /// change once exhausted.
    pub open spec fn steps_to(self, post: Self, r: Option<T>) -> bool {
        &&& post.source() == self.source()
        &&& if self.pos() < self.source().len() {
            &&& r == Some(self.source()[self.pos() as int])
            &&& post.pos() == self.pos() + 1
        } else {
            &&& r is None
            &&& post.pos() == self.pos()
        }
    }

    pub(crate) fn new(elems: Vec<T>) -> (r: Self)
        ensures
            r.wf(),
            r.source() == elems@,
            r.pos() == 0,
    {
        let ghost source = elems@;
        let rest = reversed(elems);
        assert(source.skip(0) =~= source);
        IntoIter { rest, source: Ghost(source) }
    }

    /// Yields the element at the cursor and advances, or `None` once every
    /// element has been yielded.
    pub fn next(&mut self) -> (r: Option<T>)
        requires
            old(self).wf(),
        ensures
            final(self).wf(),
            old(self).steps_to(*final(self), r),
    {
        let r = self.rest.pop();
        proof {
            let s = self.source@;
            let k = s.len() - old(self).rest@.len();
            if old(self).rest@.len() > 0 {
                assert(self.rest@ =~= s.skip(k + 1).reverse());
            }
        }
        r
    }
}

/// The position and source of the state after `k` steps of a run of `next`
/// calls that starts from a fresh iterator.
proof fn lemma_run_prefix<T>(states: Seq<IntoIter<T>>, outs: Seq<Option<T>>, k: int)
    requires
        states.len() == outs.len() + 1,
        states[0].pos() == 0,
        forall|j: int| 0 <= j < outs.len() ==> #[trigger] states[j].steps_to(states[j + 1], outs[j]),
        0 <= k <= outs.len(),
    ensures
        states[k].source() == states[0].source(),
        states[k].pos() == if k < states[0].source().len() {
            k
        } else {
            states[0].source().len() as int
        },
    decreases k,
{
    if k > 0 {
        let j = k - 1;
        lemma_run_prefix(states, outs, j);
        assert(states[j].steps_to(states[j + 1], outs[j]));
    }
}

/// Iterating to exhaustion: in a run of `next` calls that starts from a fresh
/// iterator, each call starting where the one before it ended, and that ends
/// exhausted, the calls hand out the array's elements exactly once each, in
/// index order, and nothing after them.
pub proof fn lemma_drain<T>(states: Seq<IntoIter<T>>, outs: Seq<Option<T>>)
    requires
        states.len() == outs.len() + 1,
        states[0].pos() == 0,
        forall|k: int| 0 <= k < outs.len() ==> #[trigger] states[k].steps_to(states[k + 1], outs[k]),
        states.last().is_exhausted(),
    ensures
        outs.len() >= states[0].source().len(),
        forall|k: int|
            0 <= k < outs.len() ==> #[trigger] outs[k] == if k < states[0].source().len() {
                Some(states[0].source()[k])
            } else {
                None
            },
        states.last().yielded() == states[0].source(),
{
    let n = states[0].source().len();
    lemma_run_prefix(states, outs, outs.len() as int);
    assert forall|k: int| 0 <= k < outs.len() implies #[trigger] outs[k] == if k < n {
        Some(states[0].source()[k])
    } else {
        None
    } by {
        lemma_run_prefix(states, outs, k);
        assert(states[k].steps_to(states[k + 1], outs[k]));
    }
    assert(states.last().yielded() =~= states[0].source());
}

} // verus!
