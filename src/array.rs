use crate::into_iter::IntoIter;
use crate::uninit::MaybeUninit;
use vstd::layout::size_of;
use vstd::prelude::*;
use vstd::std_specs::iter::IteratorSpec;

verus! {

/// Whether a block of `len` elements of `T` has a byte size that a memory
/// layout can describe.
pub open spec fn layout_fits<T>(len: nat) -> bool {
    len * size_of::<T>() <= isize::MAX
}

/// The elements a slice shows, in order.
pub open spec fn slice_view<T>(s: &[T]) -> Seq<T> {
    s@
}

/// Moves the elements of `v` into a new vector, last one first.
pub(crate) fn reversed<T>(v: Vec<T>) -> (r: Vec<T>)
    ensures
        r@ == v@.reverse(),
{
    let ghost orig = v@;
    let mut v = v;
    let mut r: Vec<T> = Vec::new();
    while v.len() > 0
        invariant
            v@ == orig.take(v@.len() as int),
            v@.len() <= orig.len(),
            r@.len() == orig.len() - v@.len(),
            forall|j: int| 0 <= j < r@.len() ==> #[trigger] r@[j] == orig[orig.len() - 1 - j],
        decreases v@.len(),
    {
        if let Some(x) = v.pop() {
            r.push(x);
        }
    }
    assert(r@ =~= orig.reverse());
    r
}

/// Relies on `Iterator::size_hint`: the bounds the producer reports on how
/// many items it has left. An implementation may report any bounds, so
/// nothing is promised of them.
#[verifier::external_body]
fn reported_bounds<I: Iterator>(iter: &I) -> (r: (usize, Option<usize>)) {
    iter.size_hint()
}

/// A fixed-length array that exclusively owns its elements.
///
/// Its length never changes after construction. Dropping it drops every
/// element in ascending index order and then releases the block.
#[derive(Debug)]
pub struct DynArray<T> {
    data: Vec<T>,
}

impl<T> View for DynArray<T> {
    type V = Seq<T>;

    closed spec fn view(&self) -> Seq<T> {
        self.data@
    }
}

impl<T> DynArray<T> {
    /// Rebuilds an array from the parts that [`DynArray::into_parts`] gave:
    /// the owned block of elements and its length.
    pub fn from_parts(block: Vec<T>, len: usize) -> (r: Self)
        requires
            block@.len() == len,
        ensures
            r@ == block@,
    {
        DynArray { data: block }
    }

    /// Hands the owned block and its length to the caller; no element is
    /// dropped.
    pub fn into_parts(self) -> (r: (Vec<T>, usize))
        ensures
            r.0@ == self@,
            r.1 == self@.len(),
    {
        let len = self.data.len();
        (self.data, len)
    }

    /// Allocates `len` slots with nothing written to them yet.
    pub fn new_uninit(len: usize) -> (r: DynArray<MaybeUninit<T>>)
        requires
            layout_fits::<T>(len as nat),
        ensures
            r@.len() == len,
            forall|i: int| 0 <= i < len ==> #[trigger] r@[i] is Uninit,
    {
        let mut data: Vec<MaybeUninit<T>> = Vec::with_capacity(len);
        let mut i: usize = 0;
        while i < len
            invariant
                i <= len,
                data@.len() == i,
                forall|j: int| 0 <= j < i ==> #[trigger] data@[j] is Uninit,
            decreases len - i,
        {
            data.push(MaybeUninit::uninit());
            i = i + 1;
        }
        DynArray { data }
    }

    /// Allocates `len` slots, writes `T`'s default value into each one in
    /// index order, and converts the result to an initialized array.
    pub fn new(len: usize) -> (r: Self)
        where T: Default,
        requires
            layout_fits::<T>(len as nat),
        ensures
            r@.len() == len,
            forall|i: int| 0 <= i < len ==> T::default.ensures((), #[trigger] r@[i]),
    {
        let mut slots = Self::new_uninit(len);
        let mut i: usize = 0;
        while i < len
            invariant
                i <= len,
                slots@.len() == len,
                forall|j: int|
                    0 <= j < i ==> (#[trigger] slots@[j] is Init && T::default.ensures(
                        (),
                        slots@[j]->Init_0,
                    )),
            decreases len - i,
        {
            slots.write(i, T::default());
            i = i + 1;
        }
        slots.assume_init()
    }

    /// Clones each element of `src`, in order, into a new array.
    pub fn from_slice(src: &[T]) -> (r: Self)
        where T: Clone,
        ensures
            r@.len() == src@.len(),
            forall|i: int| 0 <= i < src@.len() ==> cloned(src@[i], #[trigger] r@[i]),
    {
        let n = src.len();
        let mut data: Vec<T> = Vec::with_capacity(n);
        let mut i: usize = 0;
        while i < n
            invariant
                n == src@.len(),
                i <= n,
                data@.len() == i,
                forall|j: int| 0 <= j < i ==> cloned(src@[j], #[trigger] data@[j]),
            decreases n - i,
        {
            data.push(src[i].clone());
            i = i + 1;
        }
        DynArray { data }
    }

    /// Builds an array from a producer that reports exactly how many items
    /// it has left.
    ///
    /// The count is read from the producer's `size_hint`, whose lower and
    /// upper bound an exact-size producer gives as the same number. Where
    /// the bounds differ, or the producer then yields fewer or more items
    /// than that count, the producer has broken its contract: that failure,
    /// fatal for a producer of this kind, is returned as `None`.
    pub fn from_iter<I: ExactSizeIterator<Item = T>>(iter: I) -> (r: Option<Self>)
        ensures
            iter.obeys_prophetic_iter_laws() ==> (r matches Some(a) ==> a@ == iter.remaining()),
    {
        match reported_bounds(&iter) {
            (lower, Some(upper)) => {
                if lower == upper {
                    Self::from_counted_iter(lower, iter)
                } else {
                    None
                }
            },
            (_, None) => None,
        }
    }

    /// Pulls `count` items from `iter`, in order, into a new array, then
    /// checks that `iter` has nothing more. `None` when `iter` runs out
    /// early or has items left over.
    pub fn from_counted_iter<I: Iterator<Item = T>>(count: usize, iter: I) -> (r: Option<Self>)
        ensures
            iter.obeys_prophetic_iter_laws() ==> {
                &&& (r is Some <==> iter.remaining().len() == count)
                &&& (r matches Some(a) ==> a@ == iter.remaining())
            },
    {
        let mut it = iter;
        let mut data: Vec<T> = Vec::new();
        let mut i: usize = 0;
        while i < count
            invariant
                i <= count,
                data@.len() == i,
                it.obeys_prophetic_iter_laws() == iter.obeys_prophetic_iter_laws(),
                iter.obeys_prophetic_iter_laws() ==> {
                    &&& i <= iter.remaining().len()
                    &&& it.remaining() == iter.remaining().skip(i as int)
                    &&& data@ == iter.remaining().take(i as int)
                },
            decreases count - i,
        {
            match it.next() {
                Some(x) => {
                    proof {
                        if iter.obeys_prophetic_iter_laws() {
                            assert(iter.remaining().take(i + 1) =~= data@.push(x));
                        }
                    }
                    data.push(x);
                    i = i + 1;
                },
                None => {
                    proof {
                        if iter.obeys_prophetic_iter_laws() {
                            assert(iter.remaining().skip(i as int).len() == 0);
                        }
                    }
                    return None;
                },
            }
        }
        match it.next() {
            Some(_) => None,
            None => {
                proof {
                    if iter.obeys_prophetic_iter_laws() {
                        assert(data@ =~= iter.remaining());
                    }
                }
                Some(DynArray { data })
            },
        }
    }

    /// Takes over the block of a boxed slice; no element is copied.
    pub fn from_boxed_slice(block: Box<[T]>) -> (r: Self)
        ensures
            r@ == block@,
    {
        DynArray { data: block.into_vec() }
    }

    /// Takes ownership of the elements of a fixed-size array, moving them
    /// onto the heap in their order.
    pub fn from_array<const N: usize>(elems: [T; N]) -> (r: Self)
        ensures
            r@ == elems@,
    {
        let block: Box<[T]> = Box::new(elems);
        DynArray::from_boxed_slice(block)
    }

    /// A read-only view of the elements.
    pub fn as_slice(&self) -> (r: &[T])
        ensures
            r@ == self@,
    {
        self.data.as_slice()
    }

    /// A mutable view of the elements; writes through it land in the array.
    pub fn as_mut_slice(&mut self) -> (r: &mut [T])
        ensures
            r@ == old(self)@,
            final(r)@ == final(self)@,
    {
        self.data.as_mut_slice()
    }

    /// Hands every element over to a consuming iterator, which yields them
    /// by value in index order.
    pub fn into_iter(self) -> (r: IntoIter<T>)
        ensures
            r.wf(),
            r.source() == self@,
            r.pos() == 0,
    {
        IntoIter::new(self.data)
    }

    /// The number of elements.
    pub fn len(&self) -> (r: usize)
        ensures
            r == self@.len(),
    {
        self.data.len()
    }

    /// Whether the array has no elements.
    pub fn is_empty(&self) -> (r: bool)
        ensures
            r == (self@.len() == 0),
    {
        self.data.len() == 0
    }
}

/// Decomposing an array into its block and length and rebuilding it from
/// those same parts is accepted by `from_parts` and gives back an array of
/// the same length holding the same elements in the same order: none dropped,
/// none duplicated.
pub proof fn lemma_parts_round_trip<T>(a: DynArray<T>, parts: (Vec<T>, usize), b: DynArray<T>)
    requires
        parts.0@ == a@,
        parts.1 == a@.len(),
        b@ == parts.0@,
    ensures
        parts.0@.len() == parts.1,
        b@.len() == a@.len(),
        b@ == a@,
{
}

/// A copy made by `clone`, `from` on a slice or `from_slice` is independent of the original: after a new
/// value is written into element `i` of the original, the copy still has the
/// same length, its element `i` is still a clone of the value the original
/// held there, and every other element is still a clone of its counterpart.
pub proof fn lemma_clone_independent<T: Clone>(
    orig: DynArray<T>,
    copy: DynArray<T>,
    i: int,
    value: T,
    written: DynArray<T>,
)
    requires
        copy@.len() == orig@.len(),
        forall|j: int| 0 <= j < orig@.len() ==> cloned(orig@[j], #[trigger] copy@[j]),
        0 <= i < orig@.len(),
        written@ == orig@.update(i, value),
    ensures
        written@[i] == value,
        copy@.len() == written@.len(),
        cloned(orig@[i], copy@[i]),
        forall|j: int| 0 <= j < written@.len() && j != i ==> cloned(written@[j], #[trigger] copy@[j]),
{
}

impl<T> Default for DynArray<T> {
    fn default() -> (r: Self)
        ensures
            r@.len() == 0,
    {
        DynArray::new_uninit(0).assume_init()
    }
}

impl<T: Clone> Clone for DynArray<T> {
    fn clone(&self) -> (r: Self)
        ensures
            r@.len() == self@.len(),
            forall|i: int| 0 <= i < self@.len() ==> cloned(self@[i], #[trigger] r@[i]),
    {
        DynArray::from_slice(self.as_slice())
    }
}

impl<T> core::ops::Deref for DynArray<T> {
    type Target = [T];

    fn deref(&self) -> (r: &[T])
        ensures
            r@ == self@,
    {
        self.as_slice()
    }
}

impl<T> core::ops::DerefMut for DynArray<T> {
    fn deref_mut(&mut self) -> (r: &mut [T])
        ensures
            r@ == old(self)@,
            final(r)@ == final(self)@,
    {
        self.as_mut_slice()
    }
}

impl<T> AsRef<[T]> for DynArray<T> {
    fn as_ref(&self) -> (r: &[T])
        ensures
            r@ == self@,
    {
        self.as_slice()
    }
}

impl<T> AsMut<[T]> for DynArray<T> {
    fn as_mut(&mut self) -> (r: &mut [T])
        ensures
            r@ == old(self)@,
            final(r)@ == final(self)@,
    {
        self.as_mut_slice()
    }
}

impl<T> core::borrow::Borrow<[T]> for DynArray<T> {
    fn borrow(&self) -> (r: &[T])
        ensures
            slice_view::<T>(r) == self@,
    {
        self.as_slice()
    }
}

impl<T> core::borrow::BorrowMut<[T]> for DynArray<T> {
    fn borrow_mut(&mut self) -> (r: &mut [T])
        ensures
            slice_view::<T>(r) == old(self)@,
            slice_view::<T>(final(r)) == final(self)@,
    {
        self.as_mut_slice()
    }
}

impl<'a, T: Clone> From<&'a [T]> for DynArray<T> {
    fn from(src: &'a [T]) -> (r: Self)
        ensures
            r@.len() == src@.len(),
            forall|i: int| 0 <= i < src@.len() ==> cloned(src@[i], #[trigger] r@[i]),
    {
        DynArray::from_slice(src)
    }
}

impl<T> From<Box<[T]>> for DynArray<T> {
    fn from(block: Box<[T]>) -> (r: Self)
        ensures
            r@ == block@,
    {
        DynArray::from_boxed_slice(block)
    }
}

impl<'a, T: Clone> From<&'a mut [T]> for DynArray<T> {
    fn from(src: &'a mut [T]) -> (r: Self)
        ensures
            r@.len() == old(src)@.len(),
            forall|i: int| 0 <= i < old(src)@.len() ==> cloned(old(src)@[i], #[trigger] r@[i]),
            final(src)@ == old(src)@,
    {
        DynArray::from_slice(&*src)
    }
}

impl<T, const N: usize> From<[T; N]> for DynArray<T> {
    fn from(elems: [T; N]) -> (r: Self)
        ensures
            r@ == elems@,
    {
        DynArray::from_array(elems)
    }
}

// What each `from` returns is stated in its `ensures`. There is no spec-level
// `from_spec` to offer beside it: an array holds a `Vec`, which no spec
// expression can build, and a clone is not determined by its source.
impl<'a, T: Clone> vstd::std_specs::convert::FromSpecImpl<&'a [T]> for DynArray<T> {
    open spec fn obeys_from_spec() -> bool {
        false
    }

    open spec fn from_spec(src: &'a [T]) -> Self {
        vstd::pervasive::arbitrary()
    }
}

impl<'a, T: Clone> vstd::std_specs::convert::FromSpecImpl<&'a mut [T]> for DynArray<T> {
    open spec fn obeys_from_spec() -> bool {
        false
    }

    open spec fn from_spec(src: &'a mut [T]) -> Self {
        vstd::pervasive::arbitrary()
    }
}

impl<T, const N: usize> vstd::std_specs::convert::FromSpecImpl<[T; N]> for DynArray<T> {
    open spec fn obeys_from_spec() -> bool {
        false
    }

    open spec fn from_spec(elems: [T; N]) -> Self {
        vstd::pervasive::arbitrary()
    }
}

impl<T> vstd::std_specs::convert::FromSpecImpl<Box<[T]>> for DynArray<T> {
    open spec fn obeys_from_spec() -> bool {
        false
    }

    open spec fn from_spec(block: Box<[T]>) -> Self {
        vstd::pervasive::arbitrary()
    }
}

impl<T> DynArray<MaybeUninit<T>> {
    /// Writes `value` into slot `i`.
    pub fn write(&mut self, i: usize, value: T)
        requires
            i < old(self)@.len(),
        ensures
            final(self)@ == old(self)@.update(i as int, MaybeUninit::Init(value)),
    {
        self.data.set(i, MaybeUninit::new(value));
    }

    /// Converts an array whose every slot has been written into an array of
    /// the written values, in the same order.
    pub fn assume_init(self) -> (r: DynArray<T>)
        requires
            forall|i: int| 0 <= i < self@.len() ==> #[trigger] self@[i] is Init,
        ensures
            r@.len() == self@.len(),
            forall|i: int| 0 <= i < self@.len() ==> self@[i] == MaybeUninit::Init(#[trigger] r@[i]),
    {
        let ghost slots = self@;
        let mut data: Vec<T> = Vec::with_capacity(self.data.len());
        for slot in it: self.data.into_iter()
            invariant
                it.seq() == slots,
                forall|i: int| 0 <= i < slots.len() ==> #[trigger] slots[i] is Init,
                data@.len() == it.index(),
                forall|j: int| 0 <= j < data@.len() ==> slots[j] == MaybeUninit::Init(#[trigger] data@[j]),
        {
            if let MaybeUninit::Init(v) = slot {
                data.push(v);
            }
        }
        DynArray { data }
    }
}

} // verus!
