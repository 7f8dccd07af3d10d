use vstd::prelude::*;

verus! {

/// A slot that has been allocated but may not hold a value yet.
pub enum MaybeUninit<T> {
    Uninit,
    Init(T),
}

impl<T> MaybeUninit<T> {
    /// A slot with nothing written to it.
    pub fn uninit() -> (r: Self)
        ensures
            r is Uninit,
    {
        MaybeUninit::Uninit
    }

    /// A slot that already holds `value`.
    pub fn new(value: T) -> (r: Self)
        ensures
            r == MaybeUninit::Init(value),
    {
        MaybeUninit::Init(value)
    }

    /// Writes `value` into the slot; whatever it held before is dropped.
    pub fn write(&mut self, value: T)
        ensures
            *final(self) == MaybeUninit::Init(value),
    {
        *self = MaybeUninit::Init(value);
    }

    pub fn is_init(&self) -> (r: bool)
        ensures
            r == (*self is Init),
    {
        match self {
            MaybeUninit::Init(_) => true,
            MaybeUninit::Uninit => false,
        }
    }
}

} // verus!
