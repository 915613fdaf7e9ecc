use vstd::prelude::*;

verus! {

/// The number of samples an indicator looks back over.
pub trait Period {
    fn period(&self) -> usize;
}

/// An indicator that takes one sample at a time and returns its value after it.
pub trait Next<T> {
    type Output;

    fn next(&mut self, input: T) -> Self::Output;
}

} // verus!
