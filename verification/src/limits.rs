//! The element limit shared by the containers of this crate.
use vstd::layout::size_of;
use vstd::prelude::*;

verus! {

/// The most elements a container of `T` can hold: `(isize::MAX - 1) / size_of::<T>()`,
/// or `isize::MAX` for a type without size.
pub open spec fn max_len<T>() -> nat {
    if size_of::<T>() == 0 {
        isize::MAX as nat
    } else {
        ((isize::MAX - 1) / (size_of::<T>() as int)) as nat
    }
}

/// Computes `max_len::<T>()`.
pub fn max_len_of<T>() -> (r: usize)
    ensures
        r == max_len::<T>(),
        r <= isize::MAX,
{
    let size = core::mem::size_of::<T>();
    if size == 0 {
        isize::MAX as usize
    } else {
        let top: usize = isize::MAX as usize - 1;
        assert(top / size <= top) by (nonlinear_arith)
            requires size > 0;
        top / size
    }
}

} // verus!
