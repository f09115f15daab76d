//! A vector and a list that behave like the C++ standard library's `std::vector` and
//! `std::list`, specified over sequences and verified with Verus.
//!
//! Both carry an allocator handle, which `allocator()` hands back, and refuse to grow past
//! `limits::max_len::<T>()` elements: an operation that would do so leaves the container
//! as it was. The handle is not used to allocate: the elements live in memory from the
//! global allocator.

pub mod elems;
pub mod iterate;
pub mod lexico;
pub mod limits;
pub mod list;
pub mod order;
pub mod sysalloc;
pub mod vec;
