# cstl

A vector (`vec::CxxVec`) and a doubly-ended list (`list::CxxList`) that behave like the
C++ standard library's `std::vector` and `std::list`, with every operation specified over
sequences and verified with [Verus](https://github.com/verus-lang/verus).

- `src/vec/`: the vector, its owning iterator, and the laws that relate its operations.
- `src/list/`: the list, its iterators, and its laws.
- `src/order.rs`, `src/lexico.rs`: lexicographic order (partial and total) and
  element-wise equality of sequences, shared by both containers, with their laws.
- `src/iterate.rs`: what successive calls of an iterator's `next` yield, with its laws.
- `src/elems.rs`: read access by position to the element storage.
- `src/limits.rs`: the element limit of a container of `T`.
- `src/sysalloc.rs`: the system allocator handle used by default.
- `app/`: raw-pointer access, `Debug` and `Hash` helpers, standard `Iterator` adapters
  and bulk extension, which the verified library does not take.
- `tests/`: executable tests of both containers.

Verify with `verus src/lib.rs --crate-type lib`.
