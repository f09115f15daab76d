//! The allocator that containers use unless told otherwise.
use std::alloc::System;
use vstd::prelude::*;

verus! {

/// `std::alloc::System`, the allocator of the operating system; a unit handle.
#[verifier::external_type_specification]
#[verifier::external_body]
pub struct ExSystem(System);

/// `Default::default` for `System`, which hands out the unit handle; nothing more is claimed.
pub assume_specification[ <System as core::default::Default>::default ]() -> System;

} // verus!
