//! The object header contract at the allocator's boundary.
//!
//! Every successful allocation is paired with an obligation on the caller:
//! before any other access, it writes a header at the returned address
//! describing the object's size, size class, type and mark state. The header
//! format is owned by the runtime's object model, not by the allocator, so
//! these traits are declared here for that runtime to implement.

use vstd::prelude::*;
use crate::heap::SizeClass;

verus! {

/// Identifies an object's type to the runtime that owns the object model.
pub trait AllocTypeId: Copy + Clone {

}

/// Implemented by values the runtime may place on the heap, tying each to
/// its type identifier.
pub trait AllocObject<TypeId> {

}

/// Mark state of an object header; objects start unmarked and are marked
/// live during a collection pass.
pub struct Mark {}

/// Size field of an array object's header.
pub struct ArraySize {}

/// The header the runtime writes at every returned address: object size,
/// size class, type identifier and mark bit.
pub trait AllocHeader: Sized {
    /// The runtime's type identifier.
    type TypeId: AllocTypeId;

    /// Builds the header for an object of the given size and class.
    fn new<O: AllocObject<Self::TypeId>>(size: u32, size_class: SizeClass, mark: Mark) -> Self;

    /// Builds the header for an array of the given size and class.
    fn new_array(size: ArraySize, size_class: SizeClass, mark: Mark) -> Self;

    /// Marks the object live.
    fn mark(&mut self);

    /// Whether the object is marked live.
    fn is_marked(&self) -> bool;

    /// The size class recorded at allocation.
    fn size_class(&self) -> SizeClass;

    /// The object's size in bytes.
    fn size(&self) -> u32;

    /// The object's type identifier.
    fn type_id(&self) -> Self::TypeId;
}

} // verus!
