//! Bounds-checked handles over blocks of foreign memory.
//!
//! A block of foreign memory is known by the address of its first element and
//! by the elements that live there. The address is an integer that is never
//! zero; the elements are lent to the handle as a slice, so that the compiler
//! ties every handle to the memory it looks at.
//!
//! [`CVec`] is the owning handle: it alone knows how to give the memory back,
//! by running a release action once. [`CSlice`] and [`CSliceMut`] are the
//! read-only and the mutable view; they never release anything.

pub mod c_slice;
pub mod c_vec;
pub mod model;

pub use c_slice::CSlice;
pub use c_slice::CSliceIter;
pub use c_slice::CSliceMut;
pub use c_slice::CSliceMutIter;
pub use c_slice::CSliceMutIterMut;
pub use c_vec::CVec;
pub use c_vec::CVecIter;
pub use c_vec::CVecIterMut;
