//! An allocation-reuse layer: a family of recyclers, one per value shape,
//! that let a caller return ("recycle") a no-longer-needed container value so
//! its backing storage can satisfy a later request ("recreate"), instead of
//! allocating afresh. Recyclers for compound shapes (sequences, optionals,
//! tuples) compose recursively out of recyclers for their parts.

pub mod optional;
pub mod recycler;
pub mod sequence;
pub mod text;
pub mod trash;
pub mod tuples;

pub use crate::optional::OptionRecycler;
pub use crate::recycler::Recyclable;
pub use crate::recycler::Recycler;
pub use crate::recycler::make_recycler;
pub use crate::sequence::VecRecycler;
pub use crate::text::StringRecycler;
pub use crate::trash::TrashRecycler;
