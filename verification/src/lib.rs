//! A byte-addressed owning buffer for foreign structures whose true size is
//! only known at run time: a fixed-size header of a nominal type `T` followed
//! by a trailing variable-length array.
pub mod vsb;

pub use vsb::{FieldPtr, VariableSizedBox};
