//! Marshalling layer for object arguments crossing a C-style foreign ABI.
//!
//! A managed handle to an engine-side object ([`obj::Gd`], [`obj::RawGd`]) is
//! converted into a non-owning, pointer-sized view ([`object_arg::ObjectArg`])
//! that is read by the foreign call dispatcher. The view is parameterized by
//! the statically expected class and is validated once, at construction, by a
//! dynamic-class compatibility check; everything downstream treats it as
//! pre-validated. The view only ever flows in the native-to-foreign direction:
//! every foreign-to-native entry point carries an unsatisfiable precondition.

pub mod classes;
pub mod meta;
pub mod obj;
pub mod object_arg;
