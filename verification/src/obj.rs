//! The engine-side object model this layer consumes: class metadata, the
//! subclass relation, and the managed handle types.
//!
//! A class is identified by a registry id. Its *ancestry* is the sequence of
//! ids of the class itself (first) and all of its superclasses. An object's
//! dynamic class is compatible with an expected class exactly when the
//! expected class's id occurs in the object's ancestry.

use vstd::prelude::*;
use crate::meta::ClassName;
use core::marker::PhantomData;

verus! {

/// An engine class known to the class-metadata registry.
pub trait GodotClass: Sized {
    /// Registry id of this class.
    spec fn class_id_spec() -> u64;

    /// Ids of this class and all its superclasses, this class first.
    spec fn ancestry_spec() -> Seq<u64>;

    /// Human-readable class name.
    spec fn name_spec() -> Seq<char>;

    /// Every class heads its own ancestry.
    proof fn ancestry_facts()
        ensures
            Self::ancestry_spec().len() > 0,
            Self::ancestry_spec()[0] == Self::class_id_spec(),
    ;

    fn class_id() -> (r: u64)
        ensures
            r == Self::class_id_spec(),
    ;

    fn class_name() -> (r: ClassName)
        ensures
            r.id == Self::class_id_spec(),
            r.name@ == Self::name_spec(),
    ;
}

/// Marker that class `Self` is `T` or a subclass of `T`: `T`'s id occurs in
/// `Self`'s ancestry. Reflexive by the blanket implementation below.
pub trait Inherits<T: GodotClass>: GodotClass {
    proof fn inherits_fact()
        ensures
            Self::ancestry_spec().contains(T::class_id_spec()),
    ;
}

impl<T: GodotClass> Inherits<T> for T {
    proof fn inherits_fact() {
        T::ancestry_facts();
        assert(T::ancestry_spec().contains(T::class_id_spec())) by {
            assert(T::ancestry_spec()[0] == T::class_id_spec());
        }
    }
}

/// One dynamic ancestry covers a static one when every id of the static
/// ancestry occurs in the dynamic one: the object's actual class descends
/// from the statically declared one.
pub open spec fn ancestry_covers(dynamic: Seq<u64>, declared: Seq<u64>) -> bool {
    forall|i: int| 0 <= i < declared.len() ==> dynamic.contains(declared[i])
}

/// Low-level handle to an engine-side object of declared class `T`: the
/// object's raw pointer (0 when null) plus the ancestry of its dynamic
/// class, as the class-metadata registry reports it.
///
/// Lifecycle is governed outside this layer; this layer only reads the
/// pointer and queries the dynamic class.
pub struct RawGd<T: GodotClass> {
    pub object_ptr: usize,
    pub dynamic_ancestry: Vec<u64>,
    pub _marker: PhantomData<T>,
}

impl<T: GodotClass> RawGd<T> {
    pub open spec fn ptr_spec(&self) -> usize {
        self.object_ptr
    }

    pub open spec fn ancestry_spec(&self) -> Seq<u64> {
        self.dynamic_ancestry@
    }

    /// Handle invariant: a non-null object's dynamic class is `T` or a
    /// subclass of `T`.
    pub open spec fn wf(&self) -> bool {
        self.object_ptr != 0 ==> ancestry_covers(self.dynamic_ancestry@, T::ancestry_spec())
    }

    /// A handle holding no object.
    pub fn null() -> (r: Self)
        ensures
            r.ptr_spec() == 0,
            r.wf(),
    {
        RawGd { object_ptr: 0, dynamic_ancestry: Vec::new(), _marker: PhantomData }
    }

    /// Re-assemble a handle from what the engine reports about an object:
    /// its address and its dynamic class's ancestry.
    pub fn from_parts(object_ptr: usize, dynamic_ancestry: Vec<u64>) -> (r: Self)
        requires
            object_ptr != 0 ==> ancestry_covers(dynamic_ancestry@, T::ancestry_spec()),
        ensures
            r.ptr_spec() == object_ptr,
            r.ancestry_spec() == dynamic_ancestry@,
            r.wf(),
    {
        RawGd { object_ptr, dynamic_ancestry, _marker: PhantomData }
    }

    pub fn is_null(&self) -> (r: bool)
        ensures
            r == (self.ptr_spec() == 0),
    {
        self.object_ptr == 0
    }

    /// The raw pointer, as handed to the foreign ABI.
    pub fn obj_sys(&self) -> (r: usize)
        ensures
            r == self.ptr_spec(),
    {
        self.object_ptr
    }

    /// Dynamic-class compatibility check: walk the object's ancestry for the
    /// expected class's id, as the class-metadata registry would.
    pub fn is_instance_of(&self, class_id: u64) -> (r: bool)
        ensures
            r == self.ancestry_spec().contains(class_id),
    {
        let mut i: usize = 0;
        while i < self.dynamic_ancestry.len()
            invariant
                0 <= i <= self.dynamic_ancestry.len(),
                forall|j: int| 0 <= j < i ==> self.dynamic_ancestry@[j] != class_id,
            decreases self.dynamic_ancestry.len() - i,
        {
            if self.dynamic_ancestry[i] == class_id {
                return true;
            }
            i = i + 1;
        }
        false
    }
}

/// Managed handle to an engine-side object of declared class `T`. Owns (or
/// borrows) the object on behalf of the caller; this layer never touches its
/// refcount, it only derives argument views from it.
pub struct Gd<T: GodotClass> {
    pub raw: RawGd<T>,
}

impl<T: GodotClass> Gd<T> {
    pub open spec fn raw_spec(&self) -> RawGd<T> {
        self.raw
    }

    pub open spec fn ptr_spec(&self) -> usize {
        self.raw.ptr_spec()
    }

    pub open spec fn ancestry_spec(&self) -> Seq<u64> {
        self.raw.ancestry_spec()
    }

    pub open spec fn wf(&self) -> bool {
        self.raw.wf()
    }

    pub fn from_raw(raw: RawGd<T>) -> (r: Self)
        ensures
            r.raw_spec() == raw,
    {
        Gd { raw }
    }

    /// The handle's low-level part, for deriving an argument view.
    pub fn raw_gd(&self) -> (r: &RawGd<T>)
        ensures
            *r == self.raw_spec(),
    {
        &self.raw
    }

    pub fn is_null(&self) -> (r: bool)
        ensures
            r == (self.ptr_spec() == 0),
    {
        self.raw.is_null()
    }
}

} // verus!
