//! The argument view: a non-owning, copyable stand-in for an object argument
//! crossing the foreign boundary, and the conversion capability that
//! produces one from a handle, an optional handle, or the null marker.

use vstd::prelude::*;
use vstd::pervasive::unreached;
use core::marker::PhantomData;
use crate::meta::{
    AbiRevision, ArgSlot, ClassName, ConvertError, FromGodot, GodotConvert, GodotFfi,
    GodotFfiVariant, GodotNullableFfi, GodotType, PtrcallType, ToGodot, Variant, VariantType,
};
use crate::obj::{Gd, GodotClass, Inherits, RawGd};

verus! {

/// Explicit `null` for an object parameter slot, without wrapping in
/// `Option`. A stateless marker; it exists only to be converted.
pub struct NullArg;

/// Non-owning view over a raw object pointer, tagged with the statically
/// expected class `T`.
///
/// The pointer is either null or refers to an object whose dynamic class is
/// `T` or a subclass of `T`; the check is made once, at construction, and
/// the ghost ancestry of the pointee records its outcome. The view never
/// owns: copying it duplicates the pointer bitwise and has no lifetime side
/// effect. It flows only in the native-to-foreign direction.
pub struct ObjectArg<T: GodotClass> {
    pub object_ptr: usize,
    /// Ancestry of the pointee's dynamic class, recorded at construction;
    /// empty when the view was built as null.
    pub pointee_ancestry: Ghost<Seq<u64>>,
    pub _marker: PhantomData<T>,
}

impl<T: GodotClass> ObjectArg<T> {
    pub open spec fn ptr_spec(&self) -> usize {
        self.object_ptr
    }

    pub open spec fn ancestry_spec(&self) -> Seq<u64> {
        self.pointee_ancestry@
    }

    pub open spec fn is_null_spec(&self) -> bool {
        self.object_ptr == 0
    }

    /// View invariant: a non-null pointee's dynamic class is `T` or a
    /// subclass of `T`. Established at construction, never re-checked.
    pub open spec fn wf(&self) -> bool {
        self.object_ptr != 0 ==> self.pointee_ancestry@.contains(T::class_id_spec())
    }

    /// Derive a view from a handle whose declared class inherits `T`.
    ///
    /// The handle must be null or hold an object whose dynamic class is
    /// compatible with `T`; a non-null handle of an unrelated dynamic class
    /// signals that static typing and runtime state have diverged, which is
    /// a contract violation of the caller, not a recoverable condition.
    pub fn from_raw_gd<Derived: Inherits<T>>(obj: &RawGd<Derived>) -> (r: Self)
        requires
            obj.ptr_spec() == 0 || obj.ancestry_spec().contains(T::class_id_spec()),
        ensures
            r.ptr_spec() == obj.ptr_spec(),
            r.is_null_spec() == (obj.ptr_spec() == 0),
            r.ancestry_spec() == obj.ancestry_spec(),
            r.wf(),
    {
        if !obj.is_null() {
            let compatible = obj.is_instance_of(T::class_id());
            if !compatible {
                return unreached();
            }
        }
        ObjectArg {
            object_ptr: obj.obj_sys(),
            pointee_ancestry: Ghost(obj.ancestry_spec()),
            _marker: PhantomData,
        }
    }

    /// A null view: the null pointer trivially satisfies the invariant, so
    /// no compatibility check is made.
    pub fn null() -> (r: Self)
        ensures
            r.ptr_spec() == 0,
            r.is_null_spec(),
            r.ancestry_spec() == Seq::<u64>::empty(),
            r.wf(),
    {
        ObjectArg {
            object_ptr: 0,
            pointee_ancestry: Ghost(Seq::empty()),
            _marker: PhantomData,
        }
    }

    pub fn is_null(&self) -> (r: bool)
        ensures
            r == self.is_null_spec(),
    {
        self.object_ptr == 0
    }
}

impl<T: GodotClass> Clone for ObjectArg<T> {
    /// Bitwise duplication of the pointer: the copy is indistinguishable
    /// from the source, and taking it has no effect on the source.
    fn clone(&self) -> (r: Self)
        ensures
            r == *self,
    {
        ObjectArg {
            object_ptr: self.object_ptr,
            pointee_ancestry: self.pointee_ancestry,
            _marker: PhantomData,
        }
    }
}

/// Values that can stand in for an object argument of expected class `T`:
/// owned handles, borrowed handles, optional handles, and the null marker,
/// all converging on production of an [`ObjectArg<T>`].
pub trait AsObjectArg<T: GodotClass>: Sized {
    /// What the conversion demands of the source: a handle must satisfy its
    /// own invariant; the null marker and an absent option demand nothing.
    spec fn arg_wf(&self) -> bool;

    /// The pointer the produced view will expose.
    spec fn arg_ptr_spec(&self) -> usize;

    /// The pointee ancestry the produced view will record.
    spec fn arg_ancestry_spec(&self) -> Seq<u64>;

    fn as_object_arg(&self) -> (r: ObjectArg<T>)
        requires
            self.arg_wf(),
        ensures
            r.ptr_spec() == self.arg_ptr_spec(),
            r.is_null_spec() == (self.arg_ptr_spec() == 0),
            r.ancestry_spec() == self.arg_ancestry_spec(),
            r.wf(),
    ;
}

impl<T, U> AsObjectArg<T> for Gd<U> where T: GodotClass, U: Inherits<T> {
    open spec fn arg_wf(&self) -> bool {
        self.wf()
    }

    open spec fn arg_ptr_spec(&self) -> usize {
        self.ptr_spec()
    }

    open spec fn arg_ancestry_spec(&self) -> Seq<u64> {
        self.ancestry_spec()
    }

    fn as_object_arg(&self) -> (r: ObjectArg<T>) {
        proof {
            if self.ptr_spec() != 0 {
                <U as Inherits<T>>::inherits_fact();
                let k = choose|k: int|
                    0 <= k < U::ancestry_spec().len()
                        && U::ancestry_spec()[k] == T::class_id_spec();
                assert(self.ancestry_spec().contains(U::ancestry_spec()[k]));
            }
        }
        ObjectArg::from_raw_gd(self.raw_gd())
    }
}

impl<T, U> AsObjectArg<T> for &Gd<U> where T: GodotClass, U: Inherits<T> {
    open spec fn arg_wf(&self) -> bool {
        self.wf()
    }

    open spec fn arg_ptr_spec(&self) -> usize {
        self.ptr_spec()
    }

    open spec fn arg_ancestry_spec(&self) -> Seq<u64> {
        self.ancestry_spec()
    }

    fn as_object_arg(&self) -> (r: ObjectArg<T>) {
        <Gd<U> as AsObjectArg<T>>::as_object_arg(*self)
    }
}

impl<T, U> AsObjectArg<T> for Option<U> where T: GodotClass, U: AsObjectArg<T> {
    open spec fn arg_wf(&self) -> bool {
        match self {
            Some(v) => v.arg_wf(),
            None => true,
        }
    }

    open spec fn arg_ptr_spec(&self) -> usize {
        match self {
            Some(v) => v.arg_ptr_spec(),
            None => 0,
        }
    }

    open spec fn arg_ancestry_spec(&self) -> Seq<u64> {
        match self {
            Some(v) => v.arg_ancestry_spec(),
            None => Seq::empty(),
        }
    }

    fn as_object_arg(&self) -> (r: ObjectArg<T>) {
        match self {
            Some(v) => v.as_object_arg(),
            None => ObjectArg::null(),
        }
    }
}

impl<T: GodotClass> AsObjectArg<T> for NullArg {
    open spec fn arg_wf(&self) -> bool {
        true
    }

    open spec fn arg_ptr_spec(&self) -> usize {
        0
    }

    open spec fn arg_ancestry_spec(&self) -> Seq<u64> {
        Seq::empty()
    }

    fn as_object_arg(&self) -> (r: ObjectArg<T>) {
        ObjectArg::null()
    }
}

impl<T: GodotClass> GodotFfi for ObjectArg<T> {
    open spec fn inbound_allowed() -> bool {
        false
    }

    open spec fn variant_type_spec() -> VariantType {
        VariantType::Object
    }

    open spec fn sys_spec(&self) -> usize {
        self.object_ptr
    }

    fn variant_type() -> (r: VariantType) {
        VariantType::Object
    }

    fn new_from_sys(_sys_ptr: usize) -> (r: Self) {
        unreached()
    }

    fn new_with_uninit(_written: usize) -> (r: Self) {
        unreached()
    }

    fn new_with_init(_written: usize) -> (r: Self) {
        unreached()
    }

    fn sys(&self) -> (r: usize) {
        self.object_ptr
    }

    fn sys_mut(&mut self) -> (r: usize) {
        self.object_ptr
    }

    fn as_arg_ptr(&self, abi: AbiRevision) -> (r: ArgSlot) {
        match abi {
            AbiRevision::Legacy => ArgSlot::Direct { object_ptr: self.object_ptr },
            AbiRevision::Current => ArgSlot::Indirect { object_ptr: self.object_ptr },
        }
    }

    fn from_arg_ptr(_sys_ptr: usize, _call_type: PtrcallType) -> (r: Self) {
        unreached()
    }

    fn move_return_ptr(self, _sys_ptr: usize, _call_type: PtrcallType) {
        unreached()
    }
}

impl<T: GodotClass> GodotConvert for ObjectArg<T> {
    type Via = Self;
}

impl<T: GodotClass> ToGodot for ObjectArg<T> {
    open spec fn to_godot_spec(&self) -> Self::Via {
        *self
    }

    fn to_godot(&self) -> (r: Self::Via) {
        self.clone()
    }

    fn into_godot(self) -> (r: Self::Via) {
        self
    }
}

impl<T: GodotClass> FromGodot for ObjectArg<T> {
    open spec fn from_godot_allowed() -> bool {
        false
    }

    fn try_from_godot(_via: Self::Via) -> (r: Result<Self, ConvertError>) {
        unreached()
    }
}

impl<T: GodotClass> GodotType for ObjectArg<T> {
    type Ffi = Self;

    open spec fn to_ffi_spec(&self) -> Self::Ffi {
        *self
    }

    open spec fn from_ffi_spec(ffi: Self::Ffi) -> Result<Self, ConvertError> {
        Ok(ffi)
    }

    open spec fn class_id_of_type() -> u64 {
        T::class_id_spec()
    }

    open spec fn type_name_spec() -> Seq<char> {
        T::name_spec()
    }

    fn to_ffi(&self) -> (r: Self::Ffi) {
        self.clone()
    }

    fn into_ffi(self) -> (r: Self::Ffi) {
        self
    }

    fn try_from_ffi(ffi: Self::Ffi) -> (r: Result<Self, ConvertError>) {
        Ok(ffi)
    }

    fn class_name() -> (r: ClassName) {
        T::class_name()
    }

    fn godot_type_name() -> (r: String) {
        let class_name = T::class_name();
        class_name.name
    }
}

impl<T: GodotClass> GodotFfiVariant for ObjectArg<T> {
    open spec fn variant_conversion_allowed() -> bool {
        false
    }

    fn ffi_to_variant(&self) -> (r: Variant) {
        unreached()
    }

    fn ffi_from_variant(_variant: &Variant) -> (r: Result<Self, ConvertError>) {
        unreached()
    }
}

impl<T: GodotClass> GodotNullableFfi for ObjectArg<T> {
    open spec fn is_null_spec(&self) -> bool {
        self.object_ptr == 0
    }

    fn flatten_option(opt: Option<Self>) -> (r: Self) {
        match opt {
            Some(v) => v,
            None => Self::null(),
        }
    }

    fn is_null(&self) -> (r: bool) {
        self.object_ptr == 0
    }
}

/// The null marker converts to a null view for every expected class, and
/// never demands anything of its source.
pub proof fn lemma_null_marker_always_null<T: GodotClass>(marker: NullArg)
    ensures
        <NullArg as AsObjectArg<T>>::arg_ptr_spec(&marker) == 0,
        <NullArg as AsObjectArg<T>>::arg_wf(&marker),
{
}

/// An absent optional handle converts to a null view; a present optional
/// handle converts exactly as the contained handle does: same demand on the
/// source, same exposed pointer, same recorded ancestry.
pub proof fn lemma_option_conversion<T: GodotClass, U: AsObjectArg<T>>(opt: Option<U>)
    ensures
        opt is None ==> <Option<U> as AsObjectArg<T>>::arg_ptr_spec(&opt) == 0,
        opt matches Some(v) ==> {
            &&& <Option<U> as AsObjectArg<T>>::arg_wf(&opt) == v.arg_wf()
            &&& <Option<U> as AsObjectArg<T>>::arg_ptr_spec(&opt) == v.arg_ptr_spec()
            &&& <Option<U> as AsObjectArg<T>>::arg_ancestry_spec(&opt) == v.arg_ancestry_spec()
        },
{
}

/// The argument view is outbound-only: every foreign-to-native entry point
/// carries an unsatisfiable precondition, so no verified caller can reach
/// one.
pub proof fn lemma_outbound_only<T: GodotClass>()
    ensures
        !<ObjectArg<T> as GodotFfi>::inbound_allowed(),
        !<ObjectArg<T> as FromGodot>::from_godot_allowed(),
        !<ObjectArg<T> as GodotFfiVariant>::variant_conversion_allowed(),
{
}

} // verus!
