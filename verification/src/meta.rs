//! Value types of the foreign ABI surface and the generic conversion traits
//! shared by every type that crosses it.
//!
//! Raw foreign pointers are modeled as plain addresses (`usize`, with `0` as
//! the null pointer), so that contracts can speak about them directly.

use vstd::prelude::*;

verus! {

/// Tag the dispatcher uses to pick the calling-convention slot for a value.
#[derive(Clone, Copy, Debug, PartialEq, Eq, Structural)]
pub enum VariantType {
    Nil,
    Object,
}

/// Calling convention of a pointer-based foreign call.
#[derive(Clone, Copy, Debug, PartialEq, Eq, Structural)]
pub enum PtrcallType {
    Standard,
    Virtual,
}

/// Revision of the foreign ABI, fixed once per build target. The two
/// revisions disagree on how a reference-typed argument slot is filled.
#[derive(Clone, Copy, Debug, PartialEq, Eq, Structural)]
pub enum AbiRevision {
    /// The slot holds the object pointer itself.
    Legacy,
    /// The slot holds the address of a cell holding the object pointer.
    Current,
}

/// What is placed in one argument slot of a pointer-based foreign call, as
/// the dispatcher will read it. An `Indirect` slot records the content of
/// the pointed-to cell; the cell's own machine address is outside the model.
#[derive(Clone, Copy, Debug, PartialEq, Eq, Structural)]
pub enum ArgSlot {
    Direct { object_ptr: usize },
    Indirect { object_ptr: usize },
}

impl ArgSlot {
    /// The object pointer the dispatcher ultimately reads from this slot.
    pub open spec fn object_ptr_spec(&self) -> usize {
        match self {
            ArgSlot::Direct { object_ptr } => *object_ptr,
            ArgSlot::Indirect { object_ptr } => *object_ptr,
        }
    }

    pub open spec fn is_direct(&self) -> bool {
        self is Direct
    }
}

/// Name of an engine class: its registry id plus its human-readable name,
/// used when a value must be reported by type.
pub struct ClassName {
    pub id: u64,
    pub name: String,
}

/// Stand-in for the engine's tagged "any value" representation. This layer
/// never reads one: it appears only in the signatures of the variant-boxing
/// entry points, which the argument view declares unreachable.
pub struct Variant {
    pub kind: VariantType,
}

impl Variant {
    pub fn nil() -> (r: Variant)
        ensures
            r.kind == VariantType::Nil,
    {
        Variant { kind: VariantType::Nil }
    }
}

/// Failure of a foreign-to-native value conversion. The marshalling layer
/// never produces one: its only reachable conversions are infallible.
pub struct ConvertError;

/// Low-level ABI crossing, implemented by every type that can occupy an
/// argument slot of a pointer-based foreign call.
///
/// A type that only flows in the native-to-foreign direction defines
/// [`GodotFfi::inbound_allowed`] as `false`: every entry point that would
/// construct a value from foreign-produced bytes then has an unsatisfiable
/// precondition, so no verified caller can ever invoke it.
pub trait GodotFfi: Sized {
    /// Whether values of this type may be reconstructed from the foreign side.
    spec fn inbound_allowed() -> bool;

    spec fn variant_type_spec() -> VariantType;

    /// The raw pointer this value exposes to the ABI.
    spec fn sys_spec(&self) -> usize;

    fn variant_type() -> (r: VariantType)
        ensures
            r == Self::variant_type_spec(),
    ;

    /// Inbound: rebuild a value from the pointer found in an ABI slot.
    fn new_from_sys(sys_ptr: usize) -> (r: Self)
        requires
            Self::inbound_allowed(),
    ;

    /// Inbound: materialize a value in place; the initializer is abstracted
    /// by the pointer it would write into the uninitialized slot.
    fn new_with_uninit(written: usize) -> (r: Self)
        requires
            Self::inbound_allowed(),
    ;

    /// Inbound: materialize a value in place over an initialized slot.
    fn new_with_init(written: usize) -> (r: Self)
        requires
            Self::inbound_allowed(),
    ;

    /// Outbound: the pointer as read-only shared data.
    fn sys(&self) -> (r: usize)
        ensures
            r == self.sys_spec(),
    ;

    /// Outbound: the pointer for a slot the callee may write through. The
    /// value itself is unchanged by taking the accessor.
    fn sys_mut(&mut self) -> (r: usize)
        ensures
            r == old(self).sys_spec(),
            *final(self) == *old(self),
    ;

    /// Outbound: fill one argument slot of a pointer-based call, with the
    /// level of indirection the given ABI revision prescribes.
    fn as_arg_ptr(&self, abi: AbiRevision) -> (r: ArgSlot)
        ensures
            r.object_ptr_spec() == self.sys_spec(),
            r.is_direct() == (abi is Legacy),
    ;

    /// Inbound: rebuild a value from an argument slot of an incoming call.
    fn from_arg_ptr(sys_ptr: usize, call_type: PtrcallType) -> (r: Self)
        requires
            Self::inbound_allowed(),
    ;

    /// Inbound: move a call result out through a return slot.
    fn move_return_ptr(self, sys_ptr: usize, call_type: PtrcallType)
        requires
            Self::inbound_allowed(),
    ;
}

/// Ties a type to the representation it crosses the boundary as.
pub trait GodotConvert: Sized {
    type Via;
}

/// Native-to-engine half of the generic value conversion.
pub trait ToGodot: GodotConvert {
    spec fn to_godot_spec(&self) -> Self::Via;

    fn to_godot(&self) -> (r: Self::Via)
        ensures
            r == self.to_godot_spec(),
    ;

    fn into_godot(self) -> (r: Self::Via)
        ensures
            r == self.to_godot_spec(),
    ;
}

/// Engine-to-native half of the generic value conversion. A type that never
/// flows back defines [`FromGodot::from_godot_allowed`] as `false`.
pub trait FromGodot: GodotConvert {
    spec fn from_godot_allowed() -> bool;

    fn try_from_godot(via: Self::Via) -> (r: Result<Self, ConvertError>)
        requires
            Self::from_godot_allowed(),
    ;
}

/// A type with a fixed place in the engine's type system: its ABI
/// representation, its class name, and the conversions between the two.
pub trait GodotType: Sized {
    type Ffi;

    spec fn to_ffi_spec(&self) -> Self::Ffi;

    spec fn from_ffi_spec(ffi: Self::Ffi) -> Result<Self, ConvertError>;

    spec fn class_id_of_type() -> u64;

    spec fn type_name_spec() -> Seq<char>;

    fn to_ffi(&self) -> (r: Self::Ffi)
        ensures
            r == self.to_ffi_spec(),
    ;

    fn into_ffi(self) -> (r: Self::Ffi)
        ensures
            r == self.to_ffi_spec(),
    ;

    fn try_from_ffi(ffi: Self::Ffi) -> (r: Result<Self, ConvertError>)
        ensures
            r == Self::from_ffi_spec(ffi),
    ;

    fn class_name() -> (r: ClassName)
        ensures
            r.id == Self::class_id_of_type(),
            r.name@ == Self::type_name_spec(),
    ;

    fn godot_type_name() -> (r: String)
        ensures
            r@ == Self::type_name_spec(),
    ;
}

/// Boxing into and out of the tagged "any value" representation. A type
/// that must never be boxed this way defines
/// [`GodotFfiVariant::variant_conversion_allowed`] as `false`.
pub trait GodotFfiVariant: Sized {
    spec fn variant_conversion_allowed() -> bool;

    fn ffi_to_variant(&self) -> (r: Variant)
        requires
            Self::variant_conversion_allowed(),
    ;

    fn ffi_from_variant(variant: &Variant) -> (r: Result<Self, ConvertError>)
        requires
            Self::variant_conversion_allowed(),
    ;
}

/// ABI types with a distinguished null value, so that an absent optional
/// argument can be flattened into the argument slot directly.
pub trait GodotNullableFfi: Sized {
    spec fn is_null_spec(&self) -> bool;

    fn flatten_option(opt: Option<Self>) -> (r: Self)
        ensures
            (opt matches Some(v) ==> r == v),
            (opt is None ==> r.is_null_spec()),
    ;

    fn is_null(&self) -> (r: bool)
        ensures
            r == self.is_null_spec(),
    ;
}

} // verus!
