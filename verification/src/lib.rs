use vstd::prelude::*;

verus! {

/// `core::any::TypeId` is the opaque, equality-comparable, copyable token
/// this crate hands out as a type identifier.
#[verifier::external_type_specification]
#[verifier::external_body]
pub struct ExTypeId(core::any::TypeId);

/// Relies on `TypeId`'s derived `PartialEq`: two ids compare equal exactly
/// when they are the same identifier value.
pub assume_specification[ <core::any::TypeId as PartialEq<core::any::TypeId>>::eq ](
    x: &core::any::TypeId,
    y: &core::any::TypeId,
) -> (r: bool)
    ensures
        r == (x == y),
;

/// Any type that can be lowered to a specific lifetime.
///
/// The associated type `LoweredType` must be the same as `Self`, but with all
/// lifetime parameters shortened to `'a`. `'static` references that are
/// required to be static for all instances of the type do not need to be
/// lowered. Each implementation supplies the lowering itself, so the borrow
/// checker confirms, per type, that the shortening is a plain reference
/// coercion rather than a change of representation.
pub trait NonStaticType<'a> {
    /// A version of this type where all lifetime parameters have been
    /// replaced with `'a`.
    type LoweredType: 'a;

    /// What it means for `lowered` to be the same value as `self`, seen at
    /// the shorter lifetime. An implementation refines this; by default the
    /// lowering promises nothing beyond its type.
    open spec fn lowers_to(&self, lowered: &Self::LoweredType) -> bool {
        true
    }

    /// Reinterpret `self` at lifetime `'a`. No data is copied or moved: the
    /// result is the same value behind a shortened borrow.
    fn lower(&'a self) -> (r: &'a Self::LoweredType)
        ensures
            self.lowers_to(r),
    ;
}

impl<'a, 'b: 'a> NonStaticType<'a> for &'b str {
    type LoweredType = &'a str;

    open spec fn lowers_to(&self, lowered: &&'a str) -> bool {
        lowered@ == self@
    }

    fn lower(&'a self) -> (r: &'a &'a str) {
        self
    }
}

/// Shorten every lifetime parameter of `*val` to `'a`: hand back the same
/// value, seen through `T`'s declared lowering at `'a`.
pub fn non_static<'a, T: NonStaticType<'a> + 'a>(val: &'a T) -> (r: &'a T::LoweredType)
    ensures
        val.lowers_to(r),
{
    val.lower()
}

/// The identity carrier: a zero-size placeholder tagged with `T` as a type
/// parameter. It holds no data of type `T`, so an identifier for the carrier
/// type can be produced even when `T` itself carries non-`'static` lifetime
/// parameters.
struct Carrier<T: ?Sized>(core::marker::PhantomData<T>);

/// Relies on `typeid::of`: the `TypeId` of the reference's pointee type with
/// all lifetime parameters erased, computable without a `'static` bound. Its
/// result is deterministic, depending on that type alone; the value itself is
/// never read.
#[verifier::external_body]
fn type_id_of<S: ?Sized>(value: &S) -> core::any::TypeId {
    let _ = value;
    typeid::of::<S>()
}

/// Produce the non-`'static` type identifier for `T`: the identifier of the
/// identity carrier tagged with `T`, never of `T` itself. Identifying the
/// carrier keeps the returned token disjoint from whatever
/// `core::any::TypeId::of` would hand out for a `'static` version of `T`,
/// so the two identifier schemes can never be confused for one another.
pub fn non_static_type_id<T: ?Sized>() -> core::any::TypeId {
    let carrier = Carrier::<T>(core::marker::PhantomData);
    type_id_of(&carrier)
}

/// Much like `core::any::Any`, but implemented for non-`'static` types.
pub trait NonStaticAny {
    /// Fetch a non-static type id. Note that the returned `TypeId` is
    /// incompatible with `core::any::TypeId::of::<Self>()`.
    fn non_static_typeid(&self) -> core::any::TypeId;
}

impl<T: ?Sized> NonStaticAny for T {
    fn non_static_typeid(&self) -> core::any::TypeId {
        non_static_type_id::<Self>()
    }
}

/// Decides a downcast: the erased value's identifier must equal the
/// identifier of the statically chosen target type.
pub fn downcast_matches(value_id: core::any::TypeId, target_id: core::any::TypeId) -> (r: bool)
    ensures
        r == (value_id == target_id),
{
    value_id == target_id
}

} // verus!
