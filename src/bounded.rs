//! The fixed-capacity vectors of the `arrayvec` crate that the library's values
//! hold, with what the library relies on of each operation it uses.
use crate::enums::CecDeviceType;
use arrayvec::ArrayVec;
use vstd::prelude::*;

verus! {

#[verifier::external_type_specification]
#[verifier::external_body]
#[verifier::reject_recursive_types(T)]
pub struct ExArrayVec<T, const CAP: usize>(ArrayVec<T, CAP>);

/// Relies on `ArrayVec`'s `Clone`, which promises nothing that the library uses.
pub assume_specification<T, const CAP: usize>[ <ArrayVec<T, CAP> as Clone>::clone ](
    a: &ArrayVec<T, CAP>,
) -> ArrayVec<T, CAP>
    where
        T: Clone,
;

/// The bytes that a packet buffer holds, in order.
pub uninterp spec fn packet_bytes(a: ArrayVec<u8, 64>) -> Seq<u8>;

/// The device types that a device type list holds, in order.
pub uninterp spec fn device_type_items(a: ArrayVec<CecDeviceType, 5>) -> Seq<CecDeviceType>;

/// Relies on `ArrayVec::new`: the new vector is empty.
#[verifier::external_body]
pub(crate) fn empty_packet_buffer() -> (r: ArrayVec<u8, 64>)
    ensures
        packet_bytes(r) == Seq::<u8>::empty(),
{
    ArrayVec::new()
}

/// Relies on `ArrayVec::try_extend_from_slice`: when the bytes fit in the
/// remaining capacity they are appended, otherwise it fails and changes nothing.
#[verifier::external_body]
pub(crate) fn extend_packet_buffer(a: &mut ArrayVec<u8, 64>, bytes: &[u8]) -> (ok: bool)
    ensures
        ok == (packet_bytes(*old(a)).len() + bytes@.len() <= 64),
        ok ==> packet_bytes(*final(a)) == packet_bytes(*old(a)) + bytes@,
        !ok ==> *final(a) == *old(a),
{
    a.try_extend_from_slice(bytes).is_ok()
}

/// Relies on `ArrayVec::as_slice`: the slice holds the vector's items, which
/// never number more than its capacity.
#[verifier::external_body]
pub(crate) fn packet_buffer_slice(a: &ArrayVec<u8, 64>) -> (r: &[u8])
    ensures
        r@ == packet_bytes(*a),
        r@.len() <= 64,
{
    a.as_slice()
}

/// Relies on `ArrayVec::new`: the new vector is empty.
#[verifier::external_body]
pub(crate) fn empty_device_type_buffer() -> (r: ArrayVec<CecDeviceType, 5>)
    ensures
        device_type_items(r) == Seq::<CecDeviceType>::empty(),
{
    ArrayVec::new()
}

/// Relies on `ArrayVec::try_push`: when the vector is not full the item is
/// appended, otherwise it fails and changes nothing.
#[verifier::external_body]
pub(crate) fn push_device_type(a: &mut ArrayVec<CecDeviceType, 5>, t: CecDeviceType) -> (ok: bool)
    ensures
        ok == (device_type_items(*old(a)).len() < 5),
        ok ==> device_type_items(*final(a)) == device_type_items(*old(a)).push(t),
        !ok ==> *final(a) == *old(a),
{
    a.try_push(t).is_ok()
}

/// Relies on `ArrayVec::as_slice`: the slice holds the vector's items, which
/// never number more than its capacity.
#[verifier::external_body]
pub(crate) fn device_type_slice(a: &ArrayVec<CecDeviceType, 5>) -> (r: &[CecDeviceType])
    ensures
        r@ == device_type_items(*a),
        r@.len() <= 5,
{
    a.as_slice()
}

} // verus!
