//! The footprint estimator: how many bytes the binary container encoder
//! produces for a set of graph nodes and their descendants.
//!
//! The encoding itself is done by `rbx_binary`; this module holds the trusted
//! boundary around it. The encoder is always given the reflection database
//! bundled into this binary, never one picked up from the environment or the
//! file system, so the byte count for a fixed dom and referent list is a
//! function of those two alone. That count is given the name `encoded_len`,
//! and everything the rest of the library states about sizes goes through
//! that name. The count is the full container encoding of the referents and
//! their descendants, so it includes the encoder's constant per-file framing.

use vstd::prelude::*;

use rbx_dom_weak::WeakDom;
use rbx_types::Ref;

verus! {

#[verifier::external_type_specification]
#[verifier::external_body]
pub struct ExWeakDom(WeakDom);

#[verifier::external_type_specification]
#[verifier::external_body]
pub struct ExRef(Ref);

/// Whether `r` resolves to a node of `dom` (what `WeakDom::get_by_ref`
/// answers).
pub uninterp spec fn dom_has_ref(dom: WeakDom, r: Ref) -> bool;

/// The number of bytes `rbx_binary`'s encoder emits for `refs` and their
/// descendants inside `dom`, or zero when the encoder rejects the set (for
/// example, when a referent does not resolve to a node of `dom`).
///
/// With the bundled reflection database pinned, the encoder's output is a
/// function of the dom's content and the referent list alone: it walks the
/// dom in child order, numbers referents in traversal order, keeps type and
/// property tables in structures ordered by name, and sorts shared strings
/// by their content hash before assigning indices, so repeated calls on
/// unchanged input yield identical bytes.
pub uninterp spec fn encoded_len(dom: WeakDom, refs: Seq<Ref>) -> u64;

/// Relies on `rbx_binary::Serializer::serialize`: it encodes `refs` and all
/// their descendants into the buffer and errs (rather than panicking) when a
/// listed referent is not part of `dom`. The serializer is handed the
/// reflection database bundled into the binary, so the byte count depends
/// only on the dom's content and the referent list.
///
/// Residual panics inside the outside crates, left as they are: the
/// serializer asserts that the instance count fits in `i32`, and it expects
/// the migration descriptors of its database to be consistent, which the
/// bundled database's are; `Serializer::new` also loads a reflection
/// database found on the machine and panics when that file is unreadable,
/// though the bundled database handed in afterwards is the one used.
#[verifier::external_body]
pub fn serialize_instance_size(dom: &WeakDom, refs: &[Ref]) -> (n: u64)
    ensures
        n == encoded_len(*dom, refs@),
        (exists|i: int| 0 <= i < refs@.len() && !dom_has_ref(*dom, refs@[i])) ==> n == 0,
{
    let mut writer = Vec::new();
    let serializer =
        rbx_binary::Serializer::new().reflection_database(rbx_reflection_database::get_bundled());
    match serializer.serialize(&mut writer, dom, refs) {
        Ok(()) => writer.len() as u64,
        Err(_) => 0,
    }
}

/// The encoded footprint of the subtree rooted at `instance_ref`, or zero
/// when the referent does not resolve.
pub fn calculate_serialized_size(dom: &WeakDom, instance_ref: Ref) -> (n: u64)
    ensures
        n == encoded_len(*dom, seq![instance_ref]),
        !dom_has_ref(*dom, instance_ref) ==> n == 0,
{
    let refs: Vec<Ref> = vec![instance_ref];
    assert(refs@ =~= seq![instance_ref]);
    let n = serialize_instance_size(dom, refs.as_slice());
    proof {
        if !dom_has_ref(*dom, instance_ref) {
            assert(0 <= 0 < refs@.len() && !dom_has_ref(*dom, refs@[0]));
        }
    }
    n
}

/// The estimator is deterministic: asking twice for the size of the same
/// referent list on an unchanged dom always returns the same byte count.
pub fn estimate_twice_agrees(dom: &WeakDom, refs: &[Ref]) -> (agree: bool)
    ensures
        agree,
{
    let first = serialize_instance_size(dom, refs);
    let second = serialize_instance_size(dom, refs);
    first == second
}

} // verus!
