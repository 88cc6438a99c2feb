//! Laws of the builder: properties that hold of every builder instance,
//! stated over the slot model that the setters and the finalizer are
//! specified with.

use vstd::prelude::*;

use crate::instance::{all_set, empty_slots, first_unset, lemma_first_unset_found};

verus! {

/// The slot contents after a chain of setter calls: each element of `ops`
/// names a slot and the value stored into it, applied left to right, exactly
/// as `Builder::set` updates the slots.
pub open spec fn apply_ops<V>(slots: Seq<Option<V>>, ops: Seq<(usize, V)>) -> Seq<Option<V>>
    decreases ops.len(),
{
    if ops.len() == 0 {
        slots
    } else {
        apply_ops(slots.update(ops[0].0 as int, Some(ops[0].1)), ops.skip(1))
    }
}

/// Some call in `ops` addresses slot `i`.
pub open spec fn covers<V>(ops: Seq<(usize, V)>, i: int) -> bool {
    exists|k: int| 0 <= k < ops.len() && (#[trigger] ops[k]).0 == i
}

/// Every call in `ops` addresses a real field and stores that field's value
/// from `values`.
pub open spec fn ops_agree_with<V>(ops: Seq<(usize, V)>, values: Seq<V>) -> bool {
    forall|k: int|
        0 <= k < ops.len() ==> ((#[trigger] ops[k]).0 as int) < values.len() && ops[k].1
            == values[ops[k].0 as int]
}

/// `ops` is a sequence of setter calls covering all fields exactly once —
/// one call per field, each storing that field's value from `values` — in
/// whatever order.
pub open spec fn sets_each_field_once<V>(ops: Seq<(usize, V)>, values: Seq<V>) -> bool {
    &&& ops.len() == values.len()
    &&& ops_agree_with(ops, values)
    &&& forall|i: int| 0 <= i < values.len() ==> covers(ops, i)
}

/// What a chain of setter calls leaves in each slot: the field's value where
/// some call addressed the slot, the slot's previous content everywhere
/// else.
pub proof fn lemma_apply_ops<V>(slots: Seq<Option<V>>, ops: Seq<(usize, V)>, values: Seq<V>)
    requires
        slots.len() == values.len(),
        ops_agree_with(ops, values),
    ensures
        apply_ops(slots, ops).len() == slots.len(),
        forall|i: int|
            0 <= i < slots.len() ==> apply_ops(slots, ops)[i] == (if covers(ops, i) {
                Some(values[i])
            } else {
                slots[i]
            }),
    decreases ops.len(),
{
    if ops.len() == 0 {
    } else {
        let k0: int = ops[0].0 as int;
        let slots1 = slots.update(k0, Some(values[k0]));
        let rest = ops.skip(1);
        assert(forall|k: int| 1 <= k < ops.len() ==> ops[k] == #[trigger] rest[k - 1]);
        lemma_apply_ops(slots1, rest, values);
        assert(apply_ops(slots, ops) == apply_ops(slots1, rest));
        assert forall|i: int| 0 <= i < slots.len() implies apply_ops(slots, ops)[i] == (if covers(
            ops,
            i,
        ) {
            Some(values[i])
        } else {
            slots[i]
        }) by {
            if covers(rest, i) {
                let k: int = choose|k: int| 0 <= k < rest.len() && (#[trigger] rest[k]).0 == i;
                assert(ops[k + 1] == rest[k]);
                assert(covers(ops, i));
            } else if i == k0 {
                assert((ops[0]).0 == i);
                assert(covers(ops, i));
                assert(slots1[i] == Some(values[i]));
            } else {
                if covers(ops, i) {
                    let k: int = choose|k: int| 0 <= k < ops.len() && (#[trigger] ops[k]).0 == i;
                    if k >= 1 {
                        assert(rest[k - 1] == ops[k]);
                        assert(covers(rest, i));
                    }
                    assert(false);
                }
                assert(slots1[i] == slots[i]);
            }
        }
    }
}

/// Law: the order of setter calls does not affect the outcome. Any two call
/// sequences that each set every field exactly once with the same per-field
/// values — calling in declaration order included — leave identical slot
/// contents: every slot holds its field's value, so the finalizer assembles
/// the same record from either.
pub proof fn lemma_setter_order_irrelevant<V>(
    slots: Seq<Option<V>>,
    ops1: Seq<(usize, V)>,
    ops2: Seq<(usize, V)>,
    values: Seq<V>,
)
    requires
        slots.len() == values.len(),
        sets_each_field_once(ops1, values),
        sets_each_field_once(ops2, values),
    ensures
        apply_ops(slots, ops1) == apply_ops(slots, ops2),
        apply_ops(slots, ops1) == Seq::new(values.len(), |i: int| Some(values[i])),
        all_set(apply_ops(slots, ops1)),
{
    lemma_apply_ops(slots, ops1, values);
    lemma_apply_ops(slots, ops2, values);
    assert(apply_ops(slots, ops1) =~= Seq::new(values.len(), |i: int| Some(values[i])));
    assert(apply_ops(slots, ops2) =~= Seq::new(values.len(), |i: int| Some(values[i])));
}

/// Law: calling the same setter twice leaves the value of the second call —
/// last write wins, whatever was stored before.
pub proof fn lemma_last_write_wins<V>(slots: Seq<Option<V>>, i: int, first: V, second: V)
    requires
        0 <= i < slots.len(),
    ensures
        slots.update(i, Some(first)).update(i, Some(second)) == slots.update(i, Some(second)),
{
    assert(slots.update(i, Some(first)).update(i, Some(second)) =~= slots.update(
        i,
        Some(second),
    ));
}

/// Law: a fresh builder has every slot unset, so on a record with at least
/// one field an immediate finalize fails naming the first declared field.
pub proof fn lemma_fresh_build_fails_on_first_field<V>(n: nat)
    requires
        n > 0,
    ensures
        !all_set(empty_slots::<V>(n)),
        first_unset(empty_slots::<V>(n)) == 0,
{
    assert(empty_slots::<V>(n)[0] is None);
}

/// Law: with exactly one field unset, finalizing fails naming that field;
/// one call of the missing setter then makes every slot set, so a retried
/// finalize succeeds.
pub proof fn lemma_missing_field_then_retry<V>(slots: Seq<Option<V>>, unset: int, value: V)
    requires
        0 <= unset < slots.len(),
        slots[unset] is None,
        forall|j: int| 0 <= j < slots.len() && j != unset ==> slots[j] is Some,
    ensures
        !all_set(slots),
        first_unset(slots) == unset,
        all_set(slots.update(unset, Some(value))),
{
    lemma_first_unset_found(slots, unset);
}

} // verus!
