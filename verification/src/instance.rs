//! The builder instance: the runtime shape that a synthesized schema keys.
//! One optional slot per field, setters that fill slots in any order, and a
//! finalizer that either hands the field values out or names the first field
//! left unset.

use vstd::prelude::*;

use crate::synth::{BuilderSchema, field_position, has_field, lemma_field_position};

verus! {

/// Finalizing fails only when a slot is still unset; the error names the
/// first unset field in declaration order.
#[derive(Debug)]
pub enum BuildError {
    FieldNotSet(String),
}

/// Every slot holds a value.
pub open spec fn all_set<V>(slots: Seq<Option<V>>) -> bool {
    forall|i: int| 0 <= i < slots.len() ==> slots[i] is Some
}

/// The position of the first unset slot; `slots.len()` when every slot is
/// set.
pub open spec fn first_unset<V>(slots: Seq<Option<V>>) -> int
    decreases slots.len(),
{
    if slots.len() == 0 {
        0
    } else if slots[0] is None {
        0
    } else {
        1 + first_unset(slots.skip(1))
    }
}

/// The slot contents of a fresh builder: `n` slots, every one unset.
pub open spec fn empty_slots<V>(n: nat) -> Seq<Option<V>> {
    Seq::new(n, |i: int| None::<V>)
}

/// `first_unset` finds exactly the first unset slot: it is in range, unset,
/// and preceded only by set slots whenever some slot is unset; and it is
/// `slots.len()` when every slot is set.
pub proof fn lemma_first_unset<V>(slots: Seq<Option<V>>)
    ensures
        !all_set(slots) ==> {
            &&& 0 <= first_unset(slots) < slots.len()
            &&& slots[first_unset(slots)] is None
            &&& forall|j: int| 0 <= j < first_unset(slots) ==> slots[j] is Some
        },
        all_set(slots) ==> first_unset(slots) == slots.len(),
    decreases slots.len(),
{
    if slots.len() == 0 {
    } else if slots[0] is None {
    } else {
        let rest = slots.skip(1);
        lemma_first_unset(rest);
        assert(forall|i: int| 1 <= i < slots.len() ==> slots[i] == #[trigger] rest[i - 1]);
        if all_set(slots) {
            assert forall|i: int| 0 <= i < rest.len() implies rest[i] is Some by {
                assert(rest[i] == slots[i + 1]);
            }
            assert(all_set(rest));
        } else {
            if all_set(rest) {
                assert forall|i: int| 0 <= i < slots.len() implies slots[i] is Some by {
                    if i >= 1 {
                        assert(slots[i] == rest[i - 1]);
                    }
                }
            }
            assert(!all_set(rest));
            let p: int = first_unset(rest);
            assert(slots[1 + p] == rest[p]);
            assert forall|j: int| 0 <= j < 1 + p implies slots[j] is Some by {
                if j >= 1 {
                    assert(slots[j] == rest[j - 1]);
                }
            }
        }
    }
}

/// When slot `i` is unset and every earlier slot is set, `first_unset` is
/// exactly `i`.
pub proof fn lemma_first_unset_found<V>(slots: Seq<Option<V>>, i: int)
    requires
        0 <= i < slots.len(),
        slots[i] is None,
        forall|j: int| 0 <= j < i ==> slots[j] is Some,
    ensures
        !all_set(slots),
        first_unset(slots) == i,
    decreases i,
{
    if i == 0 {
    } else {
        let rest = slots.skip(1);
        assert(forall|k: int| 1 <= k < slots.len() ==> slots[k] == #[trigger] rest[k - 1]);
        assert forall|j: int| 0 <= j < i - 1 implies rest[j] is Some by {
            assert(rest[j] == slots[j + 1]);
        }
        assert(rest[i - 1] is None);
        lemma_first_unset_found(rest, i - 1);
    }
}

/// A builder instance keyed by a synthesized schema: one slot per field of
/// the record, in declaration order, each holding either nothing or a value.
pub struct Builder<V> {
    schema: BuilderSchema,
    slots: Vec<Option<V>>,
}

impl<V> Builder<V> {
    /// The schema this builder was instantiated from.
    pub closed spec fn schema(self) -> BuilderSchema {
        self.schema
    }

    /// The slot contents, in field-declaration order.
    pub closed spec fn slots(self) -> Seq<Option<V>> {
        self.slots@
    }

    /// The instance's invariant: slot count mirrors the schema's field list,
    /// one-to-one.
    pub open spec fn wf(self) -> bool {
        self.slots().len() == self.schema().fields@.len()
    }

    /// A setter, addressed by field position: stores `value` into slot
    /// `index`, overwriting any previous value, and leaves every other slot
    /// untouched. Never fails; the builder is returned for chaining.
    pub fn set(self, index: usize, value: V) -> (r: Self)
        requires
            index < self.slots().len(),
        ensures
            r.schema() == self.schema(),
            r.slots() == self.slots().update(index as int, Some(value)),
    {
        let mut slots = self.slots;
        slots.set(index, Some(value));
        Builder { schema: self.schema, slots }
    }

    /// A setter addressed by field name: stores `value` into the slot of the
    /// field so named, or returns the builder unchanged when the record has
    /// no field of that name.
    pub fn set_by_name(self, name: &String, value: V) -> (r: Self)
        requires
            self.wf(),
        ensures
            r.schema() == self.schema(),
            has_field(self.schema().fields@, name@) ==> r.slots() == self.slots().update(
                field_position(self.schema().fields@, name@),
                Some(value),
            ),
            !has_field(self.schema().fields@, name@) ==> r == self,
    {
        proof {
            lemma_field_position(self.schema.fields@, name@);
        }
        match self.schema.field_index(name) {
            Some(index) => self.set(index, value),
            None => self,
        }
    }
}

impl<V: Copy> Builder<V> {
    /// The finalizer: checks the slots in declaration order and fails at the
    /// first unset one, naming its field; when every slot is set, returns the
    /// record's field values, in declaration order, copied out of the slots.
    /// The builder itself is left untouched, so a failed attempt can be
    /// retried after more setter calls.
    pub fn build(&self) -> (r: Result<Vec<V>, BuildError>)
        requires
            self.wf(),
        ensures
            match r {
                Ok(values) => {
                    &&& all_set(self.slots())
                    &&& values@.len() == self.slots().len()
                    &&& forall|i: int|
                        0 <= i < values@.len() ==> self.slots()[i] == Some(values@[i])
                },
                Err(BuildError::FieldNotSet(name)) => {
                    &&& !all_set(self.slots())
                    &&& name@ == self.schema().fields@[first_unset(self.slots())].name@
                },
            },
    {
        let n = self.slots.len();
        for i in 0..n
            invariant
                n == self.slots@.len(),
                self.wf(),
                forall|j: int| 0 <= j < i ==> self.slots@[j] is Some,
        {
            if self.slots[i].is_none() {
                proof {
                    lemma_first_unset(self.slots@);
                    assert(first_unset(self.slots@) == i);
                }
                return Err(BuildError::FieldNotSet(self.schema.fields[i].name.clone()));
            }
        }
        let mut values: Vec<V> = Vec::new();
        for i in 0..n
            invariant
                n == self.slots@.len(),
                forall|j: int| 0 <= j < n ==> self.slots@[j] is Some,
                values@.len() == i,
                forall|j: int| 0 <= j < i ==> self.slots@[j] == Some(values@[j]),
        {
            values.push(self.slots[i].unwrap());
        }
        Ok(values)
    }
}

impl BuilderSchema {
    /// The factory: a fresh builder instance keyed by this schema, with every
    /// slot unset. Pure and always succeeds.
    pub fn builder<V>(self) -> (b: Builder<V>)
        ensures
            b.wf(),
            b.schema() == self,
            b.slots() == empty_slots::<V>(self.fields@.len()),
    {
        let n = self.fields.len();
        let mut slots: Vec<Option<V>> = Vec::new();
        for i in 0..n
            invariant
                slots@.len() == i,
                forall|j: int| 0 <= j < i ==> slots@[j] is None,
        {
            slots.push(None);
        }
        proof {
            assert(slots@ =~= empty_slots::<V>(self.fields@.len()));
        }
        Builder { schema: self, slots }
    }
}

} // verus!
