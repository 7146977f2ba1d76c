//! What the emitted declarations do when they run.
//!
//! A builder is a row of slots, each holding a value or nothing. The factory
//! makes the row empty, a setter overwrites one slot, and finalization reads
//! the slots in the order of the record's fields. Slots are found by name, as
//! the emitted code names them. The laws at the end of this file state
//! what follows for every record with a schema.

use vstd::prelude::*;
use crate::emit::{emit_spec, ExpansionView, FieldInitView, SetterDeclView, SlotReadView, missing_message};
use crate::schema::RecordSchemaView;

verus! {

/// What a field of a finished record holds: the value of a required field,
/// or the value or nothing of an optional one.
#[derive(Debug, PartialEq, Eq)]
pub enum FieldValue<V> {
    Required(V),
    Optional(Option<V>),
}

/// One invocation of a setter: the place of the setter among the emitted
/// setters, and the value passed to it.
pub struct Call<V> {
    pub setter: int,
    pub value: V,
}

/// The place of the slot named `name`, if the builder has one.
pub open spec fn slot_named(e: ExpansionView, name: Seq<char>) -> Option<int> {
    e.slot_names().index_of_first(name)
}

/// The place of the setter named `name`, if the builder has one.
pub open spec fn setter_named(e: ExpansionView, name: Seq<char>) -> Option<int> {
    e.setters.map_values(|s: SetterDeclView| s.name).index_of_first(name)
}

/// The slots of the builder that the factory gives: each holds nothing.
pub open spec fn fresh<V>(e: ExpansionView) -> Seq<Option<V>> {
    Seq::new(e.factory.slots.len(), |i: int| None::<V>)
}

/// The slots after `setter` ran with `value`.
pub open spec fn store<V>(
    e: ExpansionView,
    slots: Seq<Option<V>>,
    setter: SetterDeclView,
    value: V,
) -> Seq<Option<V>> {
    match slot_named(e, setter.slot) {
        Some(k) => if 0 <= k < slots.len() {
            slots.update(k, Some(value))
        } else {
            slots
        },
        None => slots,
    }
}

/// The slots after `calls` ran one after the other, the first one first.
pub open spec fn run<V>(e: ExpansionView, slots: Seq<Option<V>>, calls: Seq<Call<V>>) -> Seq<
    Option<V>,
>
    decreases calls.len(),
{
    if calls.len() == 0 {
        slots
    } else {
        store(e, run(e, slots, calls.drop_last()), e.setters[calls.last().setter], calls.last().value)
    }
}

/// The value of the last of `calls` that invoked the setter at `setter`, if
/// any of them did.
pub open spec fn last_value<V>(calls: Seq<Call<V>>, setter: int) -> Option<V>
    decreases calls.len(),
{
    if calls.len() == 0 {
        None
    } else if calls.last().setter == setter {
        Some(calls.last().value)
    } else {
        last_value(calls.drop_last(), setter)
    }
}

/// What the slot that `init` names holds.
pub open spec fn read<V>(e: ExpansionView, slots: Seq<Option<V>>, init: FieldInitView) -> Option<V> {
    match slot_named(e, init.slot) {
        Some(k) => if 0 <= k < slots.len() {
            slots[k]
        } else {
            None
        },
        None => None,
    }
}

/// Whether the initialization at `at` fails: it requires a value and its slot holds none.
pub open spec fn lacks<V>(e: ExpansionView, slots: Seq<Option<V>>, at: int) -> bool {
    e.build.inits[at].read is Require && read(e, slots, e.build.inits[at]) is None
}

/// The first initialization from `from` on that fails.
pub open spec fn first_lacking<V>(e: ExpansionView, slots: Seq<Option<V>>, from: int) -> Option<int>
    decreases e.build.inits.len() - from,
{
    if from >= e.build.inits.len() {
        None
    } else if lacks(e, slots, from) {
        Some(from)
    } else {
        first_lacking(e, slots, from + 1)
    }
}

/// What the initialization at `at` gives the field, where it does not fail.
pub open spec fn field_value<V>(e: ExpansionView, slots: Seq<Option<V>>, at: int) -> FieldValue<V> {
    match e.build.inits[at].read {
        SlotReadView::Require(_) => FieldValue::Required(read(e, slots, e.build.inits[at])->Some_0),
        SlotReadView::PassThrough => FieldValue::Optional(read(e, slots, e.build.inits[at])),
    }
}

/// The outcome of finalization: the fields of the record in order, or the
/// message of the first initialization that fails.
pub open spec fn finalize<V>(e: ExpansionView, slots: Seq<Option<V>>) -> Result<
    Seq<FieldValue<V>>,
    Seq<char>,
> {
    match first_lacking(e, slots, 0) {
        Some(at) => Err(e.build.inits[at].read->Require_0),
        None => Ok(Seq::new(e.build.inits.len(), |i: int| field_value(e, slots, i))),
    }
}

/// In a consistent expansion the slot at `at` is the one its name finds.
pub proof fn lemma_slot_named(e: ExpansionView, at: int)
    requires
        e.consistent(),
        0 <= at < e.builder.slots.len(),
    ensures
        slot_named(e, e.builder.slots[at].name) == Some(at),
        slot_named(e, e.setters[at].slot) == Some(at),
        slot_named(e, e.build.inits[at].slot) == Some(at),
{
    let names = e.slot_names();
    assert(names[at] == e.builder.slots[at].name);
    names.index_of_first_ensures(names[at]);
}

/// The scan for a failing initialization finds the least one, or none
/// where there is none.
pub proof fn lemma_first_lacking<V>(e: ExpansionView, slots: Seq<Option<V>>, from: int)
    requires
        0 <= from <= e.build.inits.len(),
    ensures
        match first_lacking(e, slots, from) {
            Some(at) => {
                &&& from <= at < e.build.inits.len()
                &&& lacks(e, slots, at)
                &&& forall|j: int| from <= j < at ==> !lacks(e, slots, j)
            },
            None => forall|j: int| from <= j < e.build.inits.len() ==> !lacks(e, slots, j),
        },
    decreases e.build.inits.len() - from,
{
    if from < e.build.inits.len() && !lacks(e, slots, from) {
        lemma_first_lacking(e, slots, from + 1);
    }
}

/// Running calls keeps the number of slots, and leaves in each slot the
/// last value passed to its setter, or what it held where none was.
pub proof fn lemma_run<V>(e: ExpansionView, slots: Seq<Option<V>>, calls: Seq<Call<V>>)
    requires
        e.consistent(),
        slots.len() == e.builder.slots.len(),
        forall|k: int| 0 <= k < calls.len() ==> 0 <= (#[trigger] calls[k]).setter < e.setters.len(),
    ensures
        run(e, slots, calls).len() == slots.len(),
        forall|i: int|
            0 <= i < slots.len() ==> #[trigger] run(e, slots, calls)[i] == match last_value(
                calls,
                i,
            ) {
                Some(v) => Some(v),
                None => slots[i],
            },
    decreases calls.len(),
{
    if calls.len() > 0 {
        let call = calls.last();
        assert(0 <= call.setter < e.setters.len());
        lemma_run(e, slots, calls.drop_last());
        lemma_slot_named(e, call.setter);
    }
}

/// Running calls keeps the number of slots, whatever the calls name.
pub proof fn lemma_run_len<V>(e: ExpansionView, slots: Seq<Option<V>>, calls: Seq<Call<V>>)
    ensures
        run(e, slots, calls).len() == slots.len(),
    decreases calls.len(),
{
    if calls.len() > 0 {
        lemma_run_len(e, slots, calls.drop_last());
    }
}

/// Running one row of calls after another is running them in a row.
pub proof fn lemma_run_concat<V>(
    e: ExpansionView,
    slots: Seq<Option<V>>,
    first: Seq<Call<V>>,
    second: Seq<Call<V>>,
)
    ensures
        run(e, slots, first + second) == run(e, run(e, slots, first), second),
    decreases second.len(),
{
    if second.len() == 0 {
        assert(first + second =~= first);
    } else {
        assert((first + second).drop_last() =~= first + second.drop_last());
        assert((first + second).last() == second.last());
        lemma_run_concat(e, slots, first, second.drop_last());
    }
}

/// Some call invoked the setter at `setter` exactly where a last value exists.
pub proof fn lemma_last_value<V>(calls: Seq<Call<V>>, setter: int)
    ensures
        last_value(calls, setter) is Some <==> exists|k: int|
            0 <= k < calls.len() && (#[trigger] calls[k]).setter == setter,
        last_value(calls, setter) matches Some(v) ==> exists|k: int|
            {
                &&& 0 <= k < calls.len()
                &&& (#[trigger] calls[k]).setter == setter
                &&& calls[k].value == v
                &&& forall|j: int| k < j < calls.len() ==> (#[trigger] calls[j]).setter != setter
            },
    decreases calls.len(),
{
    if calls.len() > 0 {
        let rest = calls.drop_last();
        lemma_last_value(rest, setter);
        let last = calls.len() - 1;
        if calls.last().setter == setter {
            assert(calls[last].setter == setter);
        } else {
            if last_value(rest, setter) is Some {
                let k = choose|k: int|
                    {
                        &&& 0 <= k < rest.len()
                        &&& (#[trigger] rest[k]).setter == setter
                        &&& rest[k].value == last_value(rest, setter)->Some_0
                        &&& forall|j: int| k < j < rest.len() ==> (#[trigger] rest[j]).setter != setter
                    };
                assert(calls[k] == rest[k]);
                assert forall|j: int| k < j < calls.len() implies (#[trigger] calls[j]).setter
                    != setter by {
                    if j < rest.len() {
                        assert(calls[j] == rest[j]);
                    }
                }
            }
            if exists|k: int| 0 <= k < calls.len() && (#[trigger] calls[k]).setter == setter {
                let k = choose|k: int| 0 <= k < calls.len() && (#[trigger] calls[k]).setter == setter;
                assert(rest[k] == calls[k]);
            }
        }
    }
}

/// Whether the field at `field` is required and none of `calls` invoked its setter.
pub open spec fn unset<V>(schema: RecordSchemaView, calls: Seq<Call<V>>, field: int) -> bool {
    &&& 0 <= field < schema.fields.len()
    &&& schema.fields[field].classification is Required
    &&& forall|k: int| 0 <= k < calls.len() ==> (#[trigger] calls[k]).setter != field
}

/// A builder fresh from the factory fails to finalize exactly where the
/// record has a required field; the failure then names the first of them.
pub proof fn law_fresh_builder_fails_iff_required<V>(schema: RecordSchemaView)
    requires
        schema.wf(),
    ensures
        finalize::<V>(emit_spec(schema), fresh(emit_spec(schema))) is Err <==> exists|i: int|
            0 <= i < schema.fields.len() && (#[trigger] schema.fields[i]).classification
                is Required,
        finalize::<V>(emit_spec(schema), fresh(emit_spec(schema))) matches Err(message)
            ==> exists|i: int|
            {
                &&& 0 <= i < schema.fields.len()
                &&& (#[trigger] schema.fields[i]).classification is Required
                &&& message == missing_message(schema.fields[i].name)
                &&& forall|j: int|
                    0 <= j < i ==> !((#[trigger] schema.fields[j]).classification is Required)
            },
{
    let e = emit_spec(schema);
    let slots = fresh::<V>(e);
    crate::emit::lemma_emitted_is_consistent(schema);
    lemma_first_lacking(e, slots, 0);
    assert forall|i: int| 0 <= i < schema.fields.len() implies (lacks(e, slots, i) <==> (
    #[trigger] schema.fields[i]).classification is Required) by {
        lemma_slot_named(e, i);
    }
    match first_lacking(e, slots, 0) {
        Some(at) => {
            assert(schema.fields[at].classification is Required);
            assert forall|j: int| 0 <= j < at implies !((#[trigger] schema.fields[j]).classification
                is Required) by {
                assert(!lacks(e, slots, j));
            }
        },
        None => {
            assert forall|i: int| 0 <= i < schema.fields.len() implies !((
            #[trigger] schema.fields[i]).classification is Required) by {
                assert(!lacks(e, slots, i));
            }
        },
    }
}

/// After any calls of setters on a fresh builder, finalization fails
/// exactly where some required field's setter was never invoked; the
/// failure then names the first such field of the record.
pub proof fn law_fails_iff_required_unset<V>(schema: RecordSchemaView, calls: Seq<Call<V>>)
    requires
        schema.wf(),
        forall|k: int| 0 <= k < calls.len() ==> 0 <= (#[trigger] calls[k]).setter < schema.fields.len(),
    ensures
        finalize(emit_spec(schema), run(emit_spec(schema), fresh(emit_spec(schema)), calls)) is Err
            <==> exists|i: int| #[trigger] unset(schema, calls, i),
        finalize(emit_spec(schema), run(emit_spec(schema), fresh(emit_spec(schema)), calls))
            matches Err(message) ==> exists|i: int|
            {
                &&& #[trigger] unset(schema, calls, i)
                &&& message == missing_message(schema.fields[i].name)
                &&& forall|j: int| 0 <= j < i ==> !unset(schema, calls, j)
            },
{
    let e = emit_spec(schema);
    crate::emit::lemma_emitted_is_consistent(schema);
    let slots = run(e, fresh::<V>(e), calls);
    lemma_run(e, fresh::<V>(e), calls);
    lemma_first_lacking(e, slots, 0);
    assert forall|i: int| 0 <= i < schema.fields.len() implies (lacks(e, slots, i) <==> unset(
        schema,
        calls,
        i,
    )) by {
        lemma_slot_named(e, i);
        lemma_last_value(calls, i);
        assert(slots[i] == match last_value(calls, i) {
            Some(v) => Some(v),
            None => fresh::<V>(e)[i],
        });
    }
    match first_lacking(e, slots, 0) {
        Some(at) => {
            assert(unset(schema, calls, at));
            assert forall|j: int| 0 <= j < at implies !unset(schema, calls, j) by {
                assert(!lacks(e, slots, j));
            }
        },
        None => {
            assert forall|i: int| !unset(schema, calls, i) by {
                if 0 <= i < schema.fields.len() {
                    assert(!lacks(e, slots, i));
                }
            }
        },
    }
}

/// After any calls of setters on a fresh builder, if each required field's
/// setter was invoked at least once, finalization succeeds; each field of
/// the record then holds the last value passed to its setter, and an
/// optional field whose setter was never invoked holds nothing.
pub proof fn law_last_write_wins<V>(schema: RecordSchemaView, calls: Seq<Call<V>>)
    requires
        schema.wf(),
        forall|k: int| 0 <= k < calls.len() ==> 0 <= (#[trigger] calls[k]).setter < schema.fields.len(),
        forall|i: int|
            0 <= i < schema.fields.len() && (#[trigger] schema.fields[i]).classification is Required
                ==> exists|k: int| 0 <= k < calls.len() && (#[trigger] calls[k]).setter == i,
    ensures
        finalize(emit_spec(schema), run(emit_spec(schema), fresh(emit_spec(schema)), calls))
            matches Ok(record) && {
            &&& record.len() == schema.fields.len()
            &&& forall|i: int|
                0 <= i < schema.fields.len() ==> #[trigger] record[i] == (if schema.fields[i].classification
                    is Required {
                    FieldValue::Required(last_value(calls, i)->Some_0)
                } else {
                    FieldValue::Optional(last_value(calls, i))
                })
            &&& forall|i: int|
                0 <= i < schema.fields.len() && (forall|k: int|
                    0 <= k < calls.len() ==> (#[trigger] calls[k]).setter != i) ==> #[trigger] record[i]
                    == FieldValue::<V>::Optional(None)
        },
{
    let e = emit_spec(schema);
    crate::emit::lemma_emitted_is_consistent(schema);
    let slots = run(e, fresh::<V>(e), calls);
    lemma_run(e, fresh::<V>(e), calls);
    lemma_first_lacking(e, slots, 0);
    assert forall|i: int| 0 <= i < schema.fields.len() implies read(e, slots, #[trigger] e.build.inits[i])
        == last_value(calls, i) by {
        lemma_slot_named(e, i);
        assert(slots[i] == match last_value(calls, i) {
            Some(v) => Some(v),
            None => fresh::<V>(e)[i],
        });
    }
    assert forall|i: int| 0 <= i < schema.fields.len() implies !lacks(e, slots, i) by {
        lemma_last_value(calls, i);
        assert(read(e, slots, e.build.inits[i]) == last_value(calls, i));
        if schema.fields[i].classification is Required {
            assert(last_value(calls, i) is Some);
        }
    }
    let record = finalize(e, slots)->Ok_0;
    assert forall|i: int|
        0 <= i < schema.fields.len() && (forall|k: int|
            0 <= k < calls.len() ==> (#[trigger] calls[k]).setter != i) implies #[trigger] record[i]
        == FieldValue::<V>::Optional(None) by {
        lemma_last_value(calls, i);
        assert(read(e, slots, e.build.inits[i]) == last_value(calls, i));
    }
    assert forall|i: int| 0 <= i < schema.fields.len() implies #[trigger] record[i] == (if schema.fields[i].classification
        is Required {
        FieldValue::Required(last_value(calls, i)->Some_0)
    } else {
        FieldValue::Optional(last_value(calls, i))
    }) by {
        assert(read(e, slots, e.build.inits[i]) == last_value(calls, i));
    }
}

/// Invoking one setter with `a` and then with `b` gives the same finished
/// record, or the same failure, as invoking it once with `b`, whatever was
/// called before and whatever is called after.
pub proof fn law_setter_is_idempotent<V>(
    schema: RecordSchemaView,
    before: Seq<Call<V>>,
    setter: int,
    a: V,
    b: V,
    after: Seq<Call<V>>,
)
    requires
        schema.wf(),
        0 <= setter < schema.fields.len(),
    ensures
        ({
            let e = emit_spec(schema);
            let twice = before + seq![Call { setter, value: a }, Call { setter, value: b }] + after;
            let once = before + seq![Call { setter, value: b }] + after;
            finalize(e, run(e, fresh(e), twice)) == finalize(e, run(e, fresh(e), once))
        }),
{
    let e = emit_spec(schema);
    crate::emit::lemma_emitted_is_consistent(schema);
    let first = Call { setter, value: a };
    let second = Call { setter, value: b };
    let start = run(e, fresh::<V>(e), before);
    lemma_run_len(e, fresh::<V>(e), before);
    lemma_slot_named(e, setter);
    let both = seq![first, second];
    let one = seq![second];
    assert(both.drop_last() =~= seq![first]);
    assert(seq![first].drop_last() =~= Seq::<Call<V>>::empty());
    assert(one.drop_last() =~= Seq::<Call<V>>::empty());
    assert(run(e, start, Seq::<Call<V>>::empty()) == start);
    assert(run(e, start, seq![first]) == store(e, start, e.setters[setter], a));
    assert(run(e, start, both) == store(e, store(e, start, e.setters[setter], a), e.setters[setter], b));
    assert(run(e, start, one) == store(e, start, e.setters[setter], b));
    assert(run(e, start, both) =~= run(e, start, one));
    lemma_run_concat(e, fresh::<V>(e), before, both);
    lemma_run_concat(e, fresh::<V>(e), before, one);
    lemma_run_concat(e, fresh::<V>(e), before + both, after);
    lemma_run_concat(e, fresh::<V>(e), before + one, after);
}

} // verus!
