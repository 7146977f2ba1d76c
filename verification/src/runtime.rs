//! A builder that runs: the emitted declarations, carried out on values.

use vstd::prelude::*;
use crate::emit::{
    Expansion, ExpansionView, FieldInit, FieldInitView, SetterDecl, SetterDeclView, SlotRead,
};
use crate::semantics::{
    field_value, finalize, fresh, lacks, lemma_first_lacking, lemma_slot_named, setter_named,
    store, FieldValue,
};

verus! {

/// One field of a finished record.
#[derive(Debug, PartialEq, Eq)]
pub struct FieldEntry<V> {
    pub name: String,
    pub value: FieldValue<V>,
}

/// A finished record: its name and its fields in the order of the declaration.
#[derive(Debug, PartialEq, Eq)]
pub struct RecordValue<V> {
    pub name: String,
    pub fields: Vec<FieldEntry<V>>,
}

impl<V> RecordValue<V> {
    /// The names of the fields, in order.
    pub open spec fn names(&self) -> Seq<Seq<char>> {
        self.fields@.map_values(|f: FieldEntry<V>| f.name@)
    }

    /// What the fields hold, in order.
    pub open spec fn values(&self) -> Seq<FieldValue<V>> {
        self.fields@.map_values(|f: FieldEntry<V>| f.value)
    }
}

/// The failure of a finalization: a required field was never set.
#[derive(Debug, PartialEq, Eq)]
pub struct BuildError {
    pub message: String,
}

/// A builder for values of type `V`: the declarations it runs, and one slot
/// for each slot declared.
#[derive(Debug, PartialEq, Eq)]
pub struct Builder<V> {
    expansion: Expansion,
    slots: Vec<Option<V>>,
}

impl<V> Builder<V> {
    #[verifier::type_invariant]
    spec fn inv(&self) -> bool {
        self.slots.len() == self.expansion@.builder.slots.len()
    }

    /// The declarations that this builder runs.
    pub closed spec fn expansion(&self) -> ExpansionView {
        self.expansion@
    }

    /// What the slots hold.
    pub closed spec fn slots(&self) -> Seq<Option<V>> {
        self.slots@
    }

    /// Runs the factory: a builder in which every slot holds nothing.
    pub fn new(expansion: Expansion) -> (r: Self)
        ensures
            r.expansion() == expansion@,
            r.slots() == fresh::<V>(expansion@),
    {
        let n = expansion.factory().slots.len();
        let mut slots: Vec<Option<V>> = Vec::new();
        let mut i: usize = 0;
        while i < n
            invariant
                i <= n,
                slots.len() == i,
                forall|k: int| 0 <= k < i ==> slots[k] == None::<V>,
            decreases n - i,
        {
            slots.push(None);
            i += 1;
        }
        assert(slots@ =~= fresh::<V>(expansion@));
        Builder { expansion, slots }
    }

    /// Runs the setter named `setter` with `value`, and says whether there
    /// is such a setter. Where there is none, nothing changes.
    pub fn set(&mut self, setter: &str, value: V) -> (found: bool)
        ensures
            final(self).expansion() == old(self).expansion(),
            match setter_named(old(self).expansion(), setter@) {
                Some(at) => found && final(self).slots() == store(
                    old(self).expansion(),
                    old(self).slots(),
                    old(self).expansion().setters[at],
                    value,
                ),
                None => !found && final(self).slots() == old(self).slots(),
            },
    {
        proof {
            use_type_invariant(&*self);
        }
        let wanted = setter.to_owned();
        let setters = self.expansion.setters();
        let ghost names = self.expansion@.setters.map_values(|s: SetterDeclView| s.name);
        let mut i: usize = 0;
        while i < setters.len()
            invariant
                i <= setters.len(),
                wanted@ == setter@,
                *self == *old(self),
                self.expansion@.consistent(),
                self.slots.len() == self.expansion@.builder.slots.len(),
                setters@.map_values(|s: SetterDecl| s@) == self.expansion@.setters,
                names == self.expansion@.setters.map_values(|s: SetterDeclView| s.name),
                forall|k: int| 0 <= k < i ==> names[k] != setter@,
            decreases setters.len() - i,
        {
            assert(names[i as int] == setters[i as int]@.name);
            if setters[i].name == wanted {
                proof {
                    names.index_of_first_ensures(setter@);
                    lemma_slot_named(self.expansion@, i as int);
                }
                self.slots[i] = Some(value);
                return true;
            }
            i += 1;
        }
        proof {
            names.index_of_first_ensures(setter@);
        }
        false
    }

    /// Runs the finalization: the record made from the slots, or the
    /// failure of the first required field that was never set.
    pub fn build(self) -> (r: Result<RecordValue<V>, BuildError>)
        ensures
            match finalize(self.expansion(), self.slots()) {
                Ok(values) => {
                    &&& r is Ok
                    &&& r->Ok_0.name@ == self.expansion().build.record
                    &&& r->Ok_0.names() == self.expansion().build.inits.map_values(
                        |i: FieldInitView| i.field,
                    )
                    &&& r->Ok_0.values() == values
                },
                Err(message) => r is Err && r->Err_0.message@ == message,
            },
    {
        proof {
            use_type_invariant(&self);
        }
        let ghost e = self.expansion@;
        let ghost held = self.slots@;
        let build = self.expansion.build();
        let inits = &build.inits;
        let n = inits.len();
        let mut i: usize = 0;
        while i < n
            invariant
                i <= n,
                n == inits.len(),
                e == self.expansion@,
                e.consistent(),
                inits@.map_values(|i: FieldInit| i@) == e.build.inits,
                held.len() == e.builder.slots.len(),
                held == self.slots@,
                forall|j: int| 0 <= j < i ==> !lacks(e, held, j),
            decreases n - i,
        {
            assert(inits[i as int]@ == e.build.inits[i as int]);
            proof {
                lemma_slot_named(e, i as int);
            }
            match &inits[i].read {
                SlotRead::Require(message) => {
                    if self.slots[i].is_none() {
                        proof {
                            assert(lacks(e, held, i as int));
                            lemma_first_lacking(e, held, 0);
                        }
                        return Err(BuildError { message: message.clone() });
                    }
                },
                SlotRead::PassThrough => {},
            }
            i += 1;
        }
        proof {
            lemma_first_lacking(e, held, 0);
        }
        let name = build.record.clone();
        let mut fields: Vec<FieldEntry<V>> = Vec::new();
        let mut slots = self.slots;
        let mut at: usize = 0;
        while at < n
            invariant
                at <= n,
                n == inits.len(),
                e.consistent(),
                inits@.map_values(|i: FieldInit| i@) == e.build.inits,
                held.len() == n,
                slots.len() == n,
                forall|j: int| at <= j < n ==> slots[j] == held[j],
                forall|j: int| 0 <= j < n ==> !lacks(e, held, j),
                fields.len() == at,
                forall|j: int| 0 <= j < at ==> (#[trigger] fields[j]).name@ == e.build.inits[j].field,
                forall|j: int| 0 <= j < at ==> (#[trigger] fields[j]).value == field_value(e, held, j),
            decreases n - at,
        {
            assert(inits[at as int]@ == e.build.inits[at as int]);
            proof {
                lemma_slot_named(e, at as int);
            }
            assert(!lacks(e, held, at as int));
            let content = slots[at].take();
            let value = match &inits[at].read {
                SlotRead::Require(_) => FieldValue::Required(content.unwrap()),
                SlotRead::PassThrough => FieldValue::Optional(content),
            };
            fields.push(FieldEntry { name: inits[at].field.clone(), value });
            at += 1;
        }
        let record = RecordValue { name, fields };
        proof {
            let values = finalize(e, held)->Ok_0;
            assert(record.values() =~= values);
            assert(record.names() =~= e.build.inits.map_values(|i: FieldInitView| i.field));
        }
        Ok(record)
    }
}

} // verus!
