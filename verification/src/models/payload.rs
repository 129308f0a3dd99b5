use crate::models::config_file::{ArgSpec, ConfigArguments};
use vstd::prelude::*;

verus! {

/// A bound argument slot, as a mathematical value.
pub struct Slot {
    pub value: Seq<char>,
    pub arg: ArgSpec,
}

/// The slot that binds a value to one declared argument of the selected bundle.
#[derive(Debug, PartialEq, Eq)]
pub struct Payload {
    pub value: String,
    pub arg: ConfigArguments,
}

impl View for Payload {
    type V = Slot;

    open spec fn view(&self) -> Slot {
        Slot { value: self.value@, arg: self.arg@ }
    }
}

pub open spec fn slots_view(payloads: Seq<Payload>) -> Seq<Slot> {
    Seq::new(payloads.len(), |i: int| payloads[i]@)
}

/// The slots of a freshly selected bundle: one per declared argument, in the
/// declared order, each with an empty value.
pub open spec fn empty_slots(schema: Seq<ArgSpec>) -> Seq<Slot> {
    Seq::new(schema.len(), |i: int| Slot { value: Seq::empty(), arg: schema[i] })
}

/// The arguments that a run of slots were made for.
pub open spec fn slot_schema(slots: Seq<Slot>) -> Seq<ArgSpec> {
    Seq::new(slots.len(), |i: int| slots[i].arg)
}

impl Clone for Payload {
    fn clone(&self) -> (copy: Self)
        ensures
            copy@ == self@,
    {
        Payload { value: self.value.clone(), arg: self.arg.clone() }
    }
}

} // verus!
