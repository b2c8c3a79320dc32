//! The data that events carry. The hub never looks inside a payload: it moves
//! it, copies it when an event fans out, and hands it to a sink. Each payload
//! is therefore held in the encoded form in which its producer supplied it.

use vstd::prelude::*;

verus! {

/// `serde_json::Value`, the loosely structured value of a partial telemetry
/// update. The hub carries it through unread, so nothing inside it is visible
/// here.
#[verifier::external_type_specification]
#[verifier::external_body]
pub struct ExValue(serde_json::Value);

/// `Clone::clone` of `serde_json::Value`, whose impl is derived: the copy has
/// the same variant and the same contents as the value it was made from, at
/// every depth.
pub assume_specification[ <serde_json::Value as Clone>::clone ](
    value: &serde_json::Value,
) -> (copy: serde_json::Value)
    ensures
        copy == *value,
;

/// A complete telemetry frame.
#[derive(Debug, PartialEq, Eq)]
pub struct Telemetry {
    pub snapshot: Vec<u8>,
}

/// One time-slot record.
#[derive(Debug, PartialEq, Eq)]
pub struct TimeSlot {
    pub record: Vec<u8>,
}

/// A bulk refresh of time-slots, in the order in which they were supplied.
#[derive(Debug, PartialEq, Eq)]
pub struct TimeSlots {
    pub slots: Vec<TimeSlot>,
}

/// A configuration snapshot.
#[derive(Debug, PartialEq, Eq)]
pub struct Config {
    pub snapshot: Vec<u8>,
}

/// A message that arrived from an external source.
#[derive(Debug, PartialEq, Eq)]
pub struct Message {
    pub body: Vec<u8>,
}

impl View for Telemetry {
    type V = Seq<u8>;

    open spec fn view(&self) -> Seq<u8> {
        self.snapshot@
    }
}

impl View for TimeSlot {
    type V = Seq<u8>;

    open spec fn view(&self) -> Seq<u8> {
        self.record@
    }
}

impl View for TimeSlots {
    type V = Seq<Seq<u8>>;

    open spec fn view(&self) -> Seq<Seq<u8>> {
        Seq::new(self.slots@.len(), |i: int| self.slots@[i]@)
    }
}

impl View for Config {
    type V = Seq<u8>;

    open spec fn view(&self) -> Seq<u8> {
        self.snapshot@
    }
}

impl View for Message {
    type V = Seq<u8>;

    open spec fn view(&self) -> Seq<u8> {
        self.body@
    }
}

impl Clone for Telemetry {
    fn clone(&self) -> (copy: Self)
        ensures
            copy@ == self@,
    {
        Telemetry { snapshot: self.snapshot.clone() }
    }
}

impl Clone for TimeSlot {
    fn clone(&self) -> (copy: Self)
        ensures
            copy@ == self@,
    {
        TimeSlot { record: self.record.clone() }
    }
}

impl Clone for TimeSlots {
    fn clone(&self) -> (copy: Self)
        ensures
            copy@ == self@,
    {
        let mut slots: Vec<TimeSlot> = Vec::new();
        let mut i: usize = 0;
        while i < self.slots.len()
            invariant
                i <= self.slots.len(),
                slots@.len() == i,
                forall|j: int| 0 <= j < i ==> slots@[j]@ == self.slots@[j]@,
            decreases self.slots.len() - i,
        {
            slots.push(self.slots[i].clone());
            i += 1;
        }
        let copy = TimeSlots { slots };
        assert(copy@ =~= self@);
        copy
    }
}

impl Clone for Config {
    fn clone(&self) -> (copy: Self)
        ensures
            copy@ == self@,
    {
        Config { snapshot: self.snapshot.clone() }
    }
}

impl Clone for Message {
    fn clone(&self) -> (copy: Self)
        ensures
            copy@ == self@,
    {
        Message { body: self.body.clone() }
    }
}

} // verus!
