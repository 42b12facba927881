//! The layout of a batch of control values for one atomic update.
//!
//! A batch that the kernel applies in one call names one class, counts its
//! entries, and holds for each control its identifier, the size of its payload
//! in bytes and the payload itself: a 64-bit number in place, or a buffer that
//! stays with the value it was taken from.

use crate::control::{class_of, Control, ControlView, Value, ValueView};
use crate::error::{Error, ErrorKind};
use vstd::prelude::*;
use vstd::utf8::encode_utf8;

verus! {

/// What an entry of a batch carries as its payload.
#[derive(Clone, Copy, Debug, PartialEq, Eq, Structural)]
pub enum Payload {
    /// Nothing: the entry is left zeroed.
    Empty,
    /// A signed 64-bit number, stored in the entry itself.
    Value64(i64),
    /// The bytes of the control's string, by reference.
    String,
    /// The control's buffer of bytes, by reference.
    U8,
    /// The control's buffer of 16-bit words, by reference.
    U16,
    /// The control's buffer of 32-bit words, by reference.
    U32,
    /// The control's untyped buffer, by reference.
    Ptr,
}

/// One entry of a batch.
#[derive(Clone, Copy, Debug, PartialEq, Eq, Structural)]
pub struct ExtControl {
    /// The identifier of the control.
    pub id: u32,
    /// The size of the payload in bytes, as far as 32 bits hold it.
    pub size: u32,
    /// The payload.
    pub payload: Payload,
}

/// The number of bytes that the payload of a value takes.
pub open spec fn payload_bytes(value: ValueView) -> nat {
    match value {
        ValueView::Empty => 0,
        ValueView::Integer(_) => 8,
        ValueView::Boolean(_) => 8,
        ValueView::String(s) => encode_utf8(s).len(),
        ValueView::CompoundU8(b) => b.len(),
        ValueView::CompoundU16(b) => 2 * b.len(),
        ValueView::CompoundU32(b) => 4 * b.len(),
        ValueView::CompoundPtr(b) => b.len(),
    }
}

/// The payload that stands for a value: numbers and truth values in place, a
/// truth value as 1 or 0, everything else by reference to its buffer.
pub open spec fn payload_of(value: ValueView) -> Payload {
    match value {
        ValueView::Empty => Payload::Empty,
        ValueView::Integer(v) => Payload::Value64(v),
        ValueView::Boolean(b) => Payload::Value64(if b { 1i64 } else { 0i64 }),
        ValueView::String(_) => Payload::String,
        ValueView::CompoundU8(_) => Payload::U8,
        ValueView::CompoundU16(_) => Payload::U16,
        ValueView::CompoundU32(_) => Payload::U32,
        ValueView::CompoundPtr(_) => Payload::Ptr,
    }
}

/// The entry that a control is laid out as. The size field has 32 bits; a
/// payload of 4 GiB or more leaves its low 32 bits there.
pub open spec fn marshal(ctrl: ControlView) -> ExtControl {
    ExtControl {
        id: ctrl.id,
        size: payload_bytes(ctrl.value) as u32,
        payload: payload_of(ctrl.value),
    }
}

/// Lays one control out as an entry of a batch.
pub fn marshal_control(ctrl: &Control) -> (entry: ExtControl)
    ensures
        entry == marshal(ctrl@),
{
    match &ctrl.value {
        Value::Empty => ExtControl { id: ctrl.id, size: 0, payload: Payload::Empty },
        Value::Integer(v) => ExtControl { id: ctrl.id, size: 8, payload: Payload::Value64(*v) },
        Value::Boolean(b) => {
            let number: i64 = if *b { 1 } else { 0 };
            ExtControl { id: ctrl.id, size: 8, payload: Payload::Value64(number) }
        },
        Value::String(s) => {
            let bytes: usize = s.as_str().as_bytes().len();
            ExtControl { id: ctrl.id, size: #[verifier::truncate] (bytes as u32), payload: Payload::String }
        },
        Value::CompoundU8(b) => {
            let bytes: usize = b.len();
            ExtControl { id: ctrl.id, size: #[verifier::truncate] (bytes as u32), payload: Payload::U8 }
        },
        Value::CompoundU16(b) => {
            let bytes: u128 = 2 * (b.len() as u128);
            ExtControl { id: ctrl.id, size: #[verifier::truncate] (bytes as u32), payload: Payload::U16 }
        },
        Value::CompoundU32(b) => {
            let bytes: u128 = 4 * (b.len() as u128);
            ExtControl { id: ctrl.id, size: #[verifier::truncate] (bytes as u32), payload: Payload::U32 }
        },
        Value::CompoundPtr(b) => {
            let bytes: usize = b.len();
            ExtControl { id: ctrl.id, size: #[verifier::truncate] (bytes as u32), payload: Payload::Ptr }
        },
    }
}

/// A batch of controls, laid out for one atomic update.
#[derive(Clone, Debug, PartialEq, Eq)]
pub struct ExtControls {
    /// The class that every control of the batch belongs to.
    pub which: u32,
    /// The number of controls, as far as 32 bits hold it.
    pub count: u32,
    /// One entry for each control, in the order of the batch.
    pub controls: Vec<ExtControl>,
    /// The controls that the entries were laid out from, in the same order.
    /// They own the buffers that the entries refer to.
    pub values: Vec<Control>,
}

/// The mathematical value of an [`ExtControls`].
pub struct ExtControlsView {
    pub which: u32,
    pub count: u32,
    pub controls: Seq<ExtControl>,
    pub values: Seq<ControlView>,
}

impl View for ExtControls {
    type V = ExtControlsView;

    open spec fn view(&self) -> ExtControlsView {
        ExtControlsView {
            which: self.which,
            count: self.count,
            controls: self.controls@,
            values: crate::control::controls_view(self.values@),
        }
    }
}

/// All controls of the list belong to one class.
pub open spec fn one_class(ctrls: Seq<ControlView>) -> bool {
    forall|i: int, j: int|
        0 <= i < ctrls.len() && 0 <= j < ctrls.len() ==> class_of(#[trigger] ctrls[i].id)
            == class_of(#[trigger] ctrls[j].id)
}

/// The batch that a list of controls of one class is laid out as.
pub open spec fn batch_of(ctrls: Seq<ControlView>) -> ExtControlsView {
    ExtControlsView {
        which: class_of(ctrls[0].id),
        count: ctrls.len() as u32,
        controls: ctrls.map_values(|c: ControlView| marshal(c)),
        values: ctrls,
    }
}

/// What laying out a list of controls comes to: an empty list and a list of
/// mixed classes are refused, any other list gives its batch.
pub open spec fn layout(ctrls: Seq<ControlView>) -> Result<ExtControlsView, Error> {
    if ctrls.len() == 0 {
        Err(Error::EmptyBatch)
    } else if !one_class(ctrls) {
        Err(Error::MixedClasses)
    } else {
        Ok(batch_of(ctrls))
    }
}

/// Two identifiers belong to one class exactly when their upper sixteen bits
/// agree.
pub proof fn lemma_class_is_upper_half(a: u32, b: u32)
    ensures
        class_of(a) == class_of(b) <==> a >> 16 == b >> 16,
{
    assert((a & 0xFFFF_0000u32) == (b & 0xFFFF_0000u32) <==> a >> 16u32 == b >> 16u32)
        by (bit_vector);
}

/// A batch without controls is refused as invalid input.
pub proof fn lemma_empty_batch_refused()
    ensures
        layout(Seq::<ControlView>::empty()) == Err::<ExtControlsView, _>(Error::EmptyBatch),
        Error::EmptyBatch.kind_spec() == ErrorKind::InvalidInput,
{
}

/// A batch that holds two controls whose identifiers differ in their upper
/// sixteen bits is refused as invalid input, wherever in the batch the two
/// stand. What comes back is the error alone: no batch that could be sent.
pub proof fn lemma_mixed_classes_refused(ctrls: Seq<ControlView>, i: int, j: int)
    requires
        0 <= i < ctrls.len(),
        0 <= j < ctrls.len(),
        ctrls[i].id >> 16 != ctrls[j].id >> 16,
    ensures
        layout(ctrls) == Err::<ExtControlsView, _>(Error::MixedClasses),
        Error::MixedClasses.kind_spec() == ErrorKind::InvalidInput,
{
    lemma_class_is_upper_half(ctrls[i].id, ctrls[j].id);
}

/// A batch is laid out exactly when it holds a control and all its controls
/// belong to one class; every refusal is of the invalid-input class and is
/// found without the operating system. The batch laid out holds every
/// control, in order, under the class of the first.
pub proof fn lemma_layout(ctrls: Seq<ControlView>)
    ensures
        layout(ctrls) is Ok <==> ctrls.len() > 0 && one_class(ctrls),
        layout(ctrls) matches Err(e) ==> e.kind_spec() == ErrorKind::InvalidInput && e.is_local(),
        layout(ctrls) matches Ok(batch) ==> {
            &&& batch.which == class_of(ctrls[0].id)
            &&& batch.values == ctrls
            &&& batch.controls.len() == ctrls.len()
            &&& forall|k: int|
                0 <= k < ctrls.len() ==> (#[trigger] batch.controls[k]) == marshal(ctrls[k])
                    && class_of(batch.controls[k].id) == batch.which
        },
{
}

} // verus!
