//! Reading the current value of one control.
//!
//! The value of a control is read in two steps: the driver is asked what the
//! control is, which tells its type, and then what its value is. The raw value
//! is a 32-bit number; the type decides how it is to be read.

use crate::control::{Control, ControlReport, ControlView, Type, Value, ValueView};
use crate::error::{Error, OsError};
use crate::request::Request;
use vstd::prelude::*;

verus! {

/// The value that a raw number stands for in a control of the given type.
///
/// A number of either integer type is that number. A truth value is true for
/// the raw number 1 and false for every other, 2 and -1 among them. A control
/// of any other type has no value that a single number could hold.
pub open spec fn interpret(typ: Type, raw: i32) -> Result<ValueView, Error> {
    match typ {
        Type::Integer => Ok(ValueView::Integer(raw as i64)),
        Type::Integer64 => Ok(ValueView::Integer(raw as i64)),
        Type::Boolean => Ok(ValueView::Boolean(raw == 1)),
        _ => Err(Error::UnsupportedType),
    }
}

/// Reads a raw number as the value of a control of the given type.
pub fn interpret_value(typ: Type, raw: i32) -> (result: Result<Value, Error>)
    ensures
        match result {
            Ok(value) => interpret(typ, raw) == Ok::<_, Error>(value@),
            Err(e) => interpret(typ, raw) == Err::<ValueView, _>(e),
        },
{
    match typ {
        Type::Integer => Ok(Value::Integer(raw as i64)),
        Type::Integer64 => Ok(Value::Integer(raw as i64)),
        Type::Boolean => Ok(Value::Boolean(raw == 1)),
        _ => Err(Error::UnsupportedType),
    }
}

/// The mathematical value of a [`ControlFetch`].
pub enum FetchView {
    /// The description of the control has been asked for.
    Description { id: u32 },
    /// The control is of type `typ`, and its value has been asked for.
    Value { id: u32, typ: Type },
    /// The reading has ended with `result`.
    Done { id: u32, result: Result<ValueView, Error> },
}

impl FetchView {
    /// The reading of the control `id` before its first query.
    pub open spec fn initial(id: u32) -> FetchView {
        FetchView::Description { id }
    }

    /// The query whose reply the reading waits for, if it waits for one.
    pub open spec fn request(self) -> Option<Request> {
        match self {
            FetchView::Description { id } => Some(Request::QueryControl { id }),
            FetchView::Value { id, typ } => Some(Request::GetControl { id }),
            FetchView::Done { .. } => None,
        }
    }

    /// The reading after the reply to the query for the description: a
    /// failure ends it with that error, a report tells the type and leads to
    /// the query for the value, whatever the type is.
    pub open spec fn after_description(self, reply: Result<Type, OsError>) -> FetchView {
        match self {
            FetchView::Description { id } => match reply {
                Ok(typ) => FetchView::Value { id, typ },
                Err(e) => FetchView::Done { id, result: Err(Error::Os(e)) },
            },
            _ => self,
        }
    }

    /// The reading after the reply to the query for the value: a failure ends
    /// it with that error, a raw number ends it with what the number stands
    /// for in a control of the type learned before.
    pub open spec fn after_value(self, reply: Result<i32, OsError>) -> FetchView {
        match self {
            FetchView::Value { id, typ } => match reply {
                Ok(raw) => FetchView::Done { id, result: interpret(typ, raw) },
                Err(e) => FetchView::Done { id, result: Err(Error::Os(e)) },
            },
            _ => self,
        }
    }

    /// What an ended reading hands out: the control with its value, or the
    /// error.
    pub open spec fn outcome(self) -> Result<ControlView, Error> {
        match self {
            FetchView::Done { id, result: Ok(value) } => Ok(ControlView { id, value }),
            FetchView::Done { id, result: Err(e) } => Err(e),
            _ => arbitrary(),
        }
    }
}

/// The type that a reply to a query for a description tells.
pub open spec fn reported_type(reply: Result<ControlReport, OsError>) -> Result<Type, OsError> {
    match reply {
        Ok(report) => Ok(report.typ),
        Err(e) => Err(e),
    }
}

#[derive(Clone, Copy)]
enum Stage {
    Description,
    Value(Type),
    Read(Type, i32),
    Failed(OsError),
}

/// The reading of one control's value, somewhere between its first query and
/// its end.
pub struct ControlFetch {
    id: u32,
    stage: Stage,
}

impl View for ControlFetch {
    type V = FetchView;

    closed spec fn view(&self) -> FetchView {
        match self.stage {
            Stage::Description => FetchView::Description { id: self.id },
            Stage::Value(typ) => FetchView::Value { id: self.id, typ },
            Stage::Read(typ, raw) => FetchView::Done { id: self.id, result: interpret(typ, raw) },
            Stage::Failed(e) => FetchView::Done { id: self.id, result: Err(Error::Os(e)) },
        }
    }
}

impl ControlFetch {
    /// The reading of the control `id` before its first query.
    pub fn new(id: u32) -> (start: ControlFetch)
        ensures
            start@ == FetchView::initial(id),
    {
        ControlFetch { id, stage: Stage::Description }
    }

    /// The query that the caller has to put to the driver now, or `None` once
    /// the reading has ended.
    pub fn request(&self) -> (request: Option<Request>)
        ensures
            request == self@.request(),
    {
        match self.stage {
            Stage::Description => Some(Request::QueryControl { id: self.id }),
            Stage::Value(_) => Some(Request::GetControl { id: self.id }),
            Stage::Read(_, _) => None,
            Stage::Failed(_) => None,
        }
    }

    /// Takes the driver's reply to the query for the description.
    ///
    /// A reply that the reading does not wait for changes nothing.
    pub fn description_reply(self, reply: Result<ControlReport, OsError>) -> (next: ControlFetch)
        ensures
            next@ == self@.after_description(reported_type(reply)),
    {
        match self.stage {
            Stage::Description => match reply {
                Ok(report) => ControlFetch { id: self.id, stage: Stage::Value(report.typ) },
                Err(e) => ControlFetch { id: self.id, stage: Stage::Failed(e) },
            },
            _ => self,
        }
    }

    /// Takes the driver's reply to the query for the value.
    ///
    /// A reply that the reading does not wait for changes nothing.
    pub fn value_reply(self, reply: Result<i32, OsError>) -> (next: ControlFetch)
        ensures
            next@ == self@.after_value(reply),
    {
        match self.stage {
            Stage::Value(typ) => match reply {
                Ok(raw) => ControlFetch { id: self.id, stage: Stage::Read(typ, raw) },
                Err(e) => ControlFetch { id: self.id, stage: Stage::Failed(e) },
            },
            _ => self,
        }
    }

    /// Tells whether the reading has ended.
    pub fn is_finished(&self) -> (finished: bool)
        ensures
            finished == (self@ is Done),
    {
        match self.stage {
            Stage::Read(_, _) => true,
            Stage::Failed(_) => true,
            _ => false,
        }
    }

    /// Hands out what an ended reading has come to: the control with its
    /// value, or the error that ended it.
    pub fn finish(self) -> (result: Result<Control, Error>)
        requires
            self@ is Done,
        ensures
            match result {
                Ok(control) => self@.outcome() == Ok::<_, Error>(control@),
                Err(e) => self@.outcome() == Err::<ControlView, _>(e),
            },
    {
        match self.stage {
            Stage::Read(typ, raw) => match interpret_value(typ, raw) {
                Ok(value) => Ok(Control { id: self.id, value }),
                Err(e) => Err(e),
            },
            Stage::Failed(e) => Err(Error::Os(e)),
            _ => Err(Error::UnsupportedType),
        }
    }
}

/// A truth value is true for the raw number 1 alone: every other raw number,
/// zero or not, reads as false.
pub proof fn lemma_only_one_is_true(raw: i32)
    ensures
        interpret(Type::Boolean, raw) == Ok::<_, Error>(ValueView::Boolean(raw == 1)),
        raw != 1 ==> interpret(Type::Boolean, raw) == Ok::<_, Error>(ValueView::Boolean(false)),
{
}

/// A value is handed out for the two integer types and the truth type, and
/// for no other.
pub proof fn lemma_scalar_types(typ: Type, raw: i32)
    ensures
        interpret(typ, raw) is Ok <==> typ == Type::Integer || typ == Type::Integer64 || typ
            == Type::Boolean,
        interpret(typ, raw) matches Err(e) ==> e == Error::UnsupportedType,
{
}

/// A reading goes through its two queries in order and ends with the value
/// that the type reported first gives to the number reported second. A
/// failure of either query ends it with that failure; after a failure of the
/// first, the second is not asked.
pub proof fn lemma_reading(id: u32, typ: Type, raw: i32, e: OsError)
    ensures
        FetchView::initial(id).request() == Some(Request::QueryControl { id }),
        FetchView::initial(id).after_description(Ok(typ)).request() == Some(
            Request::GetControl { id },
        ),
        FetchView::initial(id).after_description(Ok(typ)).after_value(Ok(raw)).outcome() == (
        match interpret(typ, raw) {
            Ok(value) => Ok::<_, Error>(ControlView { id, value }),
            Err(e) => Err::<ControlView, _>(e),
        }),
        FetchView::initial(id).after_description(Err(e)).request() is None,
        FetchView::initial(id).after_description(Err(e)).outcome() == Err::<ControlView, _>(
            Error::Os(e),
        ),
        FetchView::initial(id).after_description(Ok(typ)).after_value(Err(e)).outcome() == Err::<
            ControlView,
            _,
        >(Error::Os(e)),
{
}

} // verus!
