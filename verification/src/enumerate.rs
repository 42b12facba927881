//! The enumeration of a device's controls.
//!
//! A driver hands its controls out one at a time: each query names the control
//! reported last and asks for the one after it. A control of a menu type needs
//! one more query for each index between its minimum and its maximum. The
//! enumeration decides, from each reply, what to ask next and what to keep; the
//! caller puts the queries to the driver and hands the replies back.

use crate::control::{
    descriptions_view, items_view, ControlReport, ControlReportView, Description, DescriptionView,
    MenuItem, MenuItemView,
};
use crate::error::{Error, ErrorKind, OsError};
use crate::request::{advance, advance_cursor, Request};
use vstd::prelude::*;

verus! {

/// Where an enumeration stands.
pub enum StageView {
    /// The next control has been asked for.
    NextControl,
    /// The menu of the control that `report` describes is being read: `items`
    /// are kept so far, and the item at `index` has been asked for.
    MenuItem { report: ControlReportView, items: Seq<(u32, MenuItemView)>, index: i32 },
    /// The driver has no further control.
    Done,
    /// The driver failed in a way that ends the enumeration.
    Failed(OsError),
}

/// The mathematical value of an [`Enumeration`].
pub struct EnumerationView {
    /// The controls described so far, in the order the driver reported them.
    pub collected: Seq<DescriptionView>,
    /// The identifier of the control reported last; 0 before the first report.
    pub cursor: u32,
    /// Where the enumeration stands.
    pub stage: StageView,
}

/// The index that is asked for after `index` in the menu of `report`: one step
/// further, as long as that does not pass the maximum. A step that is not
/// positive leads nowhere.
pub open spec fn next_index(report: ControlReportView, index: i32) -> Option<i32> {
    if report.step > 0 && index + report.step <= report.maximum {
        Some((index + report.step) as i32)
    } else {
        None
    }
}

impl EnumerationView {
    /// The enumeration before the first query.
    pub open spec fn initial() -> EnumerationView {
        EnumerationView { collected: Seq::empty(), cursor: 0, stage: StageView::NextControl }
    }

    /// The query whose reply the enumeration waits for, if it waits for one.
    pub open spec fn request(self) -> Option<Request> {
        match self.stage {
            StageView::NextControl => Some(Request::QueryControl { id: advance(self.cursor) }),
            StageView::MenuItem { report, items, index } => Some(
                Request::QueryMenu { id: report.id, index: index as u32, typ: report.typ },
            ),
            StageView::Done => None,
            StageView::Failed(_) => None,
        }
    }

    /// The enumeration has ended, well or badly.
    pub open spec fn finished(self) -> bool {
        self.stage is Done || self.stage is Failed
    }

    /// What the enumeration has come to once it has ended: the controls
    /// collected, or the error of the operating system that ended it.
    pub open spec fn outcome(self) -> Result<Seq<DescriptionView>, Error> {
        match self.stage {
            StageView::Failed(e) => Err(Error::Os(e)),
            _ => Ok(self.collected),
        }
    }

    /// The enumeration after the reply to a query for the next control.
    ///
    /// A failure of the invalid-input class means that the driver has no
    /// further control, and ends the enumeration well, whether or not a control
    /// was reported before; any other failure ends it with that error. A
    /// report moves the cursor to the control reported. A control of a menu
    /// type with at least one index between minimum and maximum starts the
    /// reading of its menu at the minimum; any other control is described at
    /// once, a menu without an index by an empty list of items.
    pub open spec fn after_control(self, reply: Result<ControlReportView, OsError>) -> EnumerationView {
        if !(self.stage is NextControl) {
            self
        } else {
            match reply {
                Err(e) => EnumerationView {
                    stage: if e.kind == ErrorKind::InvalidInput {
                        StageView::Done
                    } else {
                        StageView::Failed(e)
                    },
                    ..self
                },
                Ok(report) => if !report.typ.is_menu() {
                    EnumerationView {
                        collected: self.collected.push(DescriptionView::of_report(report, None)),
                        cursor: report.id,
                        stage: StageView::NextControl,
                    }
                } else if report.minimum > report.maximum {
                    EnumerationView {
                        collected: self.collected.push(
                            DescriptionView::of_report(report, Some(Seq::empty())),
                        ),
                        cursor: report.id,
                        stage: StageView::NextControl,
                    }
                } else {
                    EnumerationView {
                        collected: self.collected,
                        cursor: report.id,
                        stage: StageView::MenuItem {
                            report,
                            items: Seq::empty(),
                            index: report.minimum,
                        },
                    }
                },
            }
        }
    }

    /// The enumeration after the reply to a query for a menu item.
    ///
    /// An item that the driver describes is kept under the index asked for; an
    /// index that the driver refuses is passed over, whatever the error. Then
    /// the next index is asked for, or, when there is none, the control is
    /// described with the items kept and the next control is asked for.
    pub open spec fn after_menu_item(self, reply: Result<MenuItemView, OsError>) -> EnumerationView {
        match self.stage {
            StageView::MenuItem { report, items, index } => {
                let kept = match reply {
                    Ok(item) => items.push((index as u32, item)),
                    Err(_) => items,
                };
                match next_index(report, index) {
                    Some(next) => EnumerationView {
                        stage: StageView::MenuItem { report, items: kept, index: next },
                        ..self
                    },
                    None => EnumerationView {
                        collected: self.collected.push(
                            DescriptionView::of_report(report, Some(kept)),
                        ),
                        stage: StageView::NextControl,
                        ..self
                    },
                }
            },
            _ => self,
        }
    }

    /// Every control collected holds menu items exactly when it is of a menu
    /// type, and a menu is read only for a control of a menu type.
    pub open spec fn well_formed(self) -> bool {
        &&& forall|i: int|
            0 <= i < self.collected.len() ==> (#[trigger] self.collected[i]).items_match_type()
        &&& self.stage matches StageView::MenuItem { report, .. } ==> report.typ.is_menu()
    }
}

/// The mathematical value of a reply to a query for a control.
pub open spec fn control_reply_view(reply: Result<ControlReport, OsError>) -> Result<
    ControlReportView,
    OsError,
> {
    match reply {
        Ok(report) => Ok(report@),
        Err(e) => Err(e),
    }
}

/// The mathematical value of a reply to a query for a menu item.
pub open spec fn menu_reply_view(reply: Result<MenuItem, OsError>) -> Result<MenuItemView, OsError> {
    match reply {
        Ok(item) => Ok(item@),
        Err(e) => Err(e),
    }
}

enum Stage {
    NextControl,
    MenuItem { report: ControlReport, items: Vec<(u32, MenuItem)>, index: i32 },
    Done,
    Failed(OsError),
}

impl View for Stage {
    type V = StageView;

    closed spec fn view(&self) -> StageView {
        match *self {
            Stage::NextControl => StageView::NextControl,
            Stage::MenuItem { report, items, index } => StageView::MenuItem {
                report: report@,
                items: items_view(items@),
                index,
            },
            Stage::Done => StageView::Done,
            Stage::Failed(e) => StageView::Failed(e),
        }
    }
}

/// An enumeration of the controls of a device, somewhere between its first
/// query and its end.
pub struct Enumeration {
    controls: Vec<Description>,
    cursor: u32,
    stage: Stage,
}

impl View for Enumeration {
    type V = EnumerationView;

    closed spec fn view(&self) -> EnumerationView {
        EnumerationView {
            collected: descriptions_view(self.controls@),
            cursor: self.cursor,
            stage: self.stage@,
        }
    }
}

impl Enumeration {
    #[verifier::type_invariant]
    spec fn type_inv(&self) -> bool {
        self@.well_formed()
    }

    /// An enumeration before its first query.
    pub fn new() -> (start: Enumeration)
        ensures
            start@ == EnumerationView::initial(),
    {
        let start = Enumeration { controls: Vec::new(), cursor: 0, stage: Stage::NextControl };
        assert(descriptions_view(start.controls@) =~= Seq::empty());
        start
    }

    /// The query that the caller has to put to the driver now, or `None` once
    /// the enumeration has ended.
    pub fn request(&self) -> (request: Option<Request>)
        ensures
            request == self@.request(),
    {
        match &self.stage {
            Stage::NextControl => Some(Request::QueryControl { id: advance_cursor(self.cursor) }),
            Stage::MenuItem { report, items, index } => Some(
                Request::QueryMenu {
                    id: report.id,
                    index: #[verifier::truncate] (*index as u32),
                    typ: report.typ,
                },
            ),
            Stage::Done => None,
            Stage::Failed(_) => None,
        }
    }

    /// Takes the driver's reply to a query for the next control.
    ///
    /// A reply that the enumeration does not wait for changes nothing. A
    /// report of a menu whose step is zero describes a menu that cannot be
    /// walked, and must not be handed in while the enumeration waits for a
    /// control.
    pub fn control_reply(self, reply: Result<ControlReport, OsError>) -> (next: Enumeration)
        requires
            self@.stage is NextControl ==> (reply matches Ok(report)
                ==> report@.has_walkable_menu()),
        ensures
            next@ == self@.after_control(control_reply_view(reply)),
    {
        proof {
            use_type_invariant(&self);
        }
        let ghost before = self@;
        let Enumeration { controls, cursor, stage } = self;
        let mut controls = controls;
        match stage {
            Stage::NextControl => match reply {
                Err(e) => {
                    let stage = match e.kind {
                        ErrorKind::InvalidInput => Stage::Done,
                        ErrorKind::Other => Stage::Failed(e),
                    };
                    Enumeration { controls, cursor, stage }
                },
                Ok(report) => {
                    let id = report.id;
                    if !report.typ.is_menu() {
                        let description = Description::from_report(report, None);
                        controls.push(description);
                        assert(descriptions_view(controls@) =~= before.collected.push(
                            description@,
                        ));
                        Enumeration { controls, cursor: id, stage: Stage::NextControl }
                    } else if report.minimum > report.maximum {
                        let items: Vec<(u32, MenuItem)> = Vec::new();
                        assert(items_view(items@) =~= Seq::empty());
                        let description = Description::from_report(report, Some(items));
                        controls.push(description);
                        assert(descriptions_view(controls@) =~= before.collected.push(
                            description@,
                        ));
                        Enumeration { controls, cursor: id, stage: Stage::NextControl }
                    } else {
                        let index = report.minimum;
                        let items: Vec<(u32, MenuItem)> = Vec::new();
                        assert(items_view(items@) =~= Seq::empty());
                        Enumeration {
                            controls,
                            cursor: id,
                            stage: Stage::MenuItem { report, items, index },
                        }
                    }
                },
            },
            other => Enumeration { controls, cursor, stage: other },
        }
    }

    /// Takes the driver's reply to a query for a menu item.
    ///
    /// A reply that the enumeration does not wait for changes nothing.
    pub fn menu_reply(self, reply: Result<MenuItem, OsError>) -> (next: Enumeration)
        ensures
            next@ == self@.after_menu_item(menu_reply_view(reply)),
    {
        proof {
            use_type_invariant(&self);
        }
        let ghost before = self@;
        let Enumeration { controls, cursor, stage } = self;
        let mut controls = controls;
        match stage {
            Stage::MenuItem { report, items, index } => {
                let mut items = items;
                let ghost items_before = items_view(items@);
                match reply {
                    Ok(item) => {
                        let entry = (#[verifier::truncate] (index as u32), item);
                        items.push(entry);
                        assert(items_view(items@) =~= items_before.push((index as u32, item@)));
                    },
                    Err(_) => {},
                }
                let step = report.step;
                let maximum = report.maximum;
                if step > 0 && (index as i64) + (step as i64) <= maximum as i64 {
                    let next = index + step;
                    Enumeration {
                        controls,
                        cursor,
                        stage: Stage::MenuItem { report, items, index: next },
                    }
                } else {
                    let description = Description::from_report(report, Some(items));
                    controls.push(description);
                    assert(descriptions_view(controls@) =~= before.collected.push(
                        description@,
                    ));
                    Enumeration { controls, cursor, stage: Stage::NextControl }
                }
            },
            other => Enumeration { controls, cursor, stage: other },
        }
    }

    /// Tells whether the enumeration has ended.
    pub fn is_finished(&self) -> (finished: bool)
        ensures
            finished == self@.finished(),
    {
        match &self.stage {
            Stage::Done => true,
            Stage::Failed(_) => true,
            _ => false,
        }
    }

    /// Hands out what an ended enumeration has come to: every control that
    /// the driver reported, in the driver's order, or the error that ended it.
    /// Each control handed out holds menu items exactly when it is of a menu
    /// type.
    pub fn finish(self) -> (result: Result<Vec<Description>, Error>)
        requires
            self@.finished(),
        ensures
            match result {
                Ok(list) => self@.outcome() == Ok::<_, Error>(descriptions_view(list@)),
                Err(e) => self@.outcome() == Err::<Seq<DescriptionView>, _>(e),
            },
            result matches Ok(list) ==> forall|i: int|
                0 <= i < list@.len() ==> (#[trigger] list@[i])@.items_match_type(),
    {
        proof {
            use_type_invariant(&self);
        }
        let Enumeration { controls, cursor, stage } = self;
        match stage {
            Stage::Failed(e) => Err(Error::Os(e)),
            _ => {
                assert forall|i: int| 0 <= i < controls@.len() implies (
                #[trigger] controls@[i])@.items_match_type() by {
                    assert(descriptions_view(controls@)[i] == controls@[i]@);
                }
                Ok(controls)
            },
        }
    }
}

} // verus!
