//! The control model: what a driver reports about a control, and the values a
//! control can be given.

use vstd::prelude::*;

verus! {

/// The mask that selects the class of a control from its identifier: the upper
/// sixteen bits.
pub const CLASS_MASK: u32 = 0xFFFF_0000;

/// The class that a control identifier belongs to.
pub open spec fn class_of(id: u32) -> u32 {
    id & CLASS_MASK
}

/// The class that a control identifier belongs to.
#[verifier::when_used_as_spec(class_of)]
pub fn control_class(id: u32) -> (class: u32)
    ensures
        class == class_of(id),
{
    id & CLASS_MASK
}

/// The type that a driver declares for a control.
#[derive(Clone, Copy, Debug, PartialEq, Eq, Structural)]
pub enum Type {
    Integer,
    Boolean,
    Menu,
    Button,
    Integer64,
    CtrlClass,
    String,
    Bitmask,
    IntegerMenu,
    U8,
    U16,
    U32,
    Area,
}

impl Type {
    /// True for the two types whose legal values are a list of menu items.
    pub open spec fn is_menu_spec(&self) -> bool {
        *self == Type::Menu || *self == Type::IntegerMenu
    }

    /// True for the two types whose legal values are a list of menu items.
    #[verifier::when_used_as_spec(is_menu_spec)]
    pub fn is_menu(&self) -> (menu: bool)
        ensures
            menu == self.is_menu_spec(),
    {
        match self {
            Type::Menu => true,
            Type::IntegerMenu => true,
            _ => false,
        }
    }
}

/// One entry of a menu control.
#[derive(Clone, Debug, PartialEq, Eq)]
pub enum MenuItem {
    /// The entry of a menu: its label.
    Name(String),
    /// The entry of an integer menu: its number.
    Value(i64),
}

/// The mathematical value of a [`MenuItem`].
pub enum MenuItemView {
    Name(Seq<char>),
    Value(i64),
}

impl View for MenuItem {
    type V = MenuItemView;

    open spec fn view(&self) -> MenuItemView {
        match *self {
            MenuItem::Name(s) => MenuItemView::Name(s@),
            MenuItem::Value(v) => MenuItemView::Value(v),
        }
    }
}

/// The mathematical value of a list of menu items, each with its index.
pub open spec fn items_view(items: Seq<(u32, MenuItem)>) -> Seq<(u32, MenuItemView)> {
    items.map_values(|entry: (u32, MenuItem)| (entry.0, entry.1@))
}

/// What a driver answers when it is asked about one control: everything a
/// [`Description`] holds but the menu items, which take queries of their own.
#[derive(Clone, Debug, PartialEq, Eq)]
pub struct ControlReport {
    pub id: u32,
    pub typ: Type,
    pub name: String,
    pub minimum: i32,
    pub maximum: i32,
    pub step: i32,
    pub default: i32,
    pub flags: u32,
}

/// The mathematical value of a [`ControlReport`].
pub struct ControlReportView {
    pub id: u32,
    pub typ: Type,
    pub name: Seq<char>,
    pub minimum: i32,
    pub maximum: i32,
    pub step: i32,
    pub default: i32,
    pub flags: u32,
}

impl ControlReportView {
    /// The menu of the control can be walked: a control of a menu type has a
    /// step other than zero. A control of any other type has no menu, and its
    /// step is of no concern.
    pub open spec fn has_walkable_menu(self) -> bool {
        self.typ.is_menu() ==> self.step != 0
    }
}

impl ControlReport {
    /// Tells whether the menu of the control can be walked: whether its step
    /// is other than zero, if it is of a menu type.
    pub fn has_walkable_menu(&self) -> (walkable: bool)
        ensures
            walkable == self@.has_walkable_menu(),
    {
        !self.typ.is_menu() || self.step != 0
    }
}

impl View for ControlReport {
    type V = ControlReportView;

    open spec fn view(&self) -> ControlReportView {
        ControlReportView {
            id: self.id,
            typ: self.typ,
            name: self.name@,
            minimum: self.minimum,
            maximum: self.maximum,
            step: self.step,
            default: self.default,
            flags: self.flags,
        }
    }
}

/// The full description of one control of a device.
#[derive(Clone, Debug, PartialEq, Eq)]
pub struct Description {
    pub id: u32,
    pub typ: Type,
    pub name: String,
    pub minimum: i32,
    pub maximum: i32,
    pub step: i32,
    pub default: i32,
    pub flags: u32,
    /// The menu items with their indices, for a menu or an integer menu.
    pub items: Option<Vec<(u32, MenuItem)>>,
}

/// The mathematical value of a [`Description`].
pub struct DescriptionView {
    pub id: u32,
    pub typ: Type,
    pub name: Seq<char>,
    pub minimum: i32,
    pub maximum: i32,
    pub step: i32,
    pub default: i32,
    pub flags: u32,
    pub items: Option<Seq<(u32, MenuItemView)>>,
}

impl View for Description {
    type V = DescriptionView;

    open spec fn view(&self) -> DescriptionView {
        DescriptionView {
            id: self.id,
            typ: self.typ,
            name: self.name@,
            minimum: self.minimum,
            maximum: self.maximum,
            step: self.step,
            default: self.default,
            flags: self.flags,
            items: match self.items {
                Some(items) => Some(items_view(items@)),
                None => None,
            },
        }
    }
}

impl Description {
    /// The description that a driver's report gives rise to, with the given
    /// menu items.
    pub fn from_report(report: ControlReport, items: Option<Vec<(u32, MenuItem)>>) -> (description:
        Description)
        ensures
            description@ == DescriptionView::of_report(
                report@,
                match items {
                    Some(list) => Some(items_view(list@)),
                    None => None,
                },
            ),
    {
        Description {
            id: report.id,
            typ: report.typ,
            name: report.name,
            minimum: report.minimum,
            maximum: report.maximum,
            step: report.step,
            default: report.default,
            flags: report.flags,
            items,
        }
    }
}

impl DescriptionView {
    /// The description that a report gives rise to, with the given menu items.
    pub open spec fn of_report(
        report: ControlReportView,
        items: Option<Seq<(u32, MenuItemView)>>,
    ) -> DescriptionView {
        DescriptionView {
            id: report.id,
            typ: report.typ,
            name: report.name,
            minimum: report.minimum,
            maximum: report.maximum,
            step: report.step,
            default: report.default,
            flags: report.flags,
            items,
        }
    }

    /// A description holds menu items exactly when its type is one of the two
    /// menu types.
    pub open spec fn items_match_type(self) -> bool {
        self.items is Some <==> self.typ.is_menu_spec()
    }
}

/// The mathematical value of a list of descriptions.
pub open spec fn descriptions_view(list: Seq<Description>) -> Seq<DescriptionView> {
    list.map_values(|d: Description| d@)
}

/// A value that a control can be given.
#[derive(Clone, Debug, PartialEq, Eq)]
pub enum Value {
    /// No value at all.
    Empty,
    Integer(i64),
    Boolean(bool),
    String(String),
    CompoundU8(Vec<u8>),
    CompoundU16(Vec<u16>),
    CompoundU32(Vec<u32>),
    CompoundPtr(Vec<u8>),
}

/// The mathematical value of a [`Value`].
pub enum ValueView {
    Empty,
    Integer(i64),
    Boolean(bool),
    String(Seq<char>),
    CompoundU8(Seq<u8>),
    CompoundU16(Seq<u16>),
    CompoundU32(Seq<u32>),
    CompoundPtr(Seq<u8>),
}

impl View for Value {
    type V = ValueView;

    open spec fn view(&self) -> ValueView {
        match *self {
            Value::Empty => ValueView::Empty,
            Value::Integer(v) => ValueView::Integer(v),
            Value::Boolean(b) => ValueView::Boolean(b),
            Value::String(s) => ValueView::String(s@),
            Value::CompoundU8(v) => ValueView::CompoundU8(v@),
            Value::CompoundU16(v) => ValueView::CompoundU16(v@),
            Value::CompoundU32(v) => ValueView::CompoundU32(v@),
            Value::CompoundPtr(v) => ValueView::CompoundPtr(v@),
        }
    }
}

/// A control identifier together with a value for it.
#[derive(Clone, Debug, PartialEq, Eq)]
pub struct Control {
    pub id: u32,
    pub value: Value,
}

/// The mathematical value of a [`Control`].
pub struct ControlView {
    pub id: u32,
    pub value: ValueView,
}

impl View for Control {
    type V = ControlView;

    open spec fn view(&self) -> ControlView {
        ControlView { id: self.id, value: self.value@ }
    }
}

/// The mathematical value of a list of controls.
pub open spec fn controls_view(list: Seq<Control>) -> Seq<ControlView> {
    list.map_values(|c: Control| c@)
}

} // verus!
