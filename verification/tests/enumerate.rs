use v4l_device::control::{ControlReport, Description, MenuItem, Type};
use v4l_device::device::Device;
use v4l_device::enumerate::Enumeration;
use v4l_device::error::{Error, ErrorKind, OsError};
use v4l_device::request::{advance_cursor, Request, FLAG_NEXT_COMPOUND, FLAG_NEXT_CTRL};

const EINVAL: OsError = OsError { code: 22, kind: ErrorKind::InvalidInput };
const EACCES: OsError = OsError { code: 13, kind: ErrorKind::Other };
const EIO: OsError = OsError { code: 5, kind: ErrorKind::Other };

/// One control of a simulated driver, with the menu indices that it answers.
struct SimControl {
    report: ControlReport,
    items: Vec<(u32, MenuItem)>,
    menu_error: OsError,
}

/// A simulated driver: its controls in ascending order of their identifiers,
/// and the error with which it refuses a query past the last control.
struct SimDriver {
    controls: Vec<SimControl>,
    end: OsError,
    control_queries: Vec<u32>,
    menu_queries: Vec<(u32, u32)>,
}

impl SimDriver {
    fn new(controls: Vec<SimControl>) -> SimDriver {
        SimDriver { controls, end: EINVAL, control_queries: Vec::new(), menu_queries: Vec::new() }
    }

    fn query_control(&mut self, id: u32) -> Result<ControlReport, OsError> {
        self.control_queries.push(id);
        assert_eq!(id & FLAG_NEXT_CTRL, FLAG_NEXT_CTRL);
        assert_eq!(id & FLAG_NEXT_COMPOUND, FLAG_NEXT_COMPOUND);
        let after = id & !(FLAG_NEXT_CTRL | FLAG_NEXT_COMPOUND);
        for control in &self.controls {
            if control.report.id > after {
                return Ok(control.report.clone());
            }
        }
        Err(self.end)
    }

    fn query_menu(&mut self, id: u32, index: u32) -> Result<MenuItem, OsError> {
        self.menu_queries.push((id, index));
        for control in &self.controls {
            if control.report.id == id {
                for (at, item) in &control.items {
                    if *at == index {
                        return Ok(item.clone());
                    }
                }
                return Err(control.menu_error);
            }
        }
        Err(EINVAL)
    }
}

fn open_device() -> Device {
    let last = OsError { code: 0, kind: ErrorKind::Other };
    match Device::new(0).complete(Ok(3), last) {
        Ok(device) => device,
        Err(_) => panic!("descriptor 3 must give a device"),
    }
}

fn enumerate(device: &Device, driver: &mut SimDriver) -> Result<Vec<Description>, Error> {
    let mut enumeration = device.query_controls();
    loop {
        match enumeration.request() {
            None => break,
            Some(Request::QueryControl { id }) => {
                let reply = driver.query_control(id);
                if let Ok(report) = &reply {
                    assert!(report.has_walkable_menu());
                }
                enumeration = enumeration.control_reply(reply);
            }
            Some(Request::QueryMenu { id, index, typ }) => {
                assert!(typ.is_menu());
                let reply = driver.query_menu(id, index);
                enumeration = enumeration.menu_reply(reply);
            }
            Some(other) => panic!("unexpected request {:?}", other),
        }
    }
    assert!(enumeration.is_finished());
    enumeration.finish()
}

fn plain(id: u32, typ: Type, name: &str) -> SimControl {
    SimControl {
        report: ControlReport {
            id,
            typ,
            name: name.to_string(),
            minimum: 0,
            maximum: 255,
            step: 1,
            default: 128,
            flags: 0,
        },
        items: Vec::new(),
        menu_error: EINVAL,
    }
}

fn menu(id: u32, typ: Type, minimum: i32, maximum: i32, step: i32, items: Vec<(u32, MenuItem)>) -> SimControl {
    SimControl {
        report: ControlReport {
            id,
            typ,
            name: "menu".to_string(),
            minimum,
            maximum,
            step,
            default: minimum,
            flags: 0,
        },
        items,
        menu_error: EINVAL,
    }
}

fn name(text: &str) -> MenuItem {
    MenuItem::Name(text.to_string())
}

#[test]
fn three_controls_in_driver_order() {
    let device = open_device();
    let mut driver = SimDriver::new(vec![
        plain(0x0098_0900, Type::Integer, "Brightness"),
        plain(0x0098_0901, Type::Boolean, "Auto Gain"),
        plain(0x009A_0901, Type::Integer64, "Exposure"),
    ]);
    let controls = enumerate(&device, &mut driver).unwrap();
    assert_eq!(controls.len(), 3);
    assert_eq!(
        controls,
        vec![
            Description {
                id: 0x0098_0900,
                typ: Type::Integer,
                name: "Brightness".to_string(),
                minimum: 0,
                maximum: 255,
                step: 1,
                default: 128,
                flags: 0,
                items: None,
            },
            Description {
                id: 0x0098_0901,
                typ: Type::Boolean,
                name: "Auto Gain".to_string(),
                minimum: 0,
                maximum: 255,
                step: 1,
                default: 128,
                flags: 0,
                items: None,
            },
            Description {
                id: 0x009A_0901,
                typ: Type::Integer64,
                name: "Exposure".to_string(),
                minimum: 0,
                maximum: 255,
                step: 1,
                default: 128,
                flags: 0,
                items: None,
            },
        ]
    );
    assert_eq!(
        driver.control_queries,
        vec![0xC000_0000, 0xC098_0900, 0xC098_0901, 0xC09A_0901]
    );
    assert!(driver.menu_queries.is_empty());
}

#[test]
fn device_without_controls_gives_an_empty_list() {
    let device = open_device();
    let mut driver = SimDriver::new(Vec::new());
    let controls = enumerate(&device, &mut driver);
    assert_eq!(controls, Ok(Vec::new()));
    assert_eq!(driver.control_queries, vec![0xC000_0000]);
}

#[test]
fn first_query_failing_otherwise_is_an_error() {
    let device = open_device();
    let mut driver = SimDriver::new(Vec::new());
    driver.end = EACCES;
    let controls = enumerate(&device, &mut driver);
    assert_eq!(controls, Err(Error::Os(EACCES)));
    assert_eq!(driver.control_queries, vec![0xC000_0000]);
}

#[test]
fn later_failure_of_another_class_is_an_error() {
    let device = open_device();
    let mut driver = SimDriver::new(vec![
        plain(0x0098_0900, Type::Integer, "Brightness"),
        plain(0x0098_0901, Type::Integer, "Contrast"),
    ]);
    driver.end = EIO;
    let controls = enumerate(&device, &mut driver);
    assert_eq!(controls, Err(Error::Os(EIO)));
    assert_eq!(driver.control_queries.len(), 3);
}

#[test]
fn first_request_sets_both_advance_flags() {
    let enumeration = Enumeration::new();
    assert_eq!(enumeration.request(), Some(Request::QueryControl { id: 0xC000_0000 }));
    assert!(!enumeration.is_finished());
    assert_eq!(advance_cursor(0), 0xC000_0000);
    assert_eq!(advance_cursor(0x0098_0900), 0xC098_0900);
    assert_eq!(FLAG_NEXT_CTRL, 0x8000_0000);
    assert_eq!(FLAG_NEXT_COMPOUND, 0x4000_0000);
}

#[test]
fn menu_items_are_read_from_minimum_to_maximum() {
    let device = open_device();
    let mut driver = SimDriver::new(vec![menu(
        0x0098_0918,
        Type::Menu,
        0,
        2,
        1,
        vec![(0, name("Disabled")), (1, name("50 Hz")), (2, name("60 Hz"))],
    )]);
    let controls = enumerate(&device, &mut driver).unwrap();
    assert_eq!(controls.len(), 1);
    assert_eq!(controls[0].typ, Type::Menu);
    assert_eq!(
        controls[0].items,
        Some(vec![(0, name("Disabled")), (1, name("50 Hz")), (2, name("60 Hz"))])
    );
    assert_eq!(
        driver.menu_queries,
        vec![(0x0098_0918, 0), (0x0098_0918, 1), (0x0098_0918, 2)]
    );
}

#[test]
fn refused_menu_indices_are_passed_over() {
    let device = open_device();
    let mut driver = SimDriver::new(vec![
        plain(0x0098_0900, Type::Integer, "Brightness"),
        menu(
            0x009A_0901,
            Type::Menu,
            0,
            5,
            1,
            vec![(1, name("Manual Mode")), (3, name("Aperture Priority Mode"))],
        ),
        plain(0x009A_0902, Type::Integer, "Exposure"),
    ]);
    let controls = enumerate(&device, &mut driver).unwrap();
    assert_eq!(controls.len(), 3);
    assert_eq!(controls[0].id, 0x0098_0900);
    assert_eq!(controls[1].id, 0x009A_0901);
    assert_eq!(controls[2].id, 0x009A_0902);
    assert_eq!(
        controls[1].items,
        Some(vec![(1, name("Manual Mode")), (3, name("Aperture Priority Mode"))])
    );
    assert_eq!(
        driver.menu_queries,
        vec![
            (0x009A_0901, 0),
            (0x009A_0901, 1),
            (0x009A_0901, 2),
            (0x009A_0901, 3),
            (0x009A_0901, 4),
            (0x009A_0901, 5),
        ]
    );
}

#[test]
fn menu_failures_of_any_class_are_passed_over() {
    let device = open_device();
    let mut control = menu(0x0098_0918, Type::IntegerMenu, 0, 3, 1, vec![(2, MenuItem::Value(48_000))]);
    control.menu_error = EIO;
    let mut driver = SimDriver::new(vec![control, plain(0x0098_0919, Type::Boolean, "Mute")]);
    let controls = enumerate(&device, &mut driver).unwrap();
    assert_eq!(controls.len(), 2);
    assert_eq!(controls[0].items, Some(vec![(2, MenuItem::Value(48_000))]));
    assert_eq!(controls[1].items, None);
}

#[test]
fn menu_with_every_index_refused_has_an_empty_list() {
    let device = open_device();
    let mut driver = SimDriver::new(vec![menu(0x0098_0918, Type::Menu, 0, 3, 1, Vec::new())]);
    let controls = enumerate(&device, &mut driver).unwrap();
    assert_eq!(controls.len(), 1);
    assert_eq!(controls[0].items, Some(Vec::new()));
    assert_eq!(driver.menu_queries.len(), 4);
}

#[test]
fn menu_indices_go_by_the_step() {
    let device = open_device();
    let mut driver = SimDriver::new(vec![menu(
        0x0098_0918,
        Type::IntegerMenu,
        1,
        10,
        3,
        vec![
            (1, MenuItem::Value(100)),
            (2, MenuItem::Value(200)),
            (4, MenuItem::Value(400)),
            (10, MenuItem::Value(1000)),
        ],
    )]);
    let controls = enumerate(&device, &mut driver).unwrap();
    assert_eq!(
        controls[0].items,
        Some(vec![(1, MenuItem::Value(100)), (4, MenuItem::Value(400)), (10, MenuItem::Value(1000))])
    );
    assert_eq!(
        driver.menu_queries,
        vec![(0x0098_0918, 1), (0x0098_0918, 4), (0x0098_0918, 7), (0x0098_0918, 10)]
    );
}

#[test]
fn step_that_passes_the_maximum_stops_before_it() {
    let device = open_device();
    let mut driver = SimDriver::new(vec![menu(
        0x0098_0918,
        Type::Menu,
        0,
        5,
        4,
        vec![(0, name("a")), (4, name("b")), (5, name("c"))],
    )]);
    let controls = enumerate(&device, &mut driver).unwrap();
    assert_eq!(controls[0].items, Some(vec![(0, name("a")), (4, name("b"))]));
    assert_eq!(driver.menu_queries, vec![(0x0098_0918, 0), (0x0098_0918, 4)]);
}

#[test]
fn menu_with_minimum_above_maximum_asks_for_no_item() {
    let device = open_device();
    let mut driver = SimDriver::new(vec![
        menu(0x0098_0918, Type::Menu, 3, 2, 1, vec![(3, name("never"))]),
        plain(0x0098_0919, Type::Integer, "Gain"),
    ]);
    let controls = enumerate(&device, &mut driver).unwrap();
    assert_eq!(controls.len(), 2);
    assert_eq!(controls[0].items, Some(Vec::new()));
    assert!(driver.menu_queries.is_empty());
}

#[test]
fn negative_step_asks_for_the_minimum_alone() {
    let device = open_device();
    let mut driver = SimDriver::new(vec![menu(
        0x0098_0918,
        Type::Menu,
        2,
        6,
        -1,
        vec![(1, name("one")), (2, name("two")), (3, name("three"))],
    )]);
    let controls = enumerate(&device, &mut driver).unwrap();
    assert_eq!(controls[0].items, Some(vec![(2, name("two"))]));
    assert_eq!(driver.menu_queries, vec![(0x0098_0918, 2)]);
}

#[test]
fn step_near_the_limit_does_not_overflow() {
    let device = open_device();
    let mut driver = SimDriver::new(vec![menu(
        0x0098_0918,
        Type::IntegerMenu,
        i32::MAX - 1,
        i32::MAX,
        i32::MAX,
        vec![(0x7FFF_FFFE, MenuItem::Value(1))],
    )]);
    let controls = enumerate(&device, &mut driver).unwrap();
    assert_eq!(controls[0].items, Some(vec![(0x7FFF_FFFE, MenuItem::Value(1))]));
    assert_eq!(driver.menu_queries, vec![(0x0098_0918, 0x7FFF_FFFE)]);
}

#[test]
fn negative_indices_are_asked_as_unsigned() {
    let device = open_device();
    let mut driver = SimDriver::new(vec![menu(
        0x0098_0918,
        Type::IntegerMenu,
        -1,
        0,
        1,
        vec![(0xFFFF_FFFF, MenuItem::Value(-5)), (0, MenuItem::Value(5))],
    )]);
    let controls = enumerate(&device, &mut driver).unwrap();
    assert_eq!(
        controls[0].items,
        Some(vec![(0xFFFF_FFFF, MenuItem::Value(-5)), (0, MenuItem::Value(5))])
    );
    assert_eq!(driver.menu_queries, vec![(0x0098_0918, 0xFFFF_FFFF), (0x0098_0918, 0)]);
}

#[test]
fn items_are_present_exactly_for_menu_types() {
    let device = open_device();
    let types = [
        Type::Integer,
        Type::Boolean,
        Type::Menu,
        Type::Button,
        Type::Integer64,
        Type::CtrlClass,
        Type::String,
        Type::Bitmask,
        Type::IntegerMenu,
        Type::U8,
        Type::U16,
        Type::U32,
        Type::Area,
    ];
    let mut controls = Vec::new();
    for (place, typ) in types.iter().enumerate() {
        let id = 0x0098_0900 + place as u32;
        controls.push(menu(id, *typ, 0, 1, 1, vec![(0, MenuItem::Value(1))]));
    }
    let mut driver = SimDriver::new(controls);
    let described = enumerate(&device, &mut driver).unwrap();
    assert_eq!(described.len(), types.len());
    for (description, typ) in described.iter().zip(types.iter()) {
        assert_eq!(description.typ, *typ);
        let is_menu = *typ == Type::Menu || *typ == Type::IntegerMenu;
        assert_eq!(description.items.is_some(), is_menu);
        assert_eq!(typ.is_menu(), is_menu);
    }
    assert_eq!(driver.menu_queries.len(), 4);
}

#[test]
fn menu_request_names_control_index_and_type() {
    let enumeration = Enumeration::new().control_reply(Ok(menu(
        0x0098_0918,
        Type::IntegerMenu,
        4,
        6,
        2,
        Vec::new(),
    )
    .report));
    assert_eq!(
        enumeration.request(),
        Some(Request::QueryMenu { id: 0x0098_0918, index: 4, typ: Type::IntegerMenu })
    );
    let enumeration = enumeration.menu_reply(Err(EINVAL));
    assert_eq!(
        enumeration.request(),
        Some(Request::QueryMenu { id: 0x0098_0918, index: 6, typ: Type::IntegerMenu })
    );
    let enumeration = enumeration.menu_reply(Ok(MenuItem::Value(9)));
    assert_eq!(enumeration.request(), Some(Request::QueryControl { id: 0xC098_0918 }));
    let enumeration = enumeration.control_reply(Err(EINVAL));
    assert_eq!(enumeration.request(), None);
    let controls = enumeration.finish().unwrap();
    assert_eq!(controls.len(), 1);
    assert_eq!(controls[0].items, Some(vec![(6, MenuItem::Value(9))]));
}

#[test]
fn enumeration_ignores_replies_out_of_turn() {
    let enumeration = Enumeration::new().menu_reply(Ok(MenuItem::Value(1)));
    assert_eq!(enumeration.request(), Some(Request::QueryControl { id: 0xC000_0000 }));
    let enumeration = enumeration
        .control_reply(Ok(menu(0x0098_0918, Type::Menu, 0, 0, 1, Vec::new()).report))
        .control_reply(Ok(plain(0x0098_0919, Type::Integer, "Gain").report));
    assert_eq!(
        enumeration.request(),
        Some(Request::QueryMenu { id: 0x0098_0918, index: 0, typ: Type::Menu })
    );
    let enumeration = enumeration.menu_reply(Ok(name("only"))).control_reply(Err(EINVAL));
    assert!(enumeration.is_finished());
    let enumeration = enumeration
        .control_reply(Ok(plain(0x0098_0919, Type::Integer, "Gain").report))
        .menu_reply(Ok(name("late")));
    let controls = enumeration.finish().unwrap();
    assert_eq!(controls.len(), 1);
    assert_eq!(controls[0].items, Some(vec![(0, name("only"))]));
}

#[test]
fn description_takes_over_the_report() {
    let report = ControlReport {
        id: 0x0098_0913,
        typ: Type::Integer,
        name: "Gain".to_string(),
        minimum: -4,
        maximum: 64,
        step: 2,
        default: 16,
        flags: 0x0010,
    };
    let description = Description::from_report(report, None);
    assert_eq!(
        description,
        Description {
            id: 0x0098_0913,
            typ: Type::Integer,
            name: "Gain".to_string(),
            minimum: -4,
            maximum: 64,
            step: 2,
            default: 16,
            flags: 0x0010,
            items: None,
        }
    );
}

#[test]
fn zero_step_is_no_walkable_menu() {
    let zero = menu(0x0098_0918, Type::Menu, 0, 3, 0, Vec::new()).report;
    assert!(!zero.has_walkable_menu());
    let integer_menu = menu(0x0098_0918, Type::IntegerMenu, 0, 3, 0, Vec::new()).report;
    assert!(!integer_menu.has_walkable_menu());
    let stepped = menu(0x0098_0918, Type::Menu, 0, 3, 1, Vec::new()).report;
    assert!(stepped.has_walkable_menu());
    let backwards = menu(0x0098_0918, Type::Menu, 0, 3, -1, Vec::new()).report;
    assert!(backwards.has_walkable_menu());
    let plain = menu(0x0098_0918, Type::Integer, 0, 3, 0, Vec::new()).report;
    assert!(plain.has_walkable_menu());
}

#[test]
fn zero_step_is_ignored_out_of_turn() {
    let zero = menu(0x0098_0918, Type::Menu, 0, 3, 0, Vec::new()).report;
    let enumeration = Enumeration::new().control_reply(Err(EINVAL)).control_reply(Ok(zero));
    assert_eq!(enumeration.finish(), Ok(Vec::new()));
}
