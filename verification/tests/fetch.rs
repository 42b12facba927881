use v4l_device::control::{Control, ControlReport, Type, Value};
use v4l_device::device::Device;
use v4l_device::error::{Error, ErrorKind, OsError};
use v4l_device::fetch::{interpret_value, ControlFetch};
use v4l_device::request::Request;

fn open_device() -> Device {
    let last = OsError { code: 0, kind: ErrorKind::Other };
    match Device::with_path("/dev/video7".to_string()).complete(Ok(4), last) {
        Ok(device) => device,
        Err(_) => panic!("descriptor 4 must give a device"),
    }
}

fn report(id: u32, typ: Type) -> ControlReport {
    ControlReport {
        id,
        typ,
        name: "control".to_string(),
        minimum: 0,
        maximum: 255,
        step: 1,
        default: 0,
        flags: 0,
    }
}

/// Reads the control `id` from a driver that reports `typ` and `raw` for it.
fn read(device: &Device, id: u32, typ: Type, raw: i32) -> Result<Control, Error> {
    let mut fetch = device.control(id);
    let mut queries = Vec::new();
    loop {
        match fetch.request() {
            None => break,
            Some(Request::QueryControl { id }) => {
                queries.push(Request::QueryControl { id });
                fetch = fetch.description_reply(Ok(report(id, typ)));
            }
            Some(Request::GetControl { id }) => {
                queries.push(Request::GetControl { id });
                fetch = fetch.value_reply(Ok(raw));
            }
            Some(other) => panic!("unexpected request {:?}", other),
        }
    }
    assert_eq!(queries, vec![Request::QueryControl { id }, Request::GetControl { id }]);
    assert!(fetch.is_finished());
    fetch.finish()
}

#[test]
fn boolean_two_is_false() {
    let device = open_device();
    let control = read(&device, 0x0098_0900, Type::Boolean, 2).unwrap();
    assert_eq!(control, Control { id: 0x0098_0900, value: Value::Boolean(false) });
}

#[test]
fn boolean_one_is_true() {
    let device = open_device();
    let control = read(&device, 0x0098_0900, Type::Boolean, 1).unwrap();
    assert_eq!(control, Control { id: 0x0098_0900, value: Value::Boolean(true) });
}

#[test]
fn boolean_is_strict() {
    assert_eq!(interpret_value(Type::Boolean, 0), Ok(Value::Boolean(false)));
    assert_eq!(interpret_value(Type::Boolean, 1), Ok(Value::Boolean(true)));
    assert_eq!(interpret_value(Type::Boolean, 2), Ok(Value::Boolean(false)));
    assert_eq!(interpret_value(Type::Boolean, -1), Ok(Value::Boolean(false)));
    assert_eq!(interpret_value(Type::Boolean, i32::MAX), Ok(Value::Boolean(false)));
}

#[test]
fn integers_keep_their_sign() {
    let device = open_device();
    let control = read(&device, 0x0098_0901, Type::Integer, -128).unwrap();
    assert_eq!(control, Control { id: 0x0098_0901, value: Value::Integer(-128) });
    assert_eq!(interpret_value(Type::Integer, i32::MIN), Ok(Value::Integer(-2147483648)));
    assert_eq!(interpret_value(Type::Integer64, i32::MAX), Ok(Value::Integer(2147483647)));
    assert_eq!(interpret_value(Type::Integer64, 0), Ok(Value::Integer(0)));
}

#[test]
fn other_types_are_unsupported() {
    let device = open_device();
    let types = [
        Type::Menu,
        Type::Button,
        Type::CtrlClass,
        Type::String,
        Type::Bitmask,
        Type::IntegerMenu,
        Type::U8,
        Type::U16,
        Type::U32,
        Type::Area,
    ];
    for typ in types {
        assert_eq!(read(&device, 0x0098_0902, typ, 1), Err(Error::UnsupportedType));
        assert_eq!(interpret_value(typ, 1), Err(Error::UnsupportedType));
    }
    assert_eq!(Error::UnsupportedType.kind(), ErrorKind::Other);
    assert_eq!(Error::UnsupportedType.message(), Some("cannot handle control type"));
    assert_eq!(Error::UnsupportedType.raw_os_error(), None);
}

#[test]
fn failed_description_ends_the_reading() {
    let refused = OsError { code: 22, kind: ErrorKind::InvalidInput };
    let fetch = ControlFetch::new(0x0098_0900);
    assert_eq!(fetch.request(), Some(Request::QueryControl { id: 0x0098_0900 }));
    assert!(!fetch.is_finished());
    let fetch = fetch.description_reply(Err(refused));
    assert_eq!(fetch.request(), None);
    assert!(fetch.is_finished());
    assert_eq!(fetch.finish(), Err(Error::Os(refused)));
}

#[test]
fn failed_value_ends_the_reading() {
    let denied = OsError { code: 13, kind: ErrorKind::Other };
    let fetch = ControlFetch::new(5).description_reply(Ok(report(5, Type::Integer)));
    assert_eq!(fetch.request(), Some(Request::GetControl { id: 5 }));
    let fetch = fetch.value_reply(Err(denied));
    assert_eq!(fetch.request(), None);
    let error = fetch.finish().unwrap_err();
    assert_eq!(error, Error::Os(denied));
    assert_eq!(error.raw_os_error(), Some(13));
    assert_eq!(error.kind(), ErrorKind::Other);
    assert_eq!(error.message(), None);
}

#[test]
fn unsupported_type_is_found_after_the_value_was_read() {
    let fetch = ControlFetch::new(6).description_reply(Ok(report(6, Type::Menu)));
    assert_eq!(fetch.request(), Some(Request::GetControl { id: 6 }));
    let fetch = fetch.value_reply(Ok(0));
    assert_eq!(fetch.finish(), Err(Error::UnsupportedType));
}

#[test]
fn replies_out_of_turn_change_nothing() {
    let fetch = ControlFetch::new(8).value_reply(Ok(1));
    assert_eq!(fetch.request(), Some(Request::QueryControl { id: 8 }));
    let fetch = fetch
        .description_reply(Ok(report(8, Type::Boolean)))
        .description_reply(Ok(report(8, Type::Integer)));
    assert_eq!(fetch.request(), Some(Request::GetControl { id: 8 }));
    let fetch = fetch.value_reply(Ok(1)).value_reply(Ok(0));
    assert_eq!(fetch.finish(), Ok(Control { id: 8, value: Value::Boolean(true) }));
}
