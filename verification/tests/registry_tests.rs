//! Registry behaviour: first-wins registration, typed updates, lookup,
//! enumeration and the entry count.

use const_tweaker::field::{Field, FieldValue, Kind};
use const_tweaker::registry::{Registry, SetError};

fn f64_field(value: f64, min: f64, max: f64, step: f64, module: &str, line: u32) -> Field {
    Field::F64 {
        value: value.to_string(),
        min: min.to_string(),
        max: max.to_string(),
        step: step.to_string(),
        module: module.to_string(),
        file: "lib.rs".to_string(),
        line,
    }
}

fn i32_field(value: i32, module: &str, line: u32) -> Field {
    Field::I32 {
        value,
        min: i32::MIN,
        max: i32::MAX,
        step: 1,
        module: module.to_string(),
        file: "lib.rs".to_string(),
        line,
    }
}

fn bool_field(value: bool, module: &str, line: u32) -> Field {
    Field::Bool {
        value,
        module: module.to_string(),
        file: "lib.rs".to_string(),
        line,
    }
}

fn text_field(value: &str, module: &str, line: u32) -> Field {
    Field::Str {
        value: value.to_string(),
        module: module.to_string(),
        file: "lib.rs".to_string(),
        line,
    }
}

#[test]
fn register_first_wins() {
    let mut reg = Registry::new();
    let first = i32_field(1, "app", 3);
    let second = i32_field(2, "app", 9);
    assert!(reg.register("app::VALUE".to_string(), first));
    assert!(!reg.register("app::VALUE".to_string(), second));
    let stored = reg.get("app::VALUE").expect("registered key must be found");
    assert!(matches!(stored.current_value(), FieldValue::I32(1)));
    assert_eq!(stored.line_number(), 3);
    assert_eq!(reg.size(), 1);
}

#[test]
fn set_then_get_returns_new_value_for_every_kind() {
    let mut reg = Registry::new();
    reg.register(
        "m::F32".to_string(),
        Field::F32 {
            value: (0.5f32).to_string(),
            min: (0.0f32).to_string(),
            max: (1.0f32).to_string(),
            step: (0.1f32).to_string(),
            module: "m".to_string(),
            file: "lib.rs".to_string(),
            line: 1,
        },
    );
    reg.register("m::F64".to_string(), f64_field(0.5, 0.0, 1.0, 0.1, "m", 2));
    reg.register(
        "m::I8".to_string(),
        Field::I8 {
            value: 0,
            min: -5,
            max: 5,
            step: 1,
            module: "m".to_string(),
            file: "lib.rs".to_string(),
            line: 3,
        },
    );
    reg.register(
        "m::U8".to_string(),
        Field::U8 {
            value: 0,
            min: 0,
            max: 255,
            step: 1,
            module: "m".to_string(),
            file: "lib.rs".to_string(),
            line: 4,
        },
    );
    reg.register(
        "m::I16".to_string(),
        Field::I16 {
            value: 0,
            min: -5,
            max: 5,
            step: 1,
            module: "m".to_string(),
            file: "lib.rs".to_string(),
            line: 5,
        },
    );
    reg.register(
        "m::U16".to_string(),
        Field::U16 {
            value: 0,
            min: 0,
            max: 9,
            step: 1,
            module: "m".to_string(),
            file: "lib.rs".to_string(),
            line: 6,
        },
    );
    reg.register("m::I32".to_string(), i32_field(0, "m", 7));
    reg.register(
        "m::U32".to_string(),
        Field::U32 {
            value: 0,
            min: 0,
            max: 9,
            step: 1,
            module: "m".to_string(),
            file: "lib.rs".to_string(),
            line: 8,
        },
    );
    reg.register(
        "m::I64".to_string(),
        Field::I64 {
            value: 0,
            min: -5,
            max: 5,
            step: 1,
            module: "m".to_string(),
            file: "lib.rs".to_string(),
            line: 9,
        },
    );
    reg.register(
        "m::U64".to_string(),
        Field::U64 {
            value: 0,
            min: 0,
            max: 9,
            step: 1,
            module: "m".to_string(),
            file: "lib.rs".to_string(),
            line: 10,
        },
    );
    reg.register(
        "m::USIZE".to_string(),
        Field::Usize {
            value: 0,
            min: 0,
            max: 9,
            step: 1,
            module: "m".to_string(),
            file: "lib.rs".to_string(),
            line: 11,
        },
    );
    reg.register("m::FLAG".to_string(), bool_field(false, "m", 12));
    reg.register("m::NAME".to_string(), text_field("old", "m", 13));

    assert_eq!(
        reg.set_value("m::F32", FieldValue::F32((0.25f32).to_string())),
        Ok(())
    );
    assert_eq!(
        reg.set_value("m::F64", FieldValue::F64((0.75f64).to_string())),
        Ok(())
    );
    assert_eq!(reg.set_value("m::I8", FieldValue::I8(-3)), Ok(()));
    assert_eq!(reg.set_value("m::U8", FieldValue::U8(200)), Ok(()));
    assert_eq!(reg.set_value("m::I16", FieldValue::I16(-4)), Ok(()));
    assert_eq!(reg.set_value("m::U16", FieldValue::U16(7)), Ok(()));
    assert_eq!(reg.set_value("m::I32", FieldValue::I32(-9)), Ok(()));
    assert_eq!(reg.set_value("m::U32", FieldValue::U32(8)), Ok(()));
    assert_eq!(reg.set_value("m::I64", FieldValue::I64(-2)), Ok(()));
    assert_eq!(reg.set_value("m::U64", FieldValue::U64(6)), Ok(()));
    assert_eq!(reg.set_value("m::USIZE", FieldValue::Usize(5)), Ok(()));
    assert_eq!(reg.set_value("m::FLAG", FieldValue::Bool(true)), Ok(()));
    assert_eq!(
        reg.set_value("m::NAME", FieldValue::Str("new".to_string())),
        Ok(())
    );

    match reg.get("m::F32").unwrap().current_value() {
        FieldValue::F32(text) => assert_eq!(text.parse::<f32>().unwrap(), 0.25f32),
        other => panic!("wrong kind: {:?}", other),
    }
    match reg.get("m::F64").unwrap().current_value() {
        FieldValue::F64(text) => assert_eq!(text.parse::<f64>().unwrap(), 0.75f64),
        other => panic!("wrong kind: {:?}", other),
    }
    assert!(matches!(
        reg.get("m::I8").unwrap().current_value(),
        FieldValue::I8(-3)
    ));
    assert!(matches!(
        reg.get("m::U8").unwrap().current_value(),
        FieldValue::U8(200)
    ));
    assert!(matches!(
        reg.get("m::I16").unwrap().current_value(),
        FieldValue::I16(-4)
    ));
    assert!(matches!(
        reg.get("m::U16").unwrap().current_value(),
        FieldValue::U16(7)
    ));
    assert!(matches!(
        reg.get("m::I32").unwrap().current_value(),
        FieldValue::I32(-9)
    ));
    assert!(matches!(
        reg.get("m::U32").unwrap().current_value(),
        FieldValue::U32(8)
    ));
    assert!(matches!(
        reg.get("m::I64").unwrap().current_value(),
        FieldValue::I64(-2)
    ));
    assert!(matches!(
        reg.get("m::U64").unwrap().current_value(),
        FieldValue::U64(6)
    ));
    assert!(matches!(
        reg.get("m::USIZE").unwrap().current_value(),
        FieldValue::Usize(5)
    ));
    assert!(matches!(
        reg.get("m::FLAG").unwrap().current_value(),
        FieldValue::Bool(true)
    ));
    match reg.get("m::NAME").unwrap().current_value() {
        FieldValue::Str(text) => assert_eq!(text, "new"),
        other => panic!("wrong kind: {:?}", other),
    }
}

#[test]
fn mismatched_kind_is_rejected_and_value_kept() {
    let mut reg = Registry::new();
    reg.register("m::VALUE".to_string(), f64_field(0.5, 0.0, 1.0, 0.1, "m", 1));
    assert_eq!(
        reg.set_value("m::VALUE", FieldValue::Bool(true)),
        Err(SetError::TypeMismatch)
    );
    match reg.get("m::VALUE").unwrap().current_value() {
        FieldValue::F64(text) => assert_eq!(text.parse::<f64>().unwrap(), 0.5f64),
        other => panic!("wrong kind: {:?}", other),
    }
}

#[test]
fn unknown_key_reports_not_found() {
    let mut reg = Registry::new();
    assert_eq!(
        reg.set_value("missing", FieldValue::Bool(true)),
        Err(SetError::NotFound)
    );
    assert!(reg.get("missing").is_none());
}

#[test]
fn metadata_is_immutable_under_updates() {
    let mut reg = Registry::new();
    reg.register("m::N".to_string(), i32_field(1, "m", 42));
    assert_eq!(reg.set_value("m::N", FieldValue::I32(77)), Ok(()));
    let stored = reg.get("m::N").unwrap();
    assert_eq!(stored.kind_of(), Kind::I32);
    assert_eq!(stored.module_name(), "m");
    assert_eq!(stored.file_name(), "lib.rs");
    assert_eq!(stored.line_number(), 42);
    assert_eq!(stored.file(), "lib.rs:42");
    match stored {
        Field::I32 { min, max, step, .. } => {
            assert_eq!(min, i32::MIN);
            assert_eq!(max, i32::MAX);
            assert_eq!(step, 1);
        }
        other => panic!("wrong kind: {:?}", other),
    }
}

#[test]
fn enumerate_lists_exactly_the_registered_entries() {
    let mut reg = Registry::new();
    reg.register("a::X".to_string(), i32_field(1, "a", 1));
    reg.register("b::Y".to_string(), bool_field(true, "b", 2));
    reg.register("a::X".to_string(), i32_field(9, "a", 9));
    let mut keys: Vec<String> = reg.enumerate().into_iter().map(|e| e.0).collect();
    keys.sort();
    assert_eq!(keys, vec!["a::X".to_string(), "b::Y".to_string()]);
    assert_eq!(reg.size(), 2);
}
