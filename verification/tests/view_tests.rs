//! Grouped view, change probe and rendering behaviour.

use const_tweaker::field::{Field, FieldValue};
use const_tweaker::grouping::{build_view, modules};
use const_tweaker::registry::Registry;
use const_tweaker::render::{main_site, render_widget, send};
use const_tweaker::registry::SetError;
use const_tweaker::sync::{refresh_body, update_status, SyncState};
use const_tweaker::text::{escape_backslashes, module_identifier_text, render_i64, render_u64};

fn f64_field(value: f64, min: f64, max: f64, step: f64, module: &str, line: u32) -> Field {
    Field::F64 {
        value: value.to_string(),
        min: min.to_string(),
        max: max.to_string(),
        step: step.to_string(),
        module: module.to_string(),
        file: "lib.rs".to_string(),
        line,
    }
}

fn u8_field(value: u8, module: &str, file: &str, line: u32) -> Field {
    Field::U8 {
        value,
        min: 0,
        max: 255,
        step: 1,
        module: module.to_string(),
        file: file.to_string(),
        line,
    }
}

#[test]
fn probe_is_quiet_until_count_changes_then_fires_once() {
    let mut reg = Registry::new();
    let mut sync = SyncState::new();
    reg.register("a::X".to_string(), u8_field(1, "a", "lib.rs", 1));
    reg.register("a::Y".to_string(), u8_field(2, "a", "lib.rs", 2));
    main_site(&reg, &mut sync);
    assert!(!sync.should_refresh(reg.size()));
    assert!(!sync.should_refresh(reg.size()));
    reg.register("a::Z".to_string(), u8_field(3, "a", "lib.rs", 3));
    assert!(sync.should_refresh(reg.size()));
    assert!(!sync.should_refresh(reg.size()));
}

#[test]
fn value_updates_do_not_trip_the_probe() {
    let mut reg = Registry::new();
    let mut sync = SyncState::new();
    reg.register("a::X".to_string(), u8_field(1, "a", "lib.rs", 1));
    main_site(&reg, &mut sync);
    reg.set_value("a::X", FieldValue::U8(200)).unwrap();
    assert!(!sync.should_refresh(reg.size()));
}

#[test]
fn gain_scenario_round_trip() {
    let mut reg = Registry::new();
    let mut sync = SyncState::new();
    assert!(reg.register(
        "app::gain".to_string(),
        f64_field(0.5, 0.0, 1.0, 0.1, "app", 10)
    ));
    let page = main_site(&reg, &mut sync);
    assert!(page.contains("defaultValue=\"0.5\""));
    assert!(page.contains("id=\"app::gain\""));
    assert!(reg
        .set_value("app::gain", FieldValue::F64((0.8f64).to_string()))
        .is_ok());
    match reg.get("app::gain").unwrap().current_value() {
        FieldValue::F64(text) => assert_eq!(text.parse::<f64>().unwrap(), 0.8f64),
        other => panic!("wrong kind: {:?}", other),
    }
    assert!(reg.set_value("app::gain", FieldValue::Bool(true)).is_err());
    match reg.get("app::gain").unwrap().current_value() {
        FieldValue::F64(text) => assert_eq!(text.parse::<f64>().unwrap(), 0.8f64),
        other => panic!("wrong kind: {:?}", other),
    }
}

#[test]
fn grouped_view_sorts_modules_and_lines() {
    let mut reg = Registry::new();
    reg.register("b::TWO".to_string(), u8_field(2, "b", "b.rs", 20));
    reg.register("a::LATE".to_string(), u8_field(9, "a", "a.rs", 30));
    reg.register("a::EARLY".to_string(), u8_field(1, "a", "a.rs", 5));
    let names = modules(&reg);
    assert_eq!(names, vec!["a".to_string(), "b".to_string()]);
    let groups = build_view(&reg);
    assert_eq!(groups.len(), 2);
    assert_eq!(groups[0].module, "a");
    assert_eq!(groups[1].module, "b");
    let first_keys: Vec<&str> = groups[0].entries.iter().map(|e| e.0.as_str()).collect();
    assert_eq!(first_keys, vec!["a::EARLY", "a::LATE"]);
    let second_keys: Vec<&str> = groups[1].entries.iter().map(|e| e.0.as_str()).collect();
    assert_eq!(second_keys, vec!["b::TWO"]);
}

#[test]
fn grouped_view_orders_by_file_before_line() {
    let mut reg = Registry::new();
    reg.register("m::IN_B".to_string(), u8_field(1, "m", "b.rs", 1));
    reg.register("m::IN_A".to_string(), u8_field(2, "m", "a.rs", 50));
    let groups = build_view(&reg);
    assert_eq!(groups.len(), 1);
    let keys: Vec<&str> = groups[0].entries.iter().map(|e| e.0.as_str()).collect();
    assert_eq!(keys, vec!["m::IN_A", "m::IN_B"]);
}

#[test]
fn wire_mappings_follow_the_protocol() {
    assert_eq!(refresh_body(true), "refresh");
    assert_eq!(refresh_body(false), "");
    assert_eq!(update_status(&Ok(())), 200);
    assert_eq!(update_status(&Err(SetError::NotFound)), 404);
    assert_eq!(update_status(&Err(SetError::TypeMismatch)), 400);
}

#[test]
fn send_escapes_backslashes_in_the_key() {
    assert_eq!(
        send("app::gain", "Number(this.value)", "f64"),
        "send('app::gain', Number(this.value), 'f64')"
    );
    assert_eq!(
        send("odd\\key", "this.checked", "bool"),
        "send('odd\\\\key', this.checked, 'bool')"
    );
}

#[test]
fn escape_backslashes_doubles_each_one() {
    assert_eq!(escape_backslashes("no slashes"), "no slashes");
    assert_eq!(escape_backslashes("a\\b\\\\c"), "a\\\\b\\\\\\\\c");
    assert_eq!(escape_backslashes(""), "");
}

#[test]
fn module_identifier_replaces_separators() {
    assert_eq!(module_identifier_text("app::audio::gain"), "app_audio_gain");
    assert_eq!(module_identifier_text("plain"), "plain");
    assert_eq!(module_identifier_text("a:b"), "a:b");
    assert_eq!(module_identifier_text("a:::b"), "a_:b");
}

#[test]
fn decimal_rendering_matches_expected_text() {
    assert_eq!(render_u64(0), "0");
    assert_eq!(render_u64(907), "907");
    assert_eq!(render_u64(u64::MAX), "18446744073709551615");
    assert_eq!(render_i64(-45), "-45");
    assert_eq!(render_i64(i64::MIN), "-9223372036854775808");
    assert_eq!(render_i64(7), "7");
}

#[test]
fn widget_row_holds_key_location_and_control() {
    let field = u8_field(3, "m", "widgets.rs", 77);
    let row = render_widget("m::K", &field);
    assert!(row.contains("m::K"));
    assert!(row.contains("widgets.rs:77"));
    assert!(row.contains("type=\"range\""));
    assert!(row.contains("min=\"0\""));
    assert!(row.contains("max=\"255\""));
    assert!(row.contains("step=\"1\""));
    assert!(row.contains("defaultValue=\"3\""));
    assert!(row.contains("send('m::K', Number(this.value), 'u8')"));
}

#[test]
fn bool_and_string_widgets_render_their_controls() {
    let flag = Field::Bool {
        value: true,
        module: "m".to_string(),
        file: "lib.rs".to_string(),
        line: 1,
    };
    let toggled = flag.to_html_widget("m::FLAG");
    assert!(toggled.contains("type=\"checkbox\""));
    assert!(toggled.contains("send('m::FLAG', this.checked, 'bool')"));
    assert!(toggled.contains(">true</span>"));

    let name = Field::Str {
        value: "hello".to_string(),
        module: "m".to_string(),
        file: "lib.rs".to_string(),
        line: 2,
    };
    let textbox = name.to_html_widget("m::NAME");
    assert!(textbox.contains("type=\"text\""));
    assert!(textbox.contains("value=\"hello\""));
    assert!(textbox.contains("send('m::NAME', this.value, 'string')"));
}
