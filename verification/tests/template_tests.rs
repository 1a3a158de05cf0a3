use meteo_pipeline::publish::{archive_object_key, device_vars, resolve_device_topic};
use meteo_pipeline::template::{resolve_template, TemplateError, TemplateVars};

#[test]
fn resolves_device_id_placeholder() {
    let r = resolve_device_topic(b"sensors.meteo.{device_id}.data", 50).unwrap();
    assert_eq!(r, b"sensors.meteo.50.data".to_vec());
}

#[test]
fn unbound_variable_is_an_error() {
    let vars = TemplateVars::new();
    let r = resolve_template(b"sensors.meteo.{device_id}.data", &vars);
    assert_eq!(r.unwrap_err(), TemplateError::UnresolvedVariable);
}

#[test]
fn unterminated_placeholder_is_an_error() {
    let vars = device_vars(50);
    let r = resolve_template(b"sensors.meteo.{device_id", &vars);
    assert_eq!(r.unwrap_err(), TemplateError::UnresolvedVariable);
}

#[test]
fn template_without_placeholders_is_unchanged() {
    let vars = TemplateVars::new();
    let r = resolve_template(b"maps.watch.geojson", &vars).unwrap();
    assert_eq!(r, b"maps.watch.geojson".to_vec());
}

#[test]
fn empty_template_resolves_empty() {
    let vars = TemplateVars::new();
    let r = resolve_template(b"", &vars).unwrap();
    assert_eq!(r, Vec::<u8>::new());
}

#[test]
fn several_placeholders_resolve_in_order() {
    let mut vars = TemplateVars::new();
    vars.insert(b"a".to_vec(), b"1".to_vec());
    vars.insert(b"b".to_vec(), b"22".to_vec());
    let r = resolve_template(b"{a}-{b}-{a}", &vars).unwrap();
    assert_eq!(r, b"1-22-1".to_vec());
}

#[test]
fn later_binding_of_same_name_wins() {
    let mut vars = TemplateVars::new();
    vars.insert(b"x".to_vec(), b"old".to_vec());
    vars.insert(b"x".to_vec(), b"new".to_vec());
    let r = resolve_template(b"{x}", &vars).unwrap();
    assert_eq!(r, b"new".to_vec());
}

#[test]
fn closing_brace_alone_is_literal() {
    let vars = TemplateVars::new();
    let r = resolve_template(b"a}b", &vars).unwrap();
    assert_eq!(r, b"a}b".to_vec());
}

#[test]
fn vars_lookup_finds_what_was_bound() {
    let mut vars = TemplateVars::new();
    assert!(vars.get(b"k").is_none());
    vars.insert(b"k".to_vec(), b"v".to_vec());
    assert_eq!(vars.get(b"k").unwrap(), &b"v".to_vec());
    assert!(vars.get(b"other").is_none());
}

#[test]
fn foreign_placeholder_fails_under_device_bindings() {
    // Only `device_id` is bound for a device's message: a template that
    // references any other variable resolves to the error, even where
    // `{device_id}` itself would resolve.
    let r = resolve_device_topic(b"sensors.{station}.{device_id}.data", 50);
    assert_eq!(r.unwrap_err(), TemplateError::UnresolvedVariable);
}

#[test]
fn archive_key_renders_compact_utc() {
    // 2025-11-01T00:00:00Z
    assert_eq!(archive_object_key(1_761_955_200), "map_watch_20251101T000000Z.json");
    // The unix epoch itself.
    assert_eq!(archive_object_key(0), "map_watch_19700101T000000Z.json");
}

#[test]
fn device_vars_bind_decimal_id() {
    let vars = device_vars(65535);
    assert_eq!(vars.get(b"device_id").unwrap(), &b"65535".to_vec());
}
