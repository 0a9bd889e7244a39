use pulseeffects::presets::common::{update_key, update_string_key};
use pulseeffects::settings::{Double, Kind, Settings, SettingsStore, Variant};

const SCHEMA: &str = "org.example.effect";
const PATH: &str = "/org/example/effect/";

fn double(value: f64) -> Double {
    Double::from_bits(value.to_bits())
}

fn number(value: &Variant) -> f64 {
    match value {
        Variant::Double(d) => f64::from_bits(d.to_bits()),
        other => panic!("not a double: {other:?}"),
    }
}

fn store_with(entries: Vec<(&str, Variant)>) -> SettingsStore {
    let mut store = SettingsStore::new();
    for (key, value) in entries {
        store.insert(SCHEMA, PATH, key, value);
    }
    store
}

#[test]
fn doubles_compare_as_numbers() {
    let values = [
        0.0,
        -0.0,
        1.0,
        -1.0,
        0.1,
        0.1 + 0.2,
        0.3,
        f64::MIN_POSITIVE,
        f64::MIN_POSITIVE / 2.0,
        f64::MAX,
        f64::MIN,
        f64::INFINITY,
        f64::NEG_INFINITY,
        f64::NAN,
        -f64::NAN,
        f64::from_bits(0x7ff0_0000_0000_0001),
        f64::from_bits(0xfff8_0000_0000_0000),
        f64::EPSILON,
    ];
    for a in values {
        for b in values {
            assert_eq!(double(a).same_number(&double(b)), a == b, "{a:?} {b:?}");
        }
    }
}

#[test]
fn doubles_know_what_is_not_a_number() {
    assert!(double(f64::NAN).is_nan());
    assert!(double(-f64::NAN).is_nan());
    assert!(Double::from_bits(0x7ff0_0000_0000_0001).is_nan());
    assert!(!double(f64::INFINITY).is_nan());
    assert!(!double(f64::NEG_INFINITY).is_nan());
    assert!(!double(0.0).is_nan());
    assert!(!double(f64::MAX).is_nan());
}

#[test]
fn doubles_keep_their_bits() {
    for bits in [0u64, 1, 0x8000_0000_0000_0000, 0x3ff0_0000_0000_0000, u64::MAX] {
        assert_eq!(Double::from_bits(bits).to_bits(), bits);
    }
}

#[test]
fn values_differ_as_a_write_would_see_it() {
    let text = |s: &str| Variant::Text(s.to_string());
    assert!(!Variant::Boolean(true).differs(&Variant::Boolean(true)));
    assert!(Variant::Boolean(true).differs(&Variant::Boolean(false)));
    assert!(!Variant::Int32(-3).differs(&Variant::Int32(-3)));
    assert!(Variant::Int32(-3).differs(&Variant::Int32(3)));
    assert!(!text("RMS").differs(&text("RMS")));
    assert!(text("RMS").differs(&text("Peak")));
    assert!(!Variant::Double(double(0.0)).differs(&Variant::Double(double(-0.0))));
    assert!(Variant::Double(double(f64::NAN)).differs(&Variant::Double(double(f64::NAN))));
    assert!(Variant::Double(double(1.0)).differs(&Variant::Double(double(1.5))));
    assert!(Variant::Int32(1).differs(&Variant::Boolean(true)));
    assert!(text("1").differs(&Variant::Other("1".to_string())));
}

#[test]
fn values_know_their_kind_and_copy_themselves() {
    let values = vec![
        Variant::Boolean(true),
        Variant::Int32(7),
        Variant::Double(double(2.5)),
        Variant::Text("x".to_string()),
        Variant::Other("[1.0]".to_string()),
    ];
    let kinds = [Kind::Boolean, Kind::Int32, Kind::Double, Kind::Text, Kind::Other];
    for (value, kind) in values.iter().zip(kinds) {
        assert_eq!(value.kind(), kind);
        assert_eq!(format!("{:?}", value.duplicate()), format!("{value:?}"));
    }
}

#[test]
fn a_new_store_is_empty() {
    let store = SettingsStore::new();
    let settings = Settings::with_path(SCHEMA, PATH);
    assert!(store.get(&settings, "state").is_none());
    assert!(store.writes().is_empty());
}

#[test]
fn insert_sets_and_replaces_without_logging() {
    let mut store = SettingsStore::new();
    let settings = Settings::with_path(SCHEMA, PATH);
    store.insert(SCHEMA, PATH, "state", Variant::Boolean(false));
    store.insert(SCHEMA, PATH, "ratio", Variant::Double(double(2.0)));
    store.insert(SCHEMA, PATH, "state", Variant::Boolean(true));
    assert!(matches!(store.get(&settings, "state"), Some(Variant::Boolean(true))));
    assert_eq!(number(store.get(&settings, "ratio").unwrap()), 2.0);
    assert!(store.get(&settings, "missing").is_none());
    assert!(store.writes().is_empty());
}

#[test]
fn keys_are_told_apart_by_schema_path_and_name() {
    let mut store = SettingsStore::new();
    store.insert(SCHEMA, "/a/", "state", Variant::Int32(1));
    store.insert(SCHEMA, "/b/", "state", Variant::Int32(2));
    store.insert("org.example.other", "/a/", "state", Variant::Int32(3));
    let get = |schema: &str, path: &str| match store.get(&Settings::with_path(schema, path), "state") {
        Some(Variant::Int32(i)) => Some(*i),
        _ => None,
    };
    assert_eq!(get(SCHEMA, "/a/"), Some(1));
    assert_eq!(get(SCHEMA, "/b/"), Some(2));
    assert_eq!(get("org.example.other", "/a/"), Some(3));
    assert_eq!(get("org.example.other", "/b/"), None);
}

#[test]
fn a_schema_with_its_own_path_has_an_empty_path() {
    let mut store = SettingsStore::new();
    store.insert(SCHEMA, "", "show", Variant::Boolean(true));
    assert_eq!(Settings::new(SCHEMA).get_boolean(&store, "show"), Some(true));
    assert_eq!(Settings::with_path(SCHEMA, PATH).get_boolean(&store, "show"), None);
}

#[test]
fn typed_getters_give_values_of_their_type_only() {
    let store = store_with(vec![
        ("flag", Variant::Boolean(true)),
        ("count", Variant::Int32(-12)),
        ("gain", Variant::Double(double(-3.5))),
        ("mode", Variant::Text("RMS".to_string())),
        ("color", Variant::Other("[1.0, 1.0]".to_string())),
    ]);
    let settings = Settings::with_path(SCHEMA, PATH);
    assert_eq!(settings.get_boolean(&store, "flag"), Some(true));
    assert_eq!(settings.get_int(&store, "count"), Some(-12));
    assert_eq!(settings.get_double(&store, "gain").map(|d| f64::from_bits(d.to_bits())), Some(-3.5));
    assert_eq!(settings.get_string(&store, "mode"), Some("RMS".to_string()));
    assert_eq!(settings.get_printed(&store, "color"), Some("[1.0, 1.0]".to_string()));
    assert_eq!(settings.get_boolean(&store, "count"), None);
    assert_eq!(settings.get_int(&store, "gain"), None);
    assert!(settings.get_double(&store, "mode").is_none());
    assert_eq!(settings.get_string(&store, "color"), None);
    assert_eq!(settings.get_printed(&store, "flag"), None);
    assert_eq!(settings.get_boolean(&store, "missing"), None);
}

#[test]
fn update_key_writes_only_what_changes() {
    let mut store = store_with(vec![
        ("flag", Variant::Boolean(true)),
        ("count", Variant::Int32(4)),
        ("gain", Variant::Double(double(1.0))),
    ]);
    let settings = Settings::with_path(SCHEMA, PATH);
    update_key(&mut store, &settings, "flag", Variant::Boolean(true));
    update_key(&mut store, &settings, "count", Variant::Int32(4));
    update_key(&mut store, &settings, "gain", Variant::Double(double(1.0)));
    assert!(store.writes().is_empty());
    update_key(&mut store, &settings, "count", Variant::Int32(5));
    update_key(&mut store, &settings, "flag", Variant::Boolean(false));
    let written: Vec<&str> = store.writes().iter().map(|entry| entry.key.as_str()).collect();
    assert_eq!(written, vec!["count", "flag"]);
    assert_eq!(store.writes()[0].schema, SCHEMA);
    assert_eq!(store.writes()[0].path, PATH);
    assert!(matches!(store.writes()[0].value, Variant::Int32(5)));
    assert_eq!(settings.get_int(&store, "count"), Some(5));
    assert_eq!(settings.get_boolean(&store, "flag"), Some(false));
}

#[test]
fn update_key_takes_the_two_zeros_for_one_number() {
    let mut store = store_with(vec![("gain", Variant::Double(double(0.0)))]);
    let settings = Settings::with_path(SCHEMA, PATH);
    update_key(&mut store, &settings, "gain", Variant::Double(double(-0.0)));
    assert!(store.writes().is_empty());
    let kept = settings.get_double(&store, "gain").unwrap();
    assert_eq!(kept.to_bits(), 0.0f64.to_bits());
}

#[test]
fn update_key_always_writes_what_is_not_a_number() {
    let mut store = store_with(vec![("gain", Variant::Double(double(f64::NAN)))]);
    let settings = Settings::with_path(SCHEMA, PATH);
    update_key(&mut store, &settings, "gain", Variant::Double(double(f64::NAN)));
    assert_eq!(store.writes().len(), 1);
    assert!(double(f64::NAN).to_bits() == settings.get_double(&store, "gain").unwrap().to_bits());
}

#[test]
fn update_string_key_writes_only_what_changes() {
    let mut store = store_with(vec![("mode", Variant::Text("RMS".to_string()))]);
    let settings = Settings::with_path(SCHEMA, PATH);
    update_string_key(&mut store, &settings, "mode", &"RMS".to_string());
    assert!(store.writes().is_empty());
    update_string_key(&mut store, &settings, "mode", &"Peak".to_string());
    assert_eq!(store.writes().len(), 1);
    assert_eq!(settings.get_string(&store, "mode"), Some("Peak".to_string()));
}

#[test]
fn writes_can_be_forgotten() {
    let mut store = store_with(vec![("count", Variant::Int32(1))]);
    let settings = Settings::with_path(SCHEMA, PATH);
    update_key(&mut store, &settings, "count", Variant::Int32(2));
    assert_eq!(store.writes().len(), 1);
    store.clear_writes();
    assert!(store.writes().is_empty());
    assert_eq!(settings.get_int(&store, "count"), Some(2));
}

#[test]
fn write_sets_the_value_and_logs_it() {
    let mut store = store_with(vec![("count", Variant::Int32(1))]);
    let settings = Settings::with_path(SCHEMA, PATH);
    store.write(&settings, "count", Variant::Int32(1));
    assert_eq!(store.writes().len(), 1);
    assert_eq!(store.writes()[0].key, "count");
    assert_eq!(settings.get_int(&store, "count"), Some(1));
}
