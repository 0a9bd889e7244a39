use pulseeffects::presets::legacy::{migrate_legacy, repair_legacy_yaml, LegacyError};

const LEGACY: &str = r#"{
    "spectrum": {
        "show": "true",
        "n-points": "100",
        "type": "Bars",
        "scale": "1.5"
    },
    "output": {
        "plugins_order": ["limiter", "compressor"],
        "limiter": {
            "state": "false",
            "input-gain": "-3.5"
        },
        "equalizer": {
            "left": {
                "band0": {
                    "type": "Bell",
                    "mode": "RLC (BT)",
                    "gain": "0",
                    "q": "4.36"
                }
            }
        }
    }
}"#;

const PREFERRED: &str = "---
spectrum:
  show: true
  n-points: 100
  style: Bars
  scale: 1.5
output:
  plugins_order:
    - limiter
    - compressor
  limiter:
    state: false
    input-gain: -3.5
  equalizer:
    left:
      band0:
        style: Bell
        mode: RLC (BT)
        gain: 0
        q: 4.36
";

#[test]
fn repair_renames_the_key_and_takes_the_quotes_out() {
    assert_eq!(repair_legacy_yaml("type: \"Bell\"\n"), "style: Bell\n");
    assert_eq!(repair_legacy_yaml("state: \"true\"\ngain: \"0.5\"\n"), "state: true\ngain: 0.5\n");
    assert_eq!(repair_legacy_yaml(""), "");
    assert_eq!(repair_legacy_yaml("nothing to do\n"), "nothing to do\n");
}

#[test]
fn repair_renames_wherever_the_letters_stand() {
    assert_eq!(repair_legacy_yaml("sidechain-type: peak"), "sidechain-style: peak");
    assert_eq!(repair_legacy_yaml("prototype"), "protostyle");
    assert_eq!(repair_legacy_yaml("typetype"), "stylestyle");
    assert_eq!(repair_legacy_yaml("ty\"pe"), "type");
}

#[test]
fn repair_is_the_two_replacements_of_the_standard_library() {
    for text in [
        "",
        "type",
        "\"",
        "a: \"type\"\nb: \"1\"\n",
        "ty\"pe: \"\"",
        "---\noutput:\n  type: \"x\"\n",
        "ünï: \"type\"",
    ] {
        assert_eq!(repair_legacy_yaml(text), text.replace("type", "style").replace('"', ""));
    }
}

#[test]
fn a_legacy_preset_becomes_the_text_of_a_preferred_one() {
    assert_eq!(migrate_legacy(LEGACY), Ok(PREFERRED.to_string()));
}

#[test]
fn a_migrated_preset_parses_like_the_preferred_one() {
    let migrated = migrate_legacy(LEGACY).unwrap();
    let from_legacy: serde_yaml::Value = serde_yaml::from_str(&migrated).unwrap();
    let preferred: serde_yaml::Value = serde_yaml::from_str(PREFERRED).unwrap();
    assert_eq!(from_legacy, preferred);
    let spectrum = from_legacy.get("spectrum").unwrap();
    assert_eq!(spectrum.get("show").unwrap().as_bool(), Some(true));
    assert_eq!(spectrum.get("n-points").unwrap().as_i64(), Some(100));
    assert_eq!(spectrum.get("style").unwrap().as_str(), Some("Bars"));
    assert_eq!(spectrum.get("scale").unwrap().as_f64(), Some(1.5));
    assert!(spectrum.get("type").is_none());
}

#[test]
fn migration_turns_json_into_yaml() {
    let migrated = migrate_legacy("{\"a\": \"1\", \"b\": {\"c\": \"x\"}}").unwrap();
    assert_eq!(migrated, "---\na: 1\nb:\n  c: x\n");
}

#[test]
fn migration_keeps_the_order_of_the_keys() {
    let migrated = migrate_legacy("{\"z\": \"1\", \"a\": \"2\", \"m\": \"3\"}").unwrap();
    assert_eq!(migrated, "---\nz: 1\na: 2\nm: 3\n");
}

#[test]
fn text_that_is_not_json_is_refused() {
    for text in ["", "{", "{\"a\": }", "not json", "{\"a\": 1} trailing", "[1, 2"] {
        match migrate_legacy(text) {
            Err(error) => {
                assert!(matches!(error, LegacyError::MalformedJson(_)), "{text:?}");
                assert!(!error.message().is_empty());
            }
            Ok(yaml) => panic!("{text:?} gave {yaml:?}"),
        }
    }
}

#[test]
fn the_error_carries_the_message_of_the_reader() {
    let expected = serde_json::from_str::<serde_yaml::Value>("{\"a\": }").unwrap_err().to_string();
    match migrate_legacy("{\"a\": }") {
        Err(LegacyError::MalformedJson(message)) => assert_eq!(message, expected),
        other => panic!("unexpected: {other:?}"),
    }
}
