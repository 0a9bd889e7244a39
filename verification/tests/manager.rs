use pulseeffects::presets::legacy::LegacyError;
use pulseeffects::presets::manager::{
    autoload_directory, file_extension, file_stem, get_presets_list, has_preset, input_directory,
    is_plain_name, join_path, output_directory, preset_file_to_string, DirectoryEntry, LoadError,
    Manager, PresetType, SaveError,
};
use pulseeffects::settings::SettingsStore;
use std::path::Path;

fn entry(name: &str, is_file: bool) -> DirectoryEntry {
    DirectoryEntry { file_name: name.to_string(), is_file }
}

fn files(names: &[&str]) -> Vec<DirectoryEntry> {
    names.iter().map(|name| entry(name, true)).collect()
}

fn strings(names: &[&str]) -> Vec<String> {
    names.iter().map(|name| name.to_string()).collect()
}

fn manager_with_two_system_directories() -> Manager {
    let mut manager = Manager::new("/home/user/.config");
    manager.add_system_directory("/etc/xdg", true, true);
    manager.add_system_directory("/usr/share", true, false);
    manager
}

#[test]
fn preset_directories_lie_below_the_configuration_directory() {
    assert_eq!(input_directory("/home/user/.config"), "/home/user/.config/PulseEffects/input");
    assert_eq!(output_directory("/home/user/.config"), "/home/user/.config/PulseEffects/output");
    assert_eq!(autoload_directory("/home/user/.config"), "/home/user/.config/PulseEffects/autoload");
    assert_eq!(input_directory(""), "/PulseEffects/input");
}

#[test]
fn a_new_manager_knows_the_user_directories_only() {
    let manager = Manager::new("/home/user/.config");
    assert_eq!(
        manager.directories(&PresetType::Input),
        strings(&["/home/user/.config/PulseEffects/input"])
    );
    assert_eq!(
        manager.directories(&PresetType::Output),
        strings(&["/home/user/.config/PulseEffects/output"])
    );
}

#[test]
fn system_directories_follow_the_user_directory_where_they_exist() {
    let manager = manager_with_two_system_directories();
    assert_eq!(
        manager.directories(&PresetType::Input),
        strings(&[
            "/home/user/.config/PulseEffects/input",
            "/etc/xdg/PulseEffects/input",
            "/usr/share/PulseEffects/input",
        ])
    );
    assert_eq!(
        manager.directories(&PresetType::Output),
        strings(&["/home/user/.config/PulseEffects/output", "/etc/xdg/PulseEffects/output"])
    );
}

#[test]
fn extension_and_stem_split_a_name_at_its_last_dot() {
    assert_eq!(file_extension("rock.json"), Some("json".to_string()));
    assert_eq!(file_stem("rock.json"), "rock");
    assert_eq!(file_extension("my.preset.yaml"), Some("yaml".to_string()));
    assert_eq!(file_stem("my.preset.yaml"), "my.preset");
    assert_eq!(file_extension("plain"), None);
    assert_eq!(file_stem("plain"), "plain");
    assert_eq!(file_extension(".hidden"), None);
    assert_eq!(file_stem(".hidden"), ".hidden");
    assert_eq!(file_extension("ends."), Some(String::new()));
    assert_eq!(file_stem("ends."), "ends");
    assert_eq!(file_extension(""), None);
    assert_eq!(file_stem(""), "");
}

#[test]
fn extension_and_stem_agree_with_the_standard_library() {
    let names = [
        "rock.json", "a.b.c", "plain", ".hidden", ".hidden.json", "ends.", "..json", "x.", "ü.ö",
        "name with blanks.json", "UPPER.JSON", "a", ".a.", "double..dot",
    ];
    for name in names {
        let path = Path::new(name);
        let extension = path.extension().map(|e| e.to_str().unwrap().to_string());
        let stem = path.file_stem().map(|s| s.to_str().unwrap().to_string()).unwrap();
        assert_eq!(file_extension(name), extension, "{name:?}");
        assert_eq!(file_stem(name), stem, "{name:?}");
    }
}

#[test]
fn join_path_puts_one_slash_between_directory_and_file() {
    assert_eq!(join_path("/etc/xdg", "rock.yaml"), "/etc/xdg/rock.yaml");
    assert_eq!(join_path("/etc/xdg/", "rock.yaml"), "/etc/xdg/rock.yaml");
    assert_eq!(join_path("", "rock.yaml"), "rock.yaml");
    assert_eq!(join_path("/etc/xdg", "/abs/rock.yaml"), "/abs/rock.yaml");
    assert_eq!(join_path("/etc/xdg", ""), "/etc/xdg/");
    assert_eq!(join_path("relative", "sub/rock.yaml"), "relative/sub/rock.yaml");
}

#[test]
fn join_path_agrees_with_the_standard_library() {
    let directories = ["", "/", "/etc/xdg", "/etc/xdg/", "relative", "a/b/", "ü"];
    let names = ["", "rock.yaml", "/abs", "sub/rock.json", "ö.yaml"];
    for directory in directories {
        for name in names {
            let expected = Path::new(directory).join(name).to_str().unwrap().to_string();
            assert_eq!(join_path(directory, name), expected, "{directory:?} {name:?}");
        }
    }
}

#[test]
fn presets_list_keeps_the_preset_files_of_both_formats() {
    let entries = vec![
        entry("rock.json", true),
        entry("notes.txt", true),
        entry("folder.json", false),
        entry("folder.yaml", false),
        entry("jazz.json", true),
        entry("plain", true),
        entry(".json", true),
        entry(".yaml", true),
        entry("new.yaml", true),
        entry("loud.JSON", true),
        entry("loud.YAML", true),
        entry("short.yml", true),
        entry("two.dots.json", true),
        entry("two.dots.yaml", true),
    ];
    assert_eq!(
        get_presets_list(&entries),
        strings(&["rock", "jazz", "new", "two.dots", "two.dots"])
    );
}

#[test]
fn a_preset_that_was_just_saved_is_listed() {
    let manager = Manager::new("/home/user/.config");
    let path = manager.save_path(&PresetType::Output, &"fresh".to_string());
    let file_name = path.rsplit('/').next().unwrap();
    assert_eq!(file_name, "fresh.yaml");
    let listings = vec![vec![entry(file_name, true)]];
    assert_eq!(manager.get_names(&PresetType::Output, &listings), strings(&["fresh"]));
}

#[test]
fn a_name_with_files_of_both_formats_is_listed_once() {
    let manager = manager_with_two_system_directories();
    let listings = vec![
        files(&["both.yaml", "both.json", "old.json"]),
        files(&["both.json", "new.yaml"]),
    ];
    assert_eq!(
        manager.get_names(&PresetType::Input, &listings),
        strings(&["both", "new", "old"])
    );
}

#[test]
fn a_text_holds_a_preset_unless_it_is_empty() {
    assert!(!has_preset(""));
    assert!(has_preset(" "));
    assert!(has_preset("---\n"));
    assert!(has_preset("output:\n  plugins_order: []\n"));
}

#[test]
fn a_plain_name_holds_no_slash() {
    assert!(is_plain_name("rock"));
    assert!(is_plain_name(""));
    assert!(is_plain_name("my preset.v2"));
    assert!(is_plain_name(".."));
    assert!(!is_plain_name("/etc/passwd"));
    assert!(!is_plain_name("sub/rock"));
    assert!(!is_plain_name("rock/"));
}

#[test]
fn a_name_with_a_slash_is_not_saved() {
    let manager = Manager::new("/home/user/.config");
    let store = SettingsStore::new();
    for name in ["/tmp/rock", "../rock", "sub/rock"] {
        let result = manager.save(&PresetType::Output, &name.to_string(), &store);
        assert!(matches!(result, Err(SaveError::Name)), "{name:?}");
    }
}

#[test]
fn presets_list_of_an_empty_directory_is_empty() {
    assert_eq!(get_presets_list(&Vec::new()), Vec::<String>::new());
}

#[test]
fn presets_list_keeps_the_order_and_the_repeats_of_the_entries() {
    let entries = files(&["b.json", "a.json", "b.json"]);
    assert_eq!(get_presets_list(&entries), strings(&["b", "a", "b"]));
}

#[test]
fn names_are_sorted_and_each_stands_once() {
    let manager = manager_with_two_system_directories();
    let listings = vec![
        files(&["rock.json", "jazz.json", "Zebra.json"]),
        files(&["jazz.json", "classic.json"]),
        files(&["rock.json", "ambient.json", "notes.txt"]),
    ];
    assert_eq!(
        manager.get_names(&PresetType::Input, &listings),
        strings(&["Zebra", "ambient", "classic", "jazz", "rock"])
    );
}

#[test]
fn names_are_those_that_sorting_and_deduplicating_give() {
    let manager = manager_with_two_system_directories();
    let listings = vec![
        files(&["é.json", "e.json", "z.json", "10.json", "9.json", "a b.json"]),
        files(&["Z.json", "e.json", "~.json", "-.json"]),
        files(&["é.json", "ab.json", "a.json", "abc.json"]),
    ];
    let mut expected: Vec<String> = listings
        .iter()
        .flat_map(|listing| get_presets_list(listing))
        .collect();
    expected.sort();
    expected.dedup();
    assert_eq!(manager.get_names(&PresetType::Input, &listings), expected);
}

#[test]
fn names_come_from_the_directories_of_the_direction_only() {
    let manager = manager_with_two_system_directories();
    let listings = vec![files(&["a.json"]), files(&["b.json"]), files(&["c.json"])];
    assert_eq!(manager.get_names(&PresetType::Input, &listings), strings(&["a", "b", "c"]));
    assert_eq!(manager.get_names(&PresetType::Output, &listings), strings(&["a", "b"]));
}

#[test]
fn a_directory_without_a_listing_counts_as_empty() {
    let manager = manager_with_two_system_directories();
    assert_eq!(manager.get_names(&PresetType::Input, &Vec::new()), Vec::<String>::new());
    let listings = vec![files(&["only.json"])];
    assert_eq!(manager.get_names(&PresetType::Input, &listings), strings(&["only"]));
}

#[test]
fn candidate_paths_name_the_file_in_every_directory() {
    let manager = manager_with_two_system_directories();
    assert_eq!(
        manager.candidate_paths(&PresetType::Input, &"rock".to_string(), ".yaml"),
        strings(&[
            "/home/user/.config/PulseEffects/input/rock.yaml",
            "/etc/xdg/PulseEffects/input/rock.yaml",
            "/usr/share/PulseEffects/input/rock.yaml",
        ])
    );
    assert_eq!(
        manager.candidate_paths(&PresetType::Output, &"rock".to_string(), ".json"),
        strings(&[
            "/home/user/.config/PulseEffects/output/rock.json",
            "/etc/xdg/PulseEffects/output/rock.json",
        ])
    );
}

#[test]
fn the_user_directory_goes_before_the_system_directories() {
    let manager = manager_with_two_system_directories();
    let name = "rock".to_string();
    let found = manager.check_file_type(&PresetType::Input, &name, ".yaml", &vec![true, true, true]);
    assert_eq!(found, (true, "/home/user/.config/PulseEffects/input/rock.yaml".to_string()));
    let found = manager.check_file_type(&PresetType::Input, &name, ".yaml", &vec![true, false, false]);
    assert_eq!(found, (true, "/home/user/.config/PulseEffects/input/rock.yaml".to_string()));
}

#[test]
fn the_first_directory_with_the_file_is_taken() {
    let manager = manager_with_two_system_directories();
    let name = "rock".to_string();
    let found = manager.check_file_type(&PresetType::Input, &name, ".yaml", &vec![false, true, true]);
    assert_eq!(found, (true, "/etc/xdg/PulseEffects/input/rock.yaml".to_string()));
    let found = manager.check_file_type(&PresetType::Input, &name, ".json", &vec![false, false, true]);
    assert_eq!(found, (true, "/usr/share/PulseEffects/input/rock.json".to_string()));
}

#[test]
fn a_file_that_is_nowhere_resolves_to_nothing() {
    let manager = manager_with_two_system_directories();
    let name = "rock".to_string();
    let found = manager.check_file_type(&PresetType::Input, &name, ".yaml", &vec![false, false, false]);
    assert_eq!(found, (false, String::new()));
    let found = manager.check_file_type(&PresetType::Input, &name, ".yaml", &Vec::new());
    assert_eq!(found, (false, String::new()));
}

#[test]
fn flags_beyond_the_directories_are_not_looked_at() {
    let manager = manager_with_two_system_directories();
    let name = "rock".to_string();
    let found = manager.check_file_type(&PresetType::Output, &name, ".yaml", &vec![false, false, true]);
    assert_eq!(found, (false, String::new()));
}

#[test]
fn a_preset_is_saved_where_loading_looks_first() {
    let manager = manager_with_two_system_directories();
    let name = "rock".to_string();
    for kind in [PresetType::Input, PresetType::Output] {
        let saved = manager.save_path(&kind, &name);
        assert_eq!(saved, manager.candidate_paths(&kind, &name, ".yaml")[0]);
    }
    assert_eq!(
        manager.save_path(&PresetType::Output, &name),
        "/home/user/.config/PulseEffects/output/rock.yaml"
    );
    assert_eq!(
        manager.save_path(&PresetType::Input, &name),
        "/home/user/.config/PulseEffects/input/rock.yaml"
    );
}

#[test]
fn the_preferred_format_goes_before_the_legacy_format() {
    let yaml = "output:\n  plugins_order: []\n".to_string();
    let json = "{\"output\": {}}".to_string();
    assert_eq!(preset_file_to_string(Some(yaml.clone()), Some(json)), Ok(yaml.clone()));
    assert_eq!(preset_file_to_string(Some(yaml.clone()), None), Ok(yaml));
}

#[test]
fn a_missing_preset_gives_an_empty_text() {
    assert_eq!(preset_file_to_string(None, None), Ok(String::new()));
}

#[test]
fn a_legacy_preset_is_migrated() {
    let json = "{\"limiter\": {\"type\": \"5\", \"state\": \"true\"}}".to_string();
    let text = preset_file_to_string(None, Some(json)).unwrap();
    assert!(text.contains("style: 5"), "{text:?}");
    assert!(text.contains("state: true"), "{text:?}");
    assert!(!text.contains('"'));
    assert!(!text.contains("type"));
}

#[test]
fn a_malformed_legacy_preset_is_an_error() {
    match preset_file_to_string(None, Some("{\"open\": ".to_string())) {
        Err(LegacyError::MalformedJson(message)) => assert!(!message.is_empty()),
        other => panic!("unexpected: {other:?}"),
    }
}

#[test]
fn a_parse_error_leaves_the_store_untouched() {
    let manager = Manager::new("/home/user/.config");
    let mut store = SettingsStore::new();
    store.insert("org.example", "/x/", "state", pulseeffects::settings::Variant::Boolean(true));
    let result = manager.load(&PresetType::Output, Err("missing field".to_string()), &mut store);
    match result {
        Err(LoadError::Malformed(message)) => assert_eq!(message, "missing field"),
        other => panic!("unexpected: {other:?}"),
    }
    assert!(store.writes().is_empty());
}

#[test]
fn saving_from_a_store_without_the_keys_gives_nothing() {
    let manager = Manager::new("/home/user/.config");
    let store = SettingsStore::new();
    let result = manager.save(&PresetType::Output, &"rock".to_string(), &store);
    assert!(matches!(result, Err(SaveError::Store)));
    let result = manager.save(&PresetType::Input, &"rock".to_string(), &store);
    assert!(matches!(result, Err(SaveError::Store)));
}
