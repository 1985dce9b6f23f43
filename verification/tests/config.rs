use build_limit_changer::config::{
    config_dir, config_path, default_limits, init_config, insert, join, load, log_path, lookup,
    position, set_config_dir, BuildLimit, ConfigDir, ConfigInit, OverrideEntry, StoredConfig,
    CONFIG_FILE, CONFIG_SUBDIR, LOG_FILE,
};

fn entry(name: &str, min: i16, max: i16) -> OverrideEntry {
    OverrideEntry { name: name.to_string(), limit: BuildLimit { min, max } }
}

#[test]
fn built_in_limits_of_the_three_dimensions() {
    assert_eq!(
        default_limits(),
        vec![entry("Overworld", -64, 320), entry("Nether", 0, 128), entry("TheEnd", 0, 256)]
    );
}

#[test]
fn absent_file_gives_the_defaults_and_asks_for_the_file() {
    let loaded = load(StoredConfig::Unreadable);
    assert_eq!(loaded.limits, default_limits());
    assert!(loaded.regenerate);
    assert_eq!(lookup(&loaded.limits, &"Overworld".to_string()), Some(BuildLimit { min: -64, max: 320 }));
    assert_eq!(lookup(&loaded.limits, &"Nether".to_string()), Some(BuildLimit { min: 0, max: 128 }));
    assert_eq!(lookup(&loaded.limits, &"TheEnd".to_string()), Some(BuildLimit { min: 0, max: 256 }));
}

#[test]
fn a_stored_configuration_is_taken_as_it_is() {
    let stored = vec![entry("Overworld", -128, 512), entry("Aether", 0, 64)];
    let loaded = load(StoredConfig::Parsed(stored.clone()));
    assert_eq!(loaded.limits, stored);
    assert!(!loaded.regenerate);
    let empty = load(StoredConfig::Parsed(vec![]));
    assert!(empty.limits.is_empty());
    assert!(!empty.regenerate);
}

#[test]
fn without_directory_there_are_no_limits() {
    let loaded = load(StoredConfig::NoDirectory);
    assert!(loaded.limits.is_empty());
    assert!(!loaded.regenerate);
}

#[test]
fn limits_are_looked_up_by_name() {
    let limits = vec![entry("Overworld", -64, 320), entry("Nether", 0, 128), entry("Overworld", 0, 16)];
    assert_eq!(lookup(&limits, &"Overworld".to_string()), Some(BuildLimit { min: -64, max: 320 }));
    assert_eq!(lookup(&limits, &"Nether".to_string()), Some(BuildLimit { min: 0, max: 128 }));
    assert_eq!(lookup(&limits, &"overworld".to_string()), None);
    assert_eq!(lookup(&limits, &"".to_string()), None);
    assert_eq!(lookup(&[], &"Overworld".to_string()), None);
}

#[test]
fn the_built_in_names_are_distinct() {
    let limits = default_limits();
    for i in 0..limits.len() {
        for j in i + 1..limits.len() {
            assert_ne!(limits[i].name, limits[j].name);
        }
        assert_eq!(position(&limits, &limits[i].name), Some(i));
        assert_eq!(lookup(&limits, &limits[i].name), Some(limits[i].limit));
    }
    assert_eq!(position(&limits, &"Aether".to_string()), None);
}

#[test]
fn setting_the_limits_of_a_name_keeps_one_entry_of_it() {
    let mut limits = Vec::new();
    insert(&mut limits, entry("Overworld", -64, 320));
    insert(&mut limits, entry("Nether", 0, 128));
    assert_eq!(limits, vec![entry("Overworld", -64, 320), entry("Nether", 0, 128)]);
    insert(&mut limits, entry("Overworld", -128, 512));
    assert_eq!(limits, vec![entry("Overworld", -128, 512), entry("Nether", 0, 128)]);
    assert_eq!(lookup(&limits, &"Overworld".to_string()), Some(BuildLimit { min: -128, max: 512 }));
    assert_eq!(lookup(&limits, &"Nether".to_string()), Some(BuildLimit { min: 0, max: 128 }));
    insert(&mut limits, entry("TheEnd", 0, 256));
    insert(&mut limits, entry("Nether", 16, 64));
    assert_eq!(
        limits,
        vec![entry("Overworld", -128, 512), entry("Nether", 16, 64), entry("TheEnd", 0, 256)]
    );
    assert_eq!(lookup(&limits, &"TheEnd".to_string()), Some(BuildLimit { min: 0, max: 256 }));
}

#[test]
fn paths_are_joined_with_one_separator() {
    assert_eq!(join(&"/data/BuildLimitChanger/".to_string(), "log.txt"), "/data/BuildLimitChanger/log.txt");
    assert_eq!(join(&"/data".to_string(), "log.txt"), "/data/log.txt");
    assert_eq!(join(&"".to_string(), "log.txt"), "log.txt");
    assert_eq!(join(&"/".to_string(), "log.txt"), "/log.txt");
    assert_eq!(join(&"/données/é".to_string(), "x"), "/données/é/x");
}

#[test]
fn the_directory_is_set_once() {
    let mut cell = ConfigDir::new();
    assert_eq!(cell.get(), None);
    assert_eq!(config_path(&cell), None);
    assert_eq!(log_path(&cell), None);
    assert!(set_config_dir(&mut cell, "/games/BuildLimitChanger/".to_string()));
    assert_eq!(cell.get(), Some(&"/games/BuildLimitChanger/".to_string()));
    assert!(!set_config_dir(&mut cell, "/other/".to_string()));
    assert_eq!(cell.get(), Some(&"/games/BuildLimitChanger/".to_string()));
    assert_eq!(config_path(&cell), Some("/games/BuildLimitChanger/dimensions.json".to_string()));
    assert_eq!(log_path(&cell), Some("/games/BuildLimitChanger/log.txt".to_string()));
}

#[test]
fn file_names() {
    assert_eq!(CONFIG_FILE, "dimensions.json");
    assert_eq!(LOG_FILE, "log.txt");
    assert_eq!(CONFIG_SUBDIR, "/BuildLimitChanger/");
    assert_eq!(config_dir("/sdcard/games"), "/sdcard/games/BuildLimitChanger/");
    assert_eq!(config_dir(""), "/BuildLimitChanger/");
}

#[test]
fn a_writable_directory_is_set_up() {
    let mut cell = ConfigDir::new();
    let mut path = "/sdcard/games".to_string();
    assert_eq!(init_config(&mut path, true, &mut cell), ConfigInit::Ready);
    assert_eq!(path, "/sdcard/games/BuildLimitChanger/");
    assert_eq!(config_path(&cell), Some("/sdcard/games/BuildLimitChanger/dimensions.json".to_string()));
    let mut again = "/elsewhere".to_string();
    assert_eq!(init_config(&mut again, true, &mut cell), ConfigInit::AlreadySet);
    assert_eq!(again, "/elsewhere/BuildLimitChanger/");
    assert_eq!(log_path(&cell), Some("/sdcard/games/BuildLimitChanger/log.txt".to_string()));
}

#[test]
fn a_directory_that_cannot_be_written_is_not_set() {
    let mut cell = ConfigDir::new();
    let mut path = "/proc".to_string();
    assert_eq!(init_config(&mut path, false, &mut cell), ConfigInit::NotWritable);
    assert_eq!(path, "/proc/BuildLimitChanger/");
    assert_eq!(cell.get(), None);
    assert_eq!(config_path(&cell), None);
}
