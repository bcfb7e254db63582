use dab_adapter::configuration::{
    get_app_timeouts, get_audio_volume_range, get_configuration_file_settings, get_device_id,
    get_ip_address, get_is_debug, get_keycode, get_keymap, keymap_from_files, get_lifecycle_timeout, get_rdk_device_info,
    get_rdk_keys, get_supported_languages, AppTimeouts, ConfigFile, Configuration,
    ConfigurationFileSettings, DeviceInfoMap, KeyMap,
};
use dab_adapter::dab::{AudioVolume, DabError};
use dab_adapter::table::Table;

fn entries(list: &[(&str, u16)]) -> Vec<(String, u16)> {
    list.iter().map(|(k, v)| (k.to_string(), *v)).collect()
}

#[test]
fn configuration_keeps_address_and_debug() {
    let c = Configuration::new("192.168.1.20", true);
    assert_eq!(get_ip_address(&c), "192.168.1.20");
    assert!(get_is_debug(&c));
    let c = Configuration::new("localhost", false);
    assert!(!get_is_debug(&c));
}

#[test]
fn device_id_is_passed_on() {
    match get_device_id(&"a1b2c3".to_string()) {
        Ok(id) => assert_eq!(id, "a1b2c3"),
        Err(_) => panic!("device id refused"),
    }
}

#[test]
fn default_keymap_when_no_file() {
    let t: KeyMap = keymap_from_files(ConfigFile::Unreadable, ConfigFile::Unreadable);
    assert_eq!(get_keycode(&t, "KEY_POWER".to_string()), Some(116));
    assert_eq!(get_keycode(&t, "KEY_HOME".to_string()), Some(36));
    assert_eq!(get_keycode(&t, "KEY_BACK".to_string()), Some(8));
    assert_eq!(get_keycode(&t, "KEY_9".to_string()), Some(57));
    assert_eq!(get_keycode(&t, "KEY_MENU".to_string()), None);
    assert_eq!(get_rdk_keys(&t).len(), 30);
}

#[test]
fn keymap_file_replaces_defaults() {
    let t = keymap_from_files(ConfigFile::Parsed(entries(&[("KEY_UP", 100), ("KEY_MENU", 200)])), ConfigFile::Unreadable);
    assert_eq!(get_keycode(&t, "KEY_UP".to_string()), Some(100));
    assert_eq!(get_keycode(&t, "KEY_MENU".to_string()), Some(200));
    assert_eq!(get_keycode(&t, "KEY_POWER".to_string()), None);
    let mut keys = get_rdk_keys(&t);
    keys.sort();
    assert_eq!(keys, vec!["KEY_MENU".to_string(), "KEY_UP".to_string()]);
}

#[test]
fn malformed_keymap_file_gives_empty_map() {
    let t = keymap_from_files(ConfigFile::Malformed, ConfigFile::Unreadable);
    assert_eq!(get_rdk_keys(&t).len(), 0);
    assert_eq!(get_keycode(&t, "KEY_POWER".to_string()), None);
}

#[test]
fn platform_keymap_overrides() {
    let t = keymap_from_files(ConfigFile::Unreadable, ConfigFile::Parsed(entries(&[("KEY_POWER", 1), ("KEY_RED", 403)])));
    assert_eq!(get_keycode(&t, "KEY_POWER".to_string()), Some(1));
    assert_eq!(get_keycode(&t, "KEY_RED".to_string()), Some(403));
    assert_eq!(get_keycode(&t, "KEY_HOME".to_string()), Some(36));
    assert_eq!(get_rdk_keys(&t).len(), 31);
}

#[test]
fn later_entry_of_a_file_wins() {
    let t = keymap_from_files(ConfigFile::Parsed(entries(&[("KEY_UP", 1), ("KEY_UP", 2)])), ConfigFile::Malformed);
    assert_eq!(get_keycode(&t, "KEY_UP".to_string()), Some(2));
    assert_eq!(get_rdk_keys(&t).len(), 1);
}

#[test]
fn listed_keys_each_once_and_all_have_codes() {
    let t = keymap_from_files(ConfigFile::Unreadable, ConfigFile::Parsed(entries(&[("KEY_UP", 7)])));
    let keys = get_rdk_keys(&t);
    let mut sorted = keys.clone();
    sorted.sort();
    sorted.dedup();
    assert_eq!(sorted.len(), keys.len());
    for k in keys {
        assert!(get_keycode(&t, k).is_some());
    }
}

fn timeouts(c: u64, r: u64, d: u64, b: u64) -> AppTimeouts {
    AppTimeouts {
        cold_launch_timeout_ms: c,
        resume_launch_timeout_ms: r,
        exit_to_destroy_timeout_ms: d,
        exit_to_background_timeout_ms: b,
    }
}

#[test]
fn youtube_default_timeouts() {
    let t = get_app_timeouts(ConfigFile::Unreadable);
    assert_eq!(get_lifecycle_timeout(&t, "youtube", "cold_launch_timeout_ms"), Some(6000));
    assert_eq!(get_lifecycle_timeout(&t, "youtube", "resume_launch_timeout_ms"), Some(3000));
    assert_eq!(get_lifecycle_timeout(&t, "youtube", "exit_to_destroy_timeout_ms"), Some(2500));
    assert_eq!(get_lifecycle_timeout(&t, "youtube", "exit_to_background_timeout_ms"), Some(2000));
}

#[test]
fn lifecycle_timeout_defaults_to_2500() {
    let t = get_app_timeouts(ConfigFile::Malformed);
    assert_eq!(get_lifecycle_timeout(&t, "netflix", "cold_launch_timeout_ms"), Some(2500));
    assert_eq!(get_lifecycle_timeout(&t, "youtube", "no_such_timeout"), Some(2500));
}

#[test]
fn unconfigurable_app_timeout_is_ignored() {
    let file = vec![
        ("netflix".to_string(), timeouts(1, 2, 3, 4)),
        ("someapp".to_string(), timeouts(9, 9, 9, 9)),
        ("youtube".to_string(), timeouts(10, 20, 30, 40)),
    ];
    let t = get_app_timeouts(ConfigFile::Parsed(file));
    assert_eq!(get_lifecycle_timeout(&t, "netflix", "exit_to_background_timeout_ms"), Some(4));
    assert_eq!(get_lifecycle_timeout(&t, "someapp", "cold_launch_timeout_ms"), Some(2500));
    assert_eq!(get_lifecycle_timeout(&t, "youtube", "resume_launch_timeout_ms"), Some(20));
}

#[test]
fn settings_file_defaults() {
    let s = get_configuration_file_settings(ConfigFile::Unreadable);
    assert_eq!(get_supported_languages(&s), vec!["en-US".to_string()]);
    assert_eq!(get_audio_volume_range(&s), AudioVolume { min: 0, max: 100 });
}

#[test]
fn settings_file_values() {
    let file = ConfigurationFileSettings {
        supported_languages: Some(vec!["fr-FR".to_string(), "de-DE".to_string()]),
        audio_volume_range: Some(AudioVolume { min: 10, max: 50 }),
    };
    let s = get_configuration_file_settings(ConfigFile::Parsed(file));
    assert_eq!(get_supported_languages(&s), vec!["fr-FR".to_string(), "de-DE".to_string()]);
    assert_eq!(get_audio_volume_range(&s), AudioVolume { min: 10, max: 50 });
    let s = get_configuration_file_settings(ConfigFile::Malformed);
    assert!(s.supported_languages.is_none());
}

#[test]
fn device_info_property_lookup() {
    let mut info: DeviceInfoMap = Table::new();
    info.insert("model".to_string(), "XG1".to_string());
    match get_rdk_device_info(&info, "model") {
        Ok(v) => assert_eq!(v, "XG1"),
        Err(_) => panic!("model missing"),
    }
    match get_rdk_device_info(&info, "chipset") {
        Err(DabError::Err500(m)) => assert_eq!(m, "No match for property chipset."),
        _ => panic!("expected a 500 error"),
    }
}

#[test]
fn table_lookup_after_insert() {
    let mut t: Table<u32> = Table::new();
    t.insert("a".to_string(), 1);
    t.insert("b".to_string(), 2);
    t.insert("a".to_string(), 3);
    assert_eq!(t.get("a"), Some(&3));
    assert_eq!(t.get("b"), Some(&2));
    assert_eq!(t.get("c"), None);
    assert_eq!(t.len(), 2);
}

#[test]
fn keymap_from_file_texts() {
    let t = get_keymap(None, None);
    assert_eq!(get_keycode(&t, "KEY_POWER".to_string()), Some(116));
    let t = get_keymap(Some(r#"{"KEY_UP": 100, "KEY_MENU": 408, "KEY_UP": 101}"#.to_string()), None);
    assert_eq!(get_keycode(&t, "KEY_UP".to_string()), Some(101));
    assert_eq!(get_keycode(&t, "KEY_MENU".to_string()), Some(408));
    assert_eq!(get_keycode(&t, "KEY_POWER".to_string()), None);
    let t = get_keymap(Some("not json".to_string()), Some(r#"{"KEY_RED": 403}"#.to_string()));
    assert_eq!(get_rdk_keys(&t), vec!["KEY_RED".to_string()]);
    let t = get_keymap(None, Some(r#"{"KEY_POWER": 1, "KEY_RED": 403}"#.to_string()));
    assert_eq!(get_keycode(&t, "KEY_POWER".to_string()), Some(1));
    assert_eq!(get_keycode(&t, "KEY_HOME".to_string()), Some(36));
    assert_eq!(get_keycode(&t, "KEY_RED".to_string()), Some(403));
    let t = get_keymap(None, Some(r#"{"KEY_POWER": -1}"#.to_string()));
    assert_eq!(get_keycode(&t, "KEY_POWER".to_string()), Some(116));
}
