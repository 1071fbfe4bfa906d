use std::collections::HashMap;

use asya::dotnet::PreloadOptions;
use asya::plugin_config::{config_is_normalizable, normalize_config, ConfigFieldType};
use asya::plugin_system::{extension, has_extension, qualify_plugins, FoundedPlugin, PluginFile};
use asya::shared_plugin_system::{find_plugins, plugin_extension};
use asya::str_map::StrMap;

fn file(dir: &str, name: &str) -> PluginFile {
    PluginFile { path: format!("{}/{}", dir, name), file_name: name.to_string() }
}

fn describe(p: &FoundedPlugin) -> String {
    match p {
        FoundedPlugin::Native { path } => format!("native {}", path),
        FoundedPlugin::Dotnet { dll_path, runtimeconfig_path } => {
            format!("dotnet {} {}", dll_path, runtimeconfig_path)
        }
    }
}

#[test]
fn entry_point_is_split_into_namespace_class_and_method() {
    let opts = PreloadOptions { plugin_entry_point: "Asya.Plugins.Weather.Entry.Run".to_string() };
    assert_eq!(opts.ep_namespace(), "Asya.Plugins.Weather");
    assert_eq!(opts.ep_class(), "Entry");
    assert_eq!(opts.ep_method(), "Run");
    assert_eq!(opts.entry_point_type_name(), "Asya.Plugins.Weather.Entry, Asya.Plugins.Weather");
}

#[test]
fn entry_point_with_one_dot() {
    let opts = PreloadOptions { plugin_entry_point: "Plugin.Start".to_string() };
    assert_eq!(opts.ep_namespace(), "Plugin");
    assert_eq!(opts.ep_class(), "Plugin");
    assert_eq!(opts.ep_method(), "Start");
    assert_eq!(opts.entry_point_type_name(), "Plugin.Plugin, Plugin");
}

#[test]
fn entry_point_without_dot() {
    let opts = PreloadOptions { plugin_entry_point: "Main".to_string() };
    assert_eq!(opts.ep_namespace(), "Main");
    assert_eq!(opts.ep_method(), "Main");
}

#[test]
fn extensions_follow_path_rules() {
    assert_eq!(extension("weather.so"), Some("so".to_string()));
    assert_eq!(extension("archive.tar.gz"), Some("gz".to_string()));
    assert_eq!(extension(".so"), None);
    assert_eq!(extension("..so"), Some("so".to_string()));
    assert_eq!(extension("README"), None);
    assert_eq!(extension("trailing."), Some(String::new()));
    assert_eq!(extension(".."), None);
    assert_eq!(extension("..."), Some(String::new()));
    assert!(has_extension("x.dll", "dll"));
    assert!(!has_extension("x.dll", "so"));
}

#[test]
fn folder_with_native_and_dotnet_plugins() {
    let dir = "plugins/weather";
    let files = vec![
        file(dir, "Weather.dll"),
        file(dir, "libweather.so"),
        file(dir, "notes.txt"),
        file(dir, "Weather.runtimeconfig.json"),
    ];
    let found: Vec<String> = qualify_plugins(vec![files]).iter().map(describe).collect();
    assert_eq!(
        found,
        vec![
            "native plugins/weather/libweather.so".to_string(),
            "dotnet plugins/weather/Weather.dll plugins/weather/Weather.runtimeconfig.json".to_string(),
        ]
    );
}

#[test]
fn dll_without_runtime_config_is_skipped() {
    let dir = "plugins/x";
    let files = vec![file(dir, "X.dll"), file(dir, "Other.json"), file(dir, ".so")];
    assert!(qualify_plugins(vec![files]).is_empty());
}

#[test]
fn plugins_of_several_folders_come_folder_by_folder() {
    let a = vec![file("p/a", "a.so")];
    let b = vec![file("p/b", "B.dll"), file("p/b", "B.json"), file("p/b", "b.so")];
    let found: Vec<String> = qualify_plugins(vec![a, b]).iter().map(describe).collect();
    assert_eq!(
        found,
        vec![
            "native p/a/a.so".to_string(),
            "native p/b/b.so".to_string(),
            "dotnet p/b/B.dll p/b/B.json".to_string(),
        ]
    );
}

#[test]
fn every_dll_occurrence_is_dropped_from_the_stem() {
    let dir = "p";
    let files = vec![file(dir, "a.dll.dll"), file(dir, "a.config.json")];
    let found: Vec<String> = qualify_plugins(vec![files]).iter().map(describe).collect();
    assert_eq!(found, vec!["dotnet p/a.dll.dll p/a.config.json".to_string()]);
}

#[test]
fn native_plugin_files_by_platform() {
    let files = vec![file("pl", "a.so"), file("pl", "b.dll"), file("pl", "c.txt")];
    assert_eq!(find_plugins(&files, true), vec!["pl/a.so".to_string()]);
    assert_eq!(find_plugins(&files, false), vec!["pl/b.dll".to_string()]);
    assert_eq!(plugin_extension(true), "so");
    assert_eq!(plugin_extension(false), "dll");
}

fn lua_array(items: &[(usize, &str)]) -> ConfigFieldType {
    let mut m = HashMap::new();
    for (k, v) in items {
        m.insert(*k, v.to_string());
    }
    ConfigFieldType::Array(m)
}

#[test]
fn lua_array_becomes_ordered_list() {
    let field = lua_array(&[(3, "c"), (1, "a"), (2, "b")]);
    assert!(field.is_normalizable());
    match field.normalize() {
        ConfigFieldType::NormalizedArray(v) => assert_eq!(v, vec!["a", "b", "c"]),
        _ => panic!("expected a normalized array"),
    }
}

#[test]
fn array_with_gap_or_zero_key_is_not_normalizable() {
    assert!(!lua_array(&[(1, "a"), (3, "c")]).is_normalizable());
    assert!(!lua_array(&[(0, "a")]).is_normalizable());
    assert!(lua_array(&[]).is_normalizable());
}

#[test]
fn single_values_stay() {
    match ConfigFieldType::Single("x".to_string()).normalize() {
        ConfigFieldType::Single(s) => assert_eq!(s, "x"),
        _ => panic!("expected a single value"),
    }
    match ConfigFieldType::NormalizedArray(vec!["p".to_string()]).normalize() {
        ConfigFieldType::NormalizedArray(v) => assert_eq!(v, vec!["p"]),
        _ => panic!("expected a normalized array"),
    }
}

#[test]
fn plugin_config_is_normalized_key_by_key() {
    let mut cfg = StrMap::new();
    cfg.insert("cities".to_string(), lua_array(&[(2, "Oslo"), (1, "Kyiv")]));
    cfg.insert("unit".to_string(), ConfigFieldType::Single("C".to_string()));
    assert!(config_is_normalizable(&cfg));
    let normalized = normalize_config(&cfg);
    match normalized.get("cities") {
        Some(ConfigFieldType::NormalizedArray(v)) => assert_eq!(v, &vec!["Kyiv", "Oslo"]),
        _ => panic!("cities should be a normalized array"),
    }
    match normalized.get("unit") {
        Some(ConfigFieldType::Single(s)) => assert_eq!(s, "C"),
        _ => panic!("unit should stay"),
    }
    assert!(normalized.get("other").is_none());
    assert_eq!(normalized.entries().len(), 2);

    let mut bad = StrMap::new();
    bad.insert("x".to_string(), lua_array(&[(5, "a")]));
    assert!(!config_is_normalizable(&bad));
}

#[test]
fn string_map_insert_replaces() {
    let mut m: StrMap<ConfigFieldType> = StrMap::new();
    m.insert("k".to_string(), ConfigFieldType::Single("1".to_string()));
    m.insert("k".to_string(), ConfigFieldType::Single("2".to_string()));
    assert_eq!(m.entries().len(), 1);
    match m.get("k") {
        Some(ConfigFieldType::Single(s)) => assert_eq!(s, "2"),
        _ => panic!("k should hold the last value"),
    }
}

#[test]
fn plugin_events_keep_sender_and_data() {
    let e = asya::plugin_system::PluginEvent::new(
        asya::plugin_system::Sender("weather".to_string()),
        asya::plugin_system::Event("rain".to_string()),
    );
    assert_eq!(e.sender().0, "weather");
    assert_eq!(e.data().0, "rain");
    let n = asya::shared_plugin_system::PluginEvent::new("clock".to_string(), "tick".to_string());
    assert_eq!(n.sender(), "clock");
    assert_eq!(n.data(), "tick");
}
