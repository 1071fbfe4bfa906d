use asya::configuration::{
    AiRecognizeMethod, ConfigProperty, LoggingLevel, LoggingProperty, NetProperty, PluginsProperty,
    UsecasesProperty,
};
use asya::disks::{
    get_available_space, get_drive, get_file_system, get_is_removable, get_kind, get_total_space,
    get_used_space, DiskInfo,
};
use asya::music::{
    answer_text, lexicon_key, model_request, music_reply, prompt_path, music_command_kind, fill_placeholder, get_status, pctl_metadata_args, pctl_metadat_prop,
    status_reply, toggle_reply, unrecognized_reply, MediaPlayingStatus, MusicCommand, MusicReply,
    TrackInfo,
};
use asya::open_app::{
    desktop_file_is_parsable, find_desktop_file, parse_desktop_file, plan_spawn, SpawnPlan,
};
use asya::shell::{command_parts, lua_package_path};
use asya::text::{replace_str, split_str, trim_str};
use asya::usecases::{
    open_response, reboot_command, reboot_response, shutdown_command, shutdown_response, AsyaResponse,
    OpenOutcome, UsecaseAction, Usecases,
};

fn track(title: &str, artist: &str, album: Option<&str>) -> TrackInfo {
    TrackInfo {
        title: Some(title.to_string()),
        artist: Some(artist.to_string()),
        album: album.map(|a| a.to_string()),
    }
}

#[test]
fn status_output_names_the_status() {
    let t = || (Some("Song".to_string()), Some("Band".to_string()), None);
    let (a, b, c) = t();
    assert!(matches!(get_status("Playing\n", a, b, c), MediaPlayingStatus::Playing(_)));
    let (a, b, c) = t();
    assert!(matches!(get_status("  Paused ", a, b, c), MediaPlayingStatus::Paused(_)));
    let (a, b, c) = t();
    assert!(matches!(get_status("Stopped", a, b, c), MediaPlayingStatus::Stopped));
    let (a, b, c) = t();
    assert!(matches!(get_status("No players found", a, b, c), MediaPlayingStatus::Unknown));
    let (a, b, c) = t();
    assert!(matches!(get_status("playing", a, b, c), MediaPlayingStatus::Unknown));
    match get_status("Playing", Some("Song".to_string()), None, Some("LP".to_string())) {
        MediaPlayingStatus::Playing(info) => {
            assert_eq!(info, TrackInfo { title: Some("Song".to_string()), artist: None, album: Some("LP".to_string()) })
        }
        other => panic!("unexpected {:?}", other),
    }
}

#[test]
fn blank_metadata_is_absent() {
    assert_eq!(pctl_metadat_prop(" \n\t".to_string()), None);
    assert_eq!(pctl_metadat_prop(String::new()), None);
    assert_eq!(pctl_metadat_prop("Song\n".to_string()), Some("Song\n".to_string()));
    assert_eq!(pctl_metadata_args("title"), vec!["playerctl", "metadata", "--format", "{{title}}"]);
}

#[test]
fn track_descriptions() {
    let t = track("Song", "Band", Some("LP"));
    assert_eq!(t.to_string(), "artist: Bandalbum: LPtitle: Song");
    assert_eq!(t.beautiful_out(), "🎧 <b>Сейчас играет:</b>\n\nBand — Song\nАльбом: LP");
    let t = TrackInfo { title: Some("Song".to_string()), artist: None, album: None };
    assert_eq!(t.to_string(), "title: Song");
    assert_eq!(t.beautiful_out(), "🎧 <b>Сейчас играет:</b>\n\n — Song");
    assert_eq!(MediaPlayingStatus::Paused(t).to_string(), "title: Song");
    assert_eq!(MediaPlayingStatus::Stopped.to_string(), "");
}

#[test]
fn music_commands_and_replies() {
    assert_eq!(music_command_kind("pause"), MusicCommand::Toggle);
    assert_eq!(music_command_kind("resume"), MusicCommand::Toggle);
    assert_eq!(music_command_kind("status"), MusicCommand::Status);
    assert_eq!(music_command_kind("louder"), MusicCommand::Unrecognized);
    assert!(matches!(toggle_reply(&MediaPlayingStatus::Stopped), MusicReply::Lexicon("music_stopped")));
    assert!(matches!(toggle_reply(&MediaPlayingStatus::Unknown), MusicReply::Lexicon("music_stopped")));
    assert!(matches!(
        toggle_reply(&MediaPlayingStatus::Paused(track("a", "b", None))),
        MusicReply::AskAboutToggle { prompt_path: "/telegram/music/resume", fallback_key: "music_resume" }
    ));
    assert!(matches!(
        toggle_reply(&MediaPlayingStatus::Playing(track("a", "b", None))),
        MusicReply::AskAboutToggle { prompt_path: "/telegram/music/pause", fallback_key: "music_pause" }
    ));
    match status_reply(MediaPlayingStatus::Playing(track("Song", "Band", None))) {
        MusicReply::AskAboutStatus { track: t, fallback } => {
            assert_eq!(t, track("Song", "Band", None));
            assert_eq!(fallback, "🎧 <b>Сейчас играет:</b>\n\nBand — Song");
        }
        other => panic!("unexpected {:?}", other),
    }
    assert!(matches!(status_reply(MediaPlayingStatus::Stopped), MusicReply::Lexicon("music_stopped")));
    assert!(matches!(unrecognized_reply(), MusicReply::Lexicon("error")));
    assert_eq!(
        fill_placeholder("Say {command} now, {command}!", "{command}", "stop"),
        "Say stop now, stop!"
    );
}

fn lines(text: &str) -> Vec<String> {
    text.split('\n').map(|s| s.to_string()).collect()
}

#[test]
fn desktop_entries_are_parsed() {
    let entry = lines("[Desktop Entry]\nName=Htop\nExec=htop\nTerminal=true");
    assert!(desktop_file_is_parsable(&entry));
    assert_eq!(parse_desktop_file(entry), Ok((true, "htop".to_string())));
    let entry = lines("[Desktop Entry]\nName=Firefox\nExec=firefox %u");
    assert_eq!(parse_desktop_file(entry), Ok((false, "firefox %u".to_string())));
    let entry = lines("[Desktop Entry]\nName=Broken");
    assert_eq!(parse_desktop_file(entry), Err("App's EXEC parameter not provided".to_string()));
    assert_eq!(parse_desktop_file(vec![]), Err("App not found".to_string()));
    assert!(!desktop_file_is_parsable(&lines("Name=Broken\nExec")));
}

#[test]
fn desktop_entry_without_name_is_refused() {
    let entry = lines("[Desktop Entry]\nExec=htop\nTerminal=true");
    assert!(desktop_file_is_parsable(&entry));
    assert_eq!(parse_desktop_file(entry), Err("App's NAME parameter not provided".to_string()));
    assert!(desktop_file_is_parsable(&lines("Exec")));
    assert_eq!(parse_desktop_file(lines("Exec")), Err("App's NAME parameter not provided".to_string()));
    let neither = lines("[Desktop Entry]\nTerminal=false");
    assert_eq!(parse_desktop_file(neither), Err("App's EXEC parameter not provided".to_string()));
}

#[test]
fn desktop_entry_search_ignores_case() {
    let contents = vec![
        "[Desktop Entry]\nName=Files\nExec=nautilus".to_string(),
        "[Desktop Entry]\nName=Mozilla Firefox\nExec=firefox".to_string(),
    ];
    let found = find_desktop_file(contents.clone(), "FIREFOX".to_string()).unwrap();
    assert_eq!(found, lines("[Desktop Entry]\nName=Mozilla Firefox\nExec=firefox"));
    assert!(find_desktop_file(contents, "gimp".to_string()).is_none());
}

#[test]
fn spawn_plans() {
    match plan_spawn("firefox", false, "", None) {
        SpawnPlan::Direct { script } => assert_eq!(script, "firefox &"),
        other => panic!("unexpected {:?}", other),
    }
    match plan_spawn("htop", true, "", Some("foot".to_string())) {
        SpawnPlan::Terminal { detached, script } => {
            assert_eq!(detached, " -ehtop &");
            assert_eq!(script, "foot -ehtop &");
        }
        other => panic!("unexpected {:?}", other),
    }
    match plan_spawn("htop", true, "", None) {
        SpawnPlan::Terminal { script, .. } => assert_eq!(script, "kitty -ehtop &"),
        other => panic!("unexpected {:?}", other),
    }
    match plan_spawn("htop", true, "wezterm", None) {
        SpawnPlan::FallbackTerminals { scripts } => assert_eq!(
            scripts,
            vec![
                "kitty -ehtop &",
                "alacritty -ehtop &",
                "xfce4-terminal -ehtop &",
                "konsole -ehtop &",
                "gnome-terminal -ehtop &"
            ]
        ),
        other => panic!("unexpected {:?}", other),
    }
}

#[test]
fn usecases_and_their_actions() {
    let all = Usecases::stringify_all();
    assert!(all.ends_with("\n\n"));
    assert_eq!(all, Usecases::stringify_one() + "\n\n");
    assert!(matches!(Usecases::TurnOffMusic.action(false), UsecaseAction::PlayOrResumeMusic));
    assert!(matches!(Usecases::TurnOnMusic.action(false), UsecaseAction::PlayOrResumeMusic));
    assert!(matches!(Usecases::Shutdown.action(false), UsecaseAction::SkipDangerous));
    assert!(matches!(Usecases::Shutdown.action(true), UsecaseAction::Shutdown));
    assert!(matches!(Usecases::Reboot.action(false), UsecaseAction::SkipDangerous));
    assert!(matches!(Usecases::Reboot.action(true), UsecaseAction::Reboot));
    match Usecases::OpenApp("gimp".to_string()).action(false) {
        UsecaseAction::OpenApp(app) => assert_eq!(app, "gimp"),
        other => panic!("unexpected {:?}", other),
    }
}

#[test]
fn responses() {
    assert_eq!(shutdown_command(), vec!["shutdown", "now"]);
    assert_eq!(reboot_command(), vec!["reboot"]);
    assert!(matches!(shutdown_response(true), AsyaResponse::Success { message } if message == "Turning your PC off!"));
    assert!(matches!(shutdown_response(false), AsyaResponse::Failure { message } if message == "Couldn't turn your PC off!"));
    assert!(matches!(reboot_response(true), AsyaResponse::Success { message } if message == "Rebooting your PC!"));
    assert!(matches!(reboot_response(false), AsyaResponse::Failure { message } if message == "Couldn't reboot your PC!"));
    assert!(matches!(open_response("gimp", OpenOutcome::NotFound), AsyaResponse::Failure { message } if message == "No app 'gimp' found!"));
    assert!(matches!(open_response("gimp", OpenOutcome::Opened), AsyaResponse::Success { message } if message == "Opened 'gimp'"));
    assert!(matches!(open_response("gimp", OpenOutcome::Failed("boom".to_string())), AsyaResponse::Failure { message } if message == "boom"));
}

#[test]
fn logging_levels() {
    assert_eq!(LoggingLevel::parse("INFO".to_string()), Some(LoggingLevel::Info));
    assert_eq!(LoggingLevel::parse("Trace".to_string()), Some(LoggingLevel::Trace));
    assert_eq!(LoggingLevel::parse("verbose".to_string()), None);
    assert_eq!(LoggingLevel::from("WARN".to_string()), LoggingLevel::Warn);
    for level in [LoggingLevel::Error, LoggingLevel::Warn, LoggingLevel::Info, LoggingLevel::Debug, LoggingLevel::Trace] {
        assert_eq!(LoggingLevel::parse(level.as_str().to_string()), Some(level));
    }
    assert_eq!(LoggingLevel::Debug.as_str(), "debug");
}

#[test]
fn documented_defaults() {
    let config = ConfigProperty::empty().unwrap_or_default();
    assert_eq!(config.net.ws_port, 3001);
    assert_eq!(config.net.ws_ip, "127.0.0.1");
    assert_eq!(config.net.proxy_addr, "");
    assert_eq!(config.logging.level, LoggingLevel::Info);
    assert_eq!(config.logging.folder, "./logs");
    assert_eq!(config.logging.filescount, 5);
    assert!(config.logging.stdout);
    assert_eq!(config.ai.prompts_path, "./ai-prompts.yaml");
    assert_eq!(config.ai.groq_token, "NOT");
    assert_eq!(config.ai.recognize_method, AiRecognizeMethod::Groq);
    assert!(!config.ai.autolaunch_alta_s);
    assert_eq!(config.plugins.plugins_folder, "plugins");
    assert!(config.plugins.config.entries().is_empty());
    assert_eq!(config.open.terminal, "");
    assert!(!config.usecases.test_dangerous_features);
}

#[test]
fn later_source_wins_when_merging() {
    let mut file = ConfigProperty::empty();
    file.net = Some(NetProperty { ws_port: Some(4000), ws_ip: Some("0.0.0.0".to_string()), proxy_addr: None });
    file.logging = Some(LoggingProperty { level: Some(LoggingLevel::Debug), ..LoggingProperty::empty() });
    let mut env = ConfigProperty::empty();
    env.net = Some(NetProperty { ws_port: Some(5000), ws_ip: None, proxy_addr: None });
    env.usecases = Some(UsecasesProperty { test_dangerous_features: Some(true) });
    env.plugins = Some(PluginsProperty { plugins_folder: Some("/opt/plugins".to_string()), config: None });
    let config = file.merge(env).unwrap_or_default();
    assert_eq!(config.net.ws_port, 5000);
    assert_eq!(config.net.ws_ip, "0.0.0.0");
    assert_eq!(config.logging.level, LoggingLevel::Debug);
    assert!(config.usecases.test_dangerous_features);
    assert_eq!(config.plugins.plugins_folder, "/opt/plugins");
}

fn disk(mount: &str, total: u64, available: u64) -> DiskInfo {
    DiskInfo {
        name: format!("dev{}", mount).into_bytes(),
        mount_point: mount.to_string(),
        total_space: total,
        available_space: available,
        kind: "SSD".to_string(),
        file_system: b"ext4".to_vec(),
        is_removable: false,
    }
}

#[test]
fn disk_facts_by_mount_point() {
    let disks = vec![disk("/", 100, 40), disk("/home", 500, 100), disk("/home", 7, 7)];
    assert_eq!(get_total_space(&disks, "/home"), Some(500));
    assert_eq!(get_available_space(&disks, "/home"), Some(100));
    assert_eq!(get_used_space(&disks, "/"), Some(60));
    assert_eq!(get_drive(&disks, "/"), Some(b"dev/".to_vec()));
    assert_eq!(get_kind(&disks, "/"), Some("SSD".to_string()));
    assert_eq!(get_file_system(&disks, "/"), Some(b"ext4".to_vec()));
    assert_eq!(get_is_removable(&disks, "/"), Some(false));
    assert_eq!(get_total_space(&disks, "/mnt"), None);
    assert_eq!(get_drive(&disks, "/mnt"), None);
}

#[test]
fn shell_helpers() {
    assert_eq!(command_parts(vec![]), Err("Command not provided".to_string()));
    assert_eq!(
        command_parts(vec!["playerctl".to_string(), "status".to_string()]),
        Ok(("playerctl".to_string(), vec!["status".to_string()]))
    );
    assert_eq!(lua_package_path("/home/u/.config/asya", "./?.lua"), "/home/u/.config/asya/?.lua;./?.lua");
}

#[test]
fn text_helpers() {
    assert_eq!(replace_str("a.dll.dll", ".dll", ""), "a");
    assert_eq!(replace_str("aaa", "aa", "b"), "ba");
    assert_eq!(split_str("a=b=c", '='), vec!["a", "b", "c"]);
    assert_eq!(split_str("", '='), vec![""]);
    assert_eq!(trim_str("\u{3000} x y\n"), "x y");
}

#[test]
fn desktop_search_lowercases_unicode_names() {
    let contents = vec!["[Desktop Entry]\nName=Äpfel Viewer\nExec=apfel".to_string()];
    let found = find_desktop_file(contents, "ÄPFEL".to_string()).unwrap();
    assert_eq!(found[1], "Name=Äpfel Viewer");
}

#[test]
fn music_reply_for_each_command() {
    let (toggle, reply) = music_reply("pause", Some(MediaPlayingStatus::Playing(track("a", "b", None))));
    assert!(toggle);
    assert!(matches!(
        reply,
        MusicReply::AskAboutToggle { prompt_path: "/telegram/music/pause", fallback_key: "music_pause" }
    ));
    let (toggle, reply) = music_reply("resume", Some(MediaPlayingStatus::Paused(track("a", "b", None))));
    assert!(toggle);
    assert!(matches!(
        reply,
        MusicReply::AskAboutToggle { prompt_path: "/telegram/music/resume", fallback_key: "music_resume" }
    ));
    let (toggle, reply) = music_reply("resume", Some(MediaPlayingStatus::Unknown));
    assert!(toggle);
    assert!(matches!(reply, MusicReply::Lexicon("music_stopped")));
    let (toggle, reply) = music_reply("status", Some(MediaPlayingStatus::Playing(track("Song", "Band", None))));
    assert!(!toggle);
    match reply {
        MusicReply::AskAboutStatus { track: t, fallback } => {
            assert_eq!(t, track("Song", "Band", None));
            assert_eq!(fallback, "🎧 <b>Сейчас играет:</b>\n\nBand — Song");
        }
        _ => panic!("status reply expected"),
    }
    let (toggle, reply) = music_reply("status", Some(MediaPlayingStatus::Stopped));
    assert!(!toggle);
    assert!(matches!(reply, MusicReply::Lexicon("music_stopped")));
    let (toggle, reply) = music_reply("louder", None);
    assert!(!toggle);
    assert!(matches!(reply, MusicReply::Lexicon("error")));
}

#[test]
fn music_answer_text() {
    let toggle = MusicReply::AskAboutToggle { prompt_path: "/telegram/music/pause", fallback_key: "music_pause" };
    assert_eq!(prompt_path(&toggle), Some("/telegram/music/pause"));
    assert_eq!(lexicon_key(&toggle), Some("music_pause"));
    assert_eq!(model_request(&toggle, "Do {command}", "pause it", ""), Some("Do pause it".to_string()));
    assert_eq!(answer_text(toggle, None, "Paused.".to_string()), "Paused.");
    let toggle = MusicReply::AskAboutToggle { prompt_path: "/telegram/music/pause", fallback_key: "music_pause" };
    assert_eq!(answer_text(toggle, Some("Done!".to_string()), "Paused.".to_string()), "Done!");
    let status = MusicReply::AskAboutStatus { track: track("a", "b", None), fallback: "b — a".to_string() };
    assert_eq!(prompt_path(&status), Some("/telegram/music/status"));
    assert_eq!(lexicon_key(&status), None);
    assert_eq!(
        model_request(&status, "{status} / {message}", "what?", "T"),
        Some("T / what?".to_string())
    );
    assert_eq!(answer_text(status, None, String::new()), "b — a");
    let lex = MusicReply::Lexicon("error");
    assert_eq!(prompt_path(&lex), None);
    assert_eq!(model_request(&lex, "p", "m", "t"), None);
    assert_eq!(lexicon_key(&lex), Some("error"));
    assert_eq!(answer_text(lex, Some("ignored".to_string()), "Unknown command".to_string()), "Unknown command");
}

#[test]
fn replace_with_empty_pattern() {
    assert_eq!(replace_str("abc", "", "-"), "-a-b-c-");
    assert_eq!(replace_str("", "", "-"), "-");
    assert_eq!(fill_placeholder("ab", "", "|"), "|a|b|");
}
