//! The assistant's configuration: its groups, their documented defaults,
//! and how partial configurations from several sources combine.
use vstd::prelude::*;
use vstd::string::*;

use crate::plugin_config::ConfigFieldType;
use crate::str_map::StrMap;
use crate::text::{ascii_lower_char, lowercase, to_lowercase};

verus! {

/// Represents the configuration of the server.
pub struct Config {
    /// Net config group.
    pub net: Net,
    /// Logging config group.
    pub logging: Logging,
    /// Ai config group.
    pub ai: Ai,
    /// Plugins config group.
    pub plugins: Plugins,
    /// Applications to open things with.
    pub open: OpenApps,
    /// Usecases specific options.
    pub usecases: Usecases,
}

/// Usecases specific options.
pub struct Usecases {
    /// If enable, Asya can does some funny things.
    pub test_dangerous_features: bool,
}

/// Plugins config group.
pub struct Plugins {
    /// Folder which contains plugins.
    pub plugins_folder: String,
    /// Options of each plugin, by plugin name.
    pub config: StrMap<StrMap<ConfigFieldType>>,
}

/// Method used for ai recognizing user input.
#[derive(Debug, Clone, Copy, PartialEq, Eq, Structural)]
pub enum AiRecognizeMethod {
    /// Uses `console.groq.com`.
    Groq,
    /// Uses own model made by alta_s.
    AltaS,
    /// Ai will not be used: only commands.
    Disabled,
}

/// Ai config group.
pub struct Ai {
    /// Path to prompts.
    pub prompts_path: String,
    /// Groq API token.
    pub groq_token: String,
    /// Method used for ai recognizing user input.
    pub recognize_method: AiRecognizeMethod,
    /// The address where the alta_s model is hosted.
    pub alta_s_addr: String,
    /// Whether the alta_s model is launched automatically.
    pub autolaunch_alta_s: bool,
    /// Path with alta_s model for automatically launch.
    pub alta_s_path: String,
}

/// Net config group.
pub struct Net {
    pub ws_port: u16,
    pub ws_ip: String,
    pub proxy_addr: String,
}

/// Logging config group.
pub struct Logging {
    pub level: LoggingLevel,
    pub folder: String,
    pub filescount: usize,
    pub stdout: bool,
}

/// How much is logged.
#[derive(Debug, Clone, Copy, PartialEq, Eq, Structural)]
pub enum LoggingLevel {
    Error,
    Warn,
    Info,
    Debug,
    Trace,
}

/// Applications to open things with.
pub struct OpenApps {
    pub terminal: String,
    pub browser: String,
}

/// The name of each level.
pub open spec fn level_name(l: LoggingLevel) -> Seq<char> {
    match l {
        LoggingLevel::Error => "error"@,
        LoggingLevel::Warn => "warn"@,
        LoggingLevel::Info => "info"@,
        LoggingLevel::Debug => "debug"@,
        LoggingLevel::Trace => "trace"@,
    }
}

/// The level a lower-case name names, if any.
pub open spec fn level_named(name: Seq<char>) -> Option<LoggingLevel> {
    if name == "error"@ {
        Some(LoggingLevel::Error)
    } else if name == "warn"@ {
        Some(LoggingLevel::Warn)
    } else if name == "info"@ {
        Some(LoggingLevel::Info)
    } else if name == "debug"@ {
        Some(LoggingLevel::Debug)
    } else if name == "trace"@ {
        Some(LoggingLevel::Trace)
    } else {
        None
    }
}

fn level_named_exec(name: &str) -> (r: Option<LoggingLevel>)
    ensures
        r == level_named(name@),
{
    if crate::text::eq_str(name, "error") {
        Some(LoggingLevel::Error)
    } else if crate::text::eq_str(name, "warn") {
        Some(LoggingLevel::Warn)
    } else if crate::text::eq_str(name, "info") {
        Some(LoggingLevel::Info)
    } else if crate::text::eq_str(name, "debug") {
        Some(LoggingLevel::Debug)
    } else if crate::text::eq_str(name, "trace") {
        Some(LoggingLevel::Trace)
    } else {
        None
    }
}

impl LoggingLevel {
    /// The level's name.
    pub fn as_str(&self) -> (r: &'static str)
        ensures
            r@ == level_name(*self),
    {
        match self {
            LoggingLevel::Error => "error",
            LoggingLevel::Warn => "warn",
            LoggingLevel::Info => "info",
            LoggingLevel::Debug => "debug",
            LoggingLevel::Trace => "trace",
        }
    }

    /// The level named by `value`, case ignored. The name must be one of
    /// the levels'.
    pub fn from(value: String) -> (r: LoggingLevel)
        requires
            level_named(lowercase(value@)) is Some,
        ensures
            level_named(lowercase(value@)) == Some(r),
    {
        let lower = to_lowercase(value.as_str());
        match level_named_exec(lower.as_str()) {
            Some(l) => l,
            None => {
                assert(false);
                LoggingLevel::Info
            },
        }
    }

    /// The level named by `value`, case ignored; none when it names no
    /// level.
    pub fn parse(value: String) -> (r: Option<LoggingLevel>)
        ensures
            r == level_named(lowercase(value@)),
    {
        let lower = to_lowercase(value.as_str());
        if level_named_exec(lower.as_str()).is_some() {
            Some(LoggingLevel::from(value))
        } else {
            None
        }
    }
}

/// Each level's name is lower-case ASCII and names that level again.
pub proof fn lemma_level_name_roundtrip(l: LoggingLevel)
    ensures
        level_named(level_name(l)) == Some(l),
        crate::text::all_ascii(level_name(l)),
        level_name(l).map_values(|c: char| ascii_lower_char(c)) == level_name(l),
{
    reveal_strlit("error");
    reveal_strlit("warn");
    reveal_strlit("info");
    reveal_strlit("debug");
    reveal_strlit("trace");
    assert("warn"@ != "error"@) by {
        assert("warn"@.len() != "error"@.len());
    }
    assert("info"@ != "error"@ && "info"@ != "warn"@) by {
        assert("info"@[0] != "error"@[0]);
        assert("info"@[0] != "warn"@[0]);
    }
    assert("debug"@ != "error"@ && "debug"@ != "warn"@ && "debug"@ != "info"@) by {
        assert("debug"@[0] != "error"@[0]);
        assert("debug"@.len() != "warn"@.len());
        assert("debug"@.len() != "info"@.len());
    }
    assert("trace"@ != "error"@ && "trace"@ != "warn"@ && "trace"@ != "info"@ && "trace"@ != "debug"@) by {
        assert("trace"@[0] != "error"@[0]);
        assert("trace"@.len() != "warn"@.len());
        assert("trace"@.len() != "info"@.len());
        assert("trace"@[0] != "debug"@[0]);
    }
    assert(level_name(l).map_values(|c: char| ascii_lower_char(c)) =~= level_name(l));
}

/// The value set by the later source, else by the earlier one.
pub open spec fn pick<T>(earlier: Option<T>, later: Option<T>) -> Option<T> {
    match later {
        Some(x) => Some(x),
        None => earlier,
    }
}

fn pick_exec<T>(earlier: Option<T>, later: Option<T>) -> (r: Option<T>)
    ensures
        r == pick(earlier, later),
{
    match later {
        Some(x) => Some(x),
        None => earlier,
    }
}

/// A partially given Net group.
pub struct NetProperty {
    pub ws_port: Option<u16>,
    pub ws_ip: Option<String>,
    pub proxy_addr: Option<String>,
}

/// A partially given Logging group.
pub struct LoggingProperty {
    pub level: Option<LoggingLevel>,
    pub folder: Option<String>,
    pub filescount: Option<usize>,
    pub stdout: Option<bool>,
}

/// A partially given Ai group.
pub struct AiProperty {
    pub prompts_path: Option<String>,
    pub groq_token: Option<String>,
    pub recognize_method: Option<AiRecognizeMethod>,
    pub alta_s_addr: Option<String>,
    pub autolaunch_alta_s: Option<bool>,
    pub alta_s_path: Option<String>,
}

/// A partially given Plugins group.
pub struct PluginsProperty {
    pub plugins_folder: Option<String>,
    pub config: Option<StrMap<StrMap<ConfigFieldType>>>,
}

/// A partially given OpenApps group.
pub struct OpenAppsProperty {
    pub terminal: Option<String>,
    pub browser: Option<String>,
}

/// A partially given Usecases group.
pub struct UsecasesProperty {
    pub test_dangerous_features: Option<bool>,
}

/// A partially given configuration, as one source (the Lua file, the
/// environment) gives it.
pub struct ConfigProperty {
    pub net: Option<NetProperty>,
    pub logging: Option<LoggingProperty>,
    pub ai: Option<AiProperty>,
    pub plugins: Option<PluginsProperty>,
    pub open: Option<OpenAppsProperty>,
    pub usecases: Option<UsecasesProperty>,
}

// ---------------------------------------------------------------------
// Merging: what the later source sets wins, group by group.
// ---------------------------------------------------------------------

pub open spec fn merge_net(a: NetProperty, b: NetProperty) -> NetProperty {
    NetProperty {
        ws_port: pick(a.ws_port, b.ws_port),
        ws_ip: pick(a.ws_ip, b.ws_ip),
        proxy_addr: pick(a.proxy_addr, b.proxy_addr),
    }
}

pub open spec fn merge_logging(a: LoggingProperty, b: LoggingProperty) -> LoggingProperty {
    LoggingProperty {
        level: pick(a.level, b.level),
        folder: pick(a.folder, b.folder),
        filescount: pick(a.filescount, b.filescount),
        stdout: pick(a.stdout, b.stdout),
    }
}

pub open spec fn merge_ai(a: AiProperty, b: AiProperty) -> AiProperty {
    AiProperty {
        prompts_path: pick(a.prompts_path, b.prompts_path),
        groq_token: pick(a.groq_token, b.groq_token),
        recognize_method: pick(a.recognize_method, b.recognize_method),
        alta_s_addr: pick(a.alta_s_addr, b.alta_s_addr),
        autolaunch_alta_s: pick(a.autolaunch_alta_s, b.autolaunch_alta_s),
        alta_s_path: pick(a.alta_s_path, b.alta_s_path),
    }
}

pub open spec fn merge_plugins(a: PluginsProperty, b: PluginsProperty) -> PluginsProperty {
    PluginsProperty {
        plugins_folder: pick(a.plugins_folder, b.plugins_folder),
        config: pick(a.config, b.config),
    }
}

pub open spec fn merge_open(a: OpenAppsProperty, b: OpenAppsProperty) -> OpenAppsProperty {
    OpenAppsProperty { terminal: pick(a.terminal, b.terminal), browser: pick(a.browser, b.browser) }
}

pub open spec fn merge_usecases(a: UsecasesProperty, b: UsecasesProperty) -> UsecasesProperty {
    UsecasesProperty {
        test_dangerous_features: pick(a.test_dangerous_features, b.test_dangerous_features),
    }
}

/// Two optional groups merged: a group given by one source only is taken as
/// it is.
pub open spec fn merge_group<T>(a: Option<T>, b: Option<T>, m: spec_fn(T, T) -> T) -> Option<T> {
    match (a, b) {
        (Some(x), Some(y)) => Some(m(x, y)),
        (Some(x), None) => Some(x),
        (None, y) => y,
    }
}

pub open spec fn merge_config(a: ConfigProperty, b: ConfigProperty) -> ConfigProperty {
    ConfigProperty {
        net: merge_group(a.net, b.net, |x: NetProperty, y: NetProperty| merge_net(x, y)),
        logging: merge_group(
            a.logging,
            b.logging,
            |x: LoggingProperty, y: LoggingProperty| merge_logging(x, y),
        ),
        ai: merge_group(a.ai, b.ai, |x: AiProperty, y: AiProperty| merge_ai(x, y)),
        plugins: merge_group(
            a.plugins,
            b.plugins,
            |x: PluginsProperty, y: PluginsProperty| merge_plugins(x, y),
        ),
        open: merge_group(a.open, b.open, |x: OpenAppsProperty, y: OpenAppsProperty| merge_open(x, y)),
        usecases: merge_group(
            a.usecases,
            b.usecases,
            |x: UsecasesProperty, y: UsecasesProperty| merge_usecases(x, y),
        ),
    }
}

// ---------------------------------------------------------------------
// Completion: each setting that no source gave takes its default.
// ---------------------------------------------------------------------

/// The group given, or a group that gives nothing.
pub open spec fn given_or<T>(o: Option<T>, nothing: T) -> T {
    match o {
        Some(x) => x,
        None => nothing,
    }
}

/// `r` is `p` with port 3001, address 127.0.0.1 and no proxy where `p`
/// gives none.
pub open spec fn net_completes(r: Net, p: NetProperty) -> bool {
    &&& r.ws_port == (match p.ws_port {
        Some(v) => v,
        None => 3001,
    })
    &&& r.ws_ip@ == (match p.ws_ip {
        Some(s) => s@,
        None => "127.0.0.1"@,
    })
    &&& r.proxy_addr@ == (match p.proxy_addr {
        Some(s) => s@,
        None => Seq::empty(),
    })
}

/// `r` is `p` with level info, folder ./logs, 5 files and logging to stdout
/// where `p` gives none.
pub open spec fn logging_completes(r: Logging, p: LoggingProperty) -> bool {
    &&& r.level == (match p.level {
        Some(l) => l,
        None => LoggingLevel::Info,
    })
    &&& r.folder@ == (match p.folder {
        Some(s) => s@,
        None => "./logs"@,
    })
    &&& r.filescount == (match p.filescount {
        Some(n) => n,
        None => 5,
    })
    &&& r.stdout == (match p.stdout {
        Some(b) => b,
        None => true,
    })
}

/// `r` is `p` with prompts in ./ai-prompts.yaml, token `NOT`, recognition by
/// Groq, no alta_s address, no autolaunch and no alta_s path where `p` gives
/// none.
pub open spec fn ai_completes(r: Ai, p: AiProperty) -> bool {
    &&& r.prompts_path@ == (match p.prompts_path {
        Some(s) => s@,
        None => "./ai-prompts.yaml"@,
    })
    &&& r.groq_token@ == (match p.groq_token {
        Some(s) => s@,
        None => "NOT"@,
    })
    &&& r.recognize_method == (match p.recognize_method {
        Some(m) => m,
        None => AiRecognizeMethod::Groq,
    })
    &&& r.alta_s_addr@ == (match p.alta_s_addr {
        Some(s) => s@,
        None => Seq::empty(),
    })
    &&& r.autolaunch_alta_s == (match p.autolaunch_alta_s {
        Some(b) => b,
        None => false,
    })
    &&& r.alta_s_path@ == (match p.alta_s_path {
        Some(s) => s@,
        None => Seq::empty(),
    })
}

/// `r` is `p` with the folder `plugins` and no plugin options where `p`
/// gives none.
pub open spec fn plugins_completes(r: Plugins, p: PluginsProperty) -> bool {
    &&& r.plugins_folder@ == (match p.plugins_folder {
        Some(s) => s@,
        None => "plugins"@,
    })
    &&& match p.config {
        Some(c) => r.config == c,
        None => r.config@ == Map::<Seq<char>, Map<Seq<char>, crate::plugin_config::FieldView>>::empty(),
    }
}

/// `r` is `p` with no terminal and no browser where `p` gives none.
pub open spec fn open_completes(r: OpenApps, p: OpenAppsProperty) -> bool {
    &&& r.terminal@ == (match p.terminal {
        Some(s) => s@,
        None => Seq::empty(),
    })
    &&& r.browser@ == (match p.browser {
        Some(s) => s@,
        None => Seq::empty(),
    })
}

/// `r` is `p` with dangerous features off where `p` gives none.
pub open spec fn usecases_completes(r: Usecases, p: UsecasesProperty) -> bool {
    r.test_dangerous_features == (match p.test_dangerous_features {
        Some(b) => b,
        None => false,
    })
}

impl NetProperty {
    /// Nothing given.
    pub fn empty() -> (r: Self)
        ensures
            r == (NetProperty { ws_port: None, ws_ip: None, proxy_addr: None }),
    {
        NetProperty { ws_port: None, ws_ip: None, proxy_addr: None }
    }

    /// `self` overridden by what `other` gives.
    pub fn merge(self, other: Self) -> (r: Self)
        ensures
            r == merge_net(self, other),
    {
        NetProperty {
            ws_port: pick_exec(self.ws_port, other.ws_port),
            ws_ip: pick_exec(self.ws_ip, other.ws_ip),
            proxy_addr: pick_exec(self.proxy_addr, other.proxy_addr),
        }
    }

    /// The group, with the documented default for what is not given:
    /// port 3001, address 127.0.0.1, no proxy.
    pub fn unwrap_or_default(self) -> (r: Net)
        ensures
            net_completes(r, self),

    {
        Net {
            ws_port: match self.ws_port {
                Some(p) => p,
                None => 3001,
            },
            ws_ip: match self.ws_ip {
                Some(s) => s,
                None => "127.0.0.1".to_owned(),
            },
            proxy_addr: match self.proxy_addr {
                Some(s) => s,
                None => String::new(),
            },
        }
    }
}

impl LoggingProperty {
    /// Nothing given.
    pub fn empty() -> (r: Self)
        ensures
            r == (LoggingProperty { level: None, folder: None, filescount: None, stdout: None }),
    {
        LoggingProperty { level: None, folder: None, filescount: None, stdout: None }
    }

    /// `self` overridden by what `other` gives.
    pub fn merge(self, other: Self) -> (r: Self)
        ensures
            r == merge_logging(self, other),
    {
        LoggingProperty {
            level: pick_exec(self.level, other.level),
            folder: pick_exec(self.folder, other.folder),
            filescount: pick_exec(self.filescount, other.filescount),
            stdout: pick_exec(self.stdout, other.stdout),
        }
    }

    /// The group, with the documented default for what is not given: level
    /// info, folder ./logs, 5 files, logging to stdout.
    pub fn unwrap_or_default(self) -> (r: Logging)
        ensures
            logging_completes(r, self),

    {
        Logging {
            level: match self.level {
                Some(l) => l,
                None => LoggingLevel::Info,
            },
            folder: match self.folder {
                Some(s) => s,
                None => "./logs".to_owned(),
            },
            filescount: match self.filescount {
                Some(n) => n,
                None => 5,
            },
            stdout: match self.stdout {
                Some(b) => b,
                None => true,
            },
        }
    }
}

impl AiProperty {
    /// Nothing given.
    pub fn empty() -> (r: Self)
        ensures
            r == (AiProperty {
                prompts_path: None,
                groq_token: None,
                recognize_method: None,
                alta_s_addr: None,
                autolaunch_alta_s: None,
                alta_s_path: None,
            }),
    {
        AiProperty {
            prompts_path: None,
            groq_token: None,
            recognize_method: None,
            alta_s_addr: None,
            autolaunch_alta_s: None,
            alta_s_path: None,
        }
    }

    /// `self` overridden by what `other` gives.
    pub fn merge(self, other: Self) -> (r: Self)
        ensures
            r == merge_ai(self, other),
    {
        AiProperty {
            prompts_path: pick_exec(self.prompts_path, other.prompts_path),
            groq_token: pick_exec(self.groq_token, other.groq_token),
            recognize_method: pick_exec(self.recognize_method, other.recognize_method),
            alta_s_addr: pick_exec(self.alta_s_addr, other.alta_s_addr),
            autolaunch_alta_s: pick_exec(self.autolaunch_alta_s, other.autolaunch_alta_s),
            alta_s_path: pick_exec(self.alta_s_path, other.alta_s_path),
        }
    }

    /// The group, with the documented default for what is not given:
    /// prompts in ./ai-prompts.yaml, token `NOT`, recognition by Groq, no
    /// alta_s address, no autolaunch, no alta_s path.
    pub fn unwrap_or_default(self) -> (r: Ai)
        ensures
            ai_completes(r, self),

    {
        Ai {
            prompts_path: match self.prompts_path {
                Some(s) => s,
                None => "./ai-prompts.yaml".to_owned(),
            },
            groq_token: match self.groq_token {
                Some(s) => s,
                None => "NOT".to_owned(),
            },
            recognize_method: match self.recognize_method {
                Some(m) => m,
                None => AiRecognizeMethod::Groq,
            },
            alta_s_addr: match self.alta_s_addr {
                Some(s) => s,
                None => String::new(),
            },
            autolaunch_alta_s: match self.autolaunch_alta_s {
                Some(b) => b,
                None => false,
            },
            alta_s_path: match self.alta_s_path {
                Some(s) => s,
                None => String::new(),
            },
        }
    }
}

impl PluginsProperty {
    /// Nothing given.
    pub fn empty() -> (r: Self)
        ensures
            r == (PluginsProperty { plugins_folder: None, config: None }),
    {
        PluginsProperty { plugins_folder: None, config: None }
    }

    /// `self` overridden by what `other` gives.
    pub fn merge(self, other: Self) -> (r: Self)
        ensures
            r == merge_plugins(self, other),
    {
        PluginsProperty {
            plugins_folder: pick_exec(self.plugins_folder, other.plugins_folder),
            config: pick_exec(self.config, other.config),
        }
    }

    /// The group, with the documented default for what is not given:
    /// plugins in the folder `plugins`, no plugin options.
    pub fn unwrap_or_default(self) -> (r: Plugins)
        ensures
            plugins_completes(r, self),

    {
        Plugins {
            plugins_folder: match self.plugins_folder {
                Some(s) => s,
                None => "plugins".to_owned(),
            },
            config: match self.config {
                Some(c) => c,
                None => StrMap::new(),
            },
        }
    }
}

impl OpenAppsProperty {
    /// Nothing given.
    pub fn empty() -> (r: Self)
        ensures
            r == (OpenAppsProperty { terminal: None, browser: None }),
    {
        OpenAppsProperty { terminal: None, browser: None }
    }

    /// `self` overridden by what `other` gives.
    pub fn merge(self, other: Self) -> (r: Self)
        ensures
            r == merge_open(self, other),
    {
        OpenAppsProperty {
            terminal: pick_exec(self.terminal, other.terminal),
            browser: pick_exec(self.browser, other.browser),
        }
    }

    /// The group, with the documented default for what is not given: no
    /// terminal, no browser.
    pub fn unwrap_or_default(self) -> (r: OpenApps)
        ensures
            open_completes(r, self),

    {
        OpenApps {
            terminal: match self.terminal {
                Some(s) => s,
                None => String::new(),
            },
            browser: match self.browser {
                Some(s) => s,
                None => String::new(),
            },
        }
    }
}

impl UsecasesProperty {
    /// Nothing given.
    pub fn empty() -> (r: Self)
        ensures
            r == (UsecasesProperty { test_dangerous_features: None }),
    {
        UsecasesProperty { test_dangerous_features: None }
    }

    /// `self` overridden by what `other` gives.
    pub fn merge(self, other: Self) -> (r: Self)
        ensures
            r == merge_usecases(self, other),
    {
        UsecasesProperty {
            test_dangerous_features: pick_exec(self.test_dangerous_features, other.test_dangerous_features),
        }
    }

    /// The group, with the documented default for what is not given:
    /// dangerous features off.
    pub fn unwrap_or_default(self) -> (r: Usecases)
        ensures
            usecases_completes(r, self),

    {
        Usecases {
            test_dangerous_features: match self.test_dangerous_features {
                Some(b) => b,
                None => false,
            },
        }
    }
}

impl ConfigProperty {
    /// Nothing given.
    pub fn empty() -> (r: Self)
        ensures
            r == (ConfigProperty { net: None, logging: None, ai: None, plugins: None, open: None, usecases: None }),
    {
        ConfigProperty { net: None, logging: None, ai: None, plugins: None, open: None, usecases: None }
    }

    /// `self` overridden by what `other` gives, group by group.
    pub fn merge(self, other: Self) -> (r: Self)
        ensures
            r == merge_config(self, other),
    {
        let net = match (self.net, other.net) {
            (Some(x), Some(y)) => Some(x.merge(y)),
            (Some(x), None) => Some(x),
            (None, y) => y,
        };
        let logging = match (self.logging, other.logging) {
            (Some(x), Some(y)) => Some(x.merge(y)),
            (Some(x), None) => Some(x),
            (None, y) => y,
        };
        let ai = match (self.ai, other.ai) {
            (Some(x), Some(y)) => Some(x.merge(y)),
            (Some(x), None) => Some(x),
            (None, y) => y,
        };
        let plugins = match (self.plugins, other.plugins) {
            (Some(x), Some(y)) => Some(x.merge(y)),
            (Some(x), None) => Some(x),
            (None, y) => y,
        };
        let open = match (self.open, other.open) {
            (Some(x), Some(y)) => Some(x.merge(y)),
            (Some(x), None) => Some(x),
            (None, y) => y,
        };
        let usecases = match (self.usecases, other.usecases) {
            (Some(x), Some(y)) => Some(x.merge(y)),
            (Some(x), None) => Some(x),
            (None, y) => y,
        };
        ConfigProperty { net, logging, ai, plugins, open, usecases }
    }

    /// The configuration, each group completed with its documented defaults.
    pub fn unwrap_or_default(self) -> (r: Config)
        ensures
            net_completes(r.net, given_or(self.net, (NetProperty { ws_port: None, ws_ip: None, proxy_addr: None }))),
            logging_completes(
                r.logging,
                given_or(self.logging, (LoggingProperty { level: None, folder: None, filescount: None, stdout: None })),
            ),
            ai_completes(
                r.ai,
                given_or(
                    self.ai,
                    (AiProperty {
                        prompts_path: None,
                        groq_token: None,
                        recognize_method: None,
                        alta_s_addr: None,
                        autolaunch_alta_s: None,
                        alta_s_path: None,
                    }),
                ),
            ),
            plugins_completes(r.plugins, given_or(self.plugins, (PluginsProperty { plugins_folder: None, config: None }))),
            open_completes(r.open, given_or(self.open, (OpenAppsProperty { terminal: None, browser: None }))),
            usecases_completes(r.usecases, given_or(self.usecases, (UsecasesProperty { test_dangerous_features: None }))),

    {
        Config {
            net: match self.net {
                Some(n) => n,
                None => NetProperty::empty(),
            }.unwrap_or_default(),
            logging: match self.logging {
                Some(l) => l,
                None => LoggingProperty::empty(),
            }.unwrap_or_default(),
            ai: match self.ai {
                Some(a) => a,
                None => AiProperty::empty(),
            }.unwrap_or_default(),
            plugins: match self.plugins {
                Some(p) => p,
                None => PluginsProperty::empty(),
            }.unwrap_or_default(),
            open: match self.open {
                Some(o) => o,
                None => OpenAppsProperty::empty(),
            }.unwrap_or_default(),
            usecases: match self.usecases {
                Some(u) => u,
                None => UsecasesProperty::empty(),
            }.unwrap_or_default(),
        }
    }
}

/// The later source wins in the net group: each setting the later source
/// gives is the merged one, and each setting only the earlier gives is kept.
pub proof fn lemma_later_wins_net(a: NetProperty, b: NetProperty)
    ensures
        b.ws_port is Some ==> merge_net(a, b).ws_port == b.ws_port,
        b.ws_port is None ==> merge_net(a, b).ws_port == a.ws_port,
        b.ws_ip is Some ==> merge_net(a, b).ws_ip == b.ws_ip,
        b.ws_ip is None ==> merge_net(a, b).ws_ip == a.ws_ip,
        b.proxy_addr is Some ==> merge_net(a, b).proxy_addr == b.proxy_addr,
        b.proxy_addr is None ==> merge_net(a, b).proxy_addr == a.proxy_addr,
{
}

/// The later source wins in the logging group: each setting the later source
/// gives is the merged one, and each setting only the earlier gives is kept.
pub proof fn lemma_later_wins_logging(a: LoggingProperty, b: LoggingProperty)
    ensures
        b.level is Some ==> merge_logging(a, b).level == b.level,
        b.level is None ==> merge_logging(a, b).level == a.level,
        b.folder is Some ==> merge_logging(a, b).folder == b.folder,
        b.folder is None ==> merge_logging(a, b).folder == a.folder,
        b.filescount is Some ==> merge_logging(a, b).filescount == b.filescount,
        b.filescount is None ==> merge_logging(a, b).filescount == a.filescount,
        b.stdout is Some ==> merge_logging(a, b).stdout == b.stdout,
        b.stdout is None ==> merge_logging(a, b).stdout == a.stdout,
{
}

/// The later source wins in the ai group: each setting the later source
/// gives is the merged one, and each setting only the earlier gives is kept.
pub proof fn lemma_later_wins_ai(a: AiProperty, b: AiProperty)
    ensures
        b.prompts_path is Some ==> merge_ai(a, b).prompts_path == b.prompts_path,
        b.prompts_path is None ==> merge_ai(a, b).prompts_path == a.prompts_path,
        b.groq_token is Some ==> merge_ai(a, b).groq_token == b.groq_token,
        b.groq_token is None ==> merge_ai(a, b).groq_token == a.groq_token,
        b.recognize_method is Some ==> merge_ai(a, b).recognize_method == b.recognize_method,
        b.recognize_method is None ==> merge_ai(a, b).recognize_method == a.recognize_method,
        b.alta_s_addr is Some ==> merge_ai(a, b).alta_s_addr == b.alta_s_addr,
        b.alta_s_addr is None ==> merge_ai(a, b).alta_s_addr == a.alta_s_addr,
        b.autolaunch_alta_s is Some ==> merge_ai(a, b).autolaunch_alta_s == b.autolaunch_alta_s,
        b.autolaunch_alta_s is None ==> merge_ai(a, b).autolaunch_alta_s == a.autolaunch_alta_s,
        b.alta_s_path is Some ==> merge_ai(a, b).alta_s_path == b.alta_s_path,
        b.alta_s_path is None ==> merge_ai(a, b).alta_s_path == a.alta_s_path,
{
}

/// The later source wins in the plugins group: each setting the later source
/// gives is the merged one, and each setting only the earlier gives is kept.
pub proof fn lemma_later_wins_plugins(a: PluginsProperty, b: PluginsProperty)
    ensures
        b.plugins_folder is Some ==> merge_plugins(a, b).plugins_folder == b.plugins_folder,
        b.plugins_folder is None ==> merge_plugins(a, b).plugins_folder == a.plugins_folder,
        b.config is Some ==> merge_plugins(a, b).config == b.config,
        b.config is None ==> merge_plugins(a, b).config == a.config,
{
}

/// The later source wins in the open group: each setting the later source
/// gives is the merged one, and each setting only the earlier gives is kept.
pub proof fn lemma_later_wins_open(a: OpenAppsProperty, b: OpenAppsProperty)
    ensures
        b.terminal is Some ==> merge_open(a, b).terminal == b.terminal,
        b.terminal is None ==> merge_open(a, b).terminal == a.terminal,
        b.browser is Some ==> merge_open(a, b).browser == b.browser,
        b.browser is None ==> merge_open(a, b).browser == a.browser,
{
}

/// The later source wins in the usecases group: each setting the later source
/// gives is the merged one, and each setting only the earlier gives is kept.
pub proof fn lemma_later_wins_usecases(a: UsecasesProperty, b: UsecasesProperty)
    ensures
        b.test_dangerous_features is Some ==> merge_usecases(a, b).test_dangerous_features == b.test_dangerous_features,
        b.test_dangerous_features is None ==> merge_usecases(a, b).test_dangerous_features == a.test_dangerous_features,
{
}

/// Merging two sources keeps a group that only one of them gives as that
/// source gives it, and merges a group that both give setting by setting.
pub proof fn lemma_merge_config_groups(a: ConfigProperty, b: ConfigProperty)
    ensures
        b.net is None ==> merge_config(a, b).net == a.net,
        a.net is None ==> merge_config(a, b).net == b.net,
        a.net is Some && b.net is Some ==> merge_config(a, b).net == Some(merge_net(a.net->0, b.net->0)),
        b.logging is None ==> merge_config(a, b).logging == a.logging,
        a.logging is None ==> merge_config(a, b).logging == b.logging,
        a.logging is Some && b.logging is Some ==> merge_config(a, b).logging == Some(merge_logging(a.logging->0, b.logging->0)),
        b.ai is None ==> merge_config(a, b).ai == a.ai,
        a.ai is None ==> merge_config(a, b).ai == b.ai,
        a.ai is Some && b.ai is Some ==> merge_config(a, b).ai == Some(merge_ai(a.ai->0, b.ai->0)),
        b.plugins is None ==> merge_config(a, b).plugins == a.plugins,
        a.plugins is None ==> merge_config(a, b).plugins == b.plugins,
        a.plugins is Some && b.plugins is Some ==> merge_config(a, b).plugins == Some(merge_plugins(a.plugins->0, b.plugins->0)),
        b.open is None ==> merge_config(a, b).open == a.open,
        a.open is None ==> merge_config(a, b).open == b.open,
        a.open is Some && b.open is Some ==> merge_config(a, b).open == Some(merge_open(a.open->0, b.open->0)),
        b.usecases is None ==> merge_config(a, b).usecases == a.usecases,
        a.usecases is None ==> merge_config(a, b).usecases == b.usecases,
        a.usecases is Some && b.usecases is Some ==> merge_config(a, b).usecases == Some(merge_usecases(a.usecases->0, b.usecases->0)),
{
    match (a.net, b.net) {
        (Some(x), Some(y)) => {
            assert(merge_config(a, b).net == Some(merge_net(x, y)));
        },
        _ => {},
    }
    match (a.logging, b.logging) {
        (Some(x), Some(y)) => {
            assert(merge_config(a, b).logging == Some(merge_logging(x, y)));
        },
        _ => {},
    }
    match (a.ai, b.ai) {
        (Some(x), Some(y)) => {
            assert(merge_config(a, b).ai == Some(merge_ai(x, y)));
        },
        _ => {},
    }
    match (a.plugins, b.plugins) {
        (Some(x), Some(y)) => {
            assert(merge_config(a, b).plugins == Some(merge_plugins(x, y)));
        },
        _ => {},
    }
    match (a.open, b.open) {
        (Some(x), Some(y)) => {
            assert(merge_config(a, b).open == Some(merge_open(x, y)));
        },
        _ => {},
    }
    match (a.usecases, b.usecases) {
        (Some(x), Some(y)) => {
            assert(merge_config(a, b).usecases == Some(merge_usecases(x, y)));
        },
        _ => {},
    }
}

/// A logging level that the later source (the environment) sets is the
/// level of the merged configuration, whatever the earlier source (the
/// configuration file) says; likewise the port.
pub proof fn lemma_later_source_sets_level_and_port(a: ConfigProperty, b: ConfigProperty)
    ensures
        b.logging is Some && b.logging->0.level is Some ==> merge_config(a, b).logging is Some
            && merge_config(a, b).logging->0.level == b.logging->0.level,
        b.net is Some && b.net->0.ws_port is Some ==> merge_config(a, b).net is Some
            && merge_config(a, b).net->0.ws_port == b.net->0.ws_port,
{
    lemma_merge_config_groups(a, b);
    match (a.logging, b.logging) {
        (Some(x), Some(y)) => lemma_later_wins_logging(x, y),
        _ => {},
    }
    match (a.net, b.net) {
        (Some(x), Some(y)) => lemma_later_wins_net(x, y),
        _ => {},
    }
}

/// Completing the net group keeps every setting given and puts the
/// documented default in place of every setting not given.
pub proof fn lemma_net_defaults(r: Net, p: NetProperty)
    requires
        net_completes(r, p),
    ensures
        p.ws_port is Some ==> r.ws_port == p.ws_port->0,
        p.ws_port is None ==> r.ws_port == 3001,
        p.ws_ip is Some ==> r.ws_ip@ == p.ws_ip->0@,
        p.ws_ip is None ==> r.ws_ip@ == "127.0.0.1"@,
        p.proxy_addr is Some ==> r.proxy_addr@ == p.proxy_addr->0@,
        p.proxy_addr is None ==> r.proxy_addr@ == Seq::<char>::empty(),
{
}

/// Completing the logging group keeps every setting given and puts the
/// documented default in place of every setting not given.
pub proof fn lemma_logging_defaults(r: Logging, p: LoggingProperty)
    requires
        logging_completes(r, p),
    ensures
        p.level is Some ==> r.level == p.level->0,
        p.level is None ==> r.level == LoggingLevel::Info,
        p.folder is Some ==> r.folder@ == p.folder->0@,
        p.folder is None ==> r.folder@ == "./logs"@,
        p.filescount is Some ==> r.filescount == p.filescount->0,
        p.filescount is None ==> r.filescount == 5,
        p.stdout is Some ==> r.stdout == p.stdout->0,
        p.stdout is None ==> r.stdout == true,
{
}

/// Completing the ai group keeps every setting given and puts the
/// documented default in place of every setting not given.
pub proof fn lemma_ai_defaults(r: Ai, p: AiProperty)
    requires
        ai_completes(r, p),
    ensures
        p.prompts_path is Some ==> r.prompts_path@ == p.prompts_path->0@,
        p.prompts_path is None ==> r.prompts_path@ == "./ai-prompts.yaml"@,
        p.groq_token is Some ==> r.groq_token@ == p.groq_token->0@,
        p.groq_token is None ==> r.groq_token@ == "NOT"@,
        p.recognize_method is Some ==> r.recognize_method == p.recognize_method->0,
        p.recognize_method is None ==> r.recognize_method == AiRecognizeMethod::Groq,
        p.alta_s_addr is Some ==> r.alta_s_addr@ == p.alta_s_addr->0@,
        p.alta_s_addr is None ==> r.alta_s_addr@ == Seq::<char>::empty(),
        p.autolaunch_alta_s is Some ==> r.autolaunch_alta_s == p.autolaunch_alta_s->0,
        p.autolaunch_alta_s is None ==> r.autolaunch_alta_s == false,
        p.alta_s_path is Some ==> r.alta_s_path@ == p.alta_s_path->0@,
        p.alta_s_path is None ==> r.alta_s_path@ == Seq::<char>::empty(),
{
}

/// Completing the plugins group keeps every setting given and puts the
/// documented default in place of every setting not given.
pub proof fn lemma_plugins_defaults(r: Plugins, p: PluginsProperty)
    requires
        plugins_completes(r, p),
    ensures
        p.plugins_folder is Some ==> r.plugins_folder@ == p.plugins_folder->0@,
        p.plugins_folder is None ==> r.plugins_folder@ == "plugins"@,
        p.config is Some ==> r.config == p.config->0,
        p.config is None ==> r.config@.dom().len() == 0,
{
}

/// Completing the open group keeps every setting given and puts the
/// documented default in place of every setting not given.
pub proof fn lemma_open_defaults(r: OpenApps, p: OpenAppsProperty)
    requires
        open_completes(r, p),
    ensures
        p.terminal is Some ==> r.terminal@ == p.terminal->0@,
        p.terminal is None ==> r.terminal@ == Seq::<char>::empty(),
        p.browser is Some ==> r.browser@ == p.browser->0@,
        p.browser is None ==> r.browser@ == Seq::<char>::empty(),
{
}

/// Completing the usecases group keeps every setting given and puts the
/// documented default in place of every setting not given.
pub proof fn lemma_usecases_defaults(r: Usecases, p: UsecasesProperty)
    requires
        usecases_completes(r, p),
    ensures
        p.test_dangerous_features is Some ==> r.test_dangerous_features == p.test_dangerous_features->0,
        p.test_dangerous_features is None ==> r.test_dangerous_features == false,
{
}

/// Merging is associative: combining three sources gives the same
/// configuration however the merges are grouped.
pub proof fn lemma_merge_associative(a: ConfigProperty, b: ConfigProperty, c: ConfigProperty)
    ensures
        merge_config(merge_config(a, b), c) == merge_config(a, merge_config(b, c)),
{
}

/// A source that gives nothing changes nothing, on either side.
pub proof fn lemma_merge_identity(a: ConfigProperty)
    ensures
        merge_config(a, ConfigProperty { net: None, logging: None, ai: None, plugins: None, open: None, usecases: None }) == a,
        merge_config(ConfigProperty { net: None, logging: None, ai: None, plugins: None, open: None, usecases: None }, a) == a,
{
}

/// Merging a source with itself changes nothing.
pub proof fn lemma_merge_idempotent(a: ConfigProperty)
    ensures
        merge_config(a, a) == a,
{
}

} // verus!
