use dbgatlas::path::{HostPath, PathPart};
use dbgatlas::runtime::{
    default_bind, default_dbgatlas_windbg_runtime_dir, find_file_limited, find_sdk_dbgeng_dir,
    find_store_dbgeng_dir, find_store_ttd_dir, resolve_dbgeng_dirs_from_roots,
    resolve_store_windbg_dbgeng_dir, resolve_tool_paths, resolve_ttd_dir_from_roots,
    tool_search_roots, Arch, BindAddr, BindHost, ChildIdentity, DbgEngPlaces,
    FallbackChildIdentity, HostEnvironment, IdaRuntimeConfig, ProcessLaunchPolicy, ProxyConfig,
    ProxyVariables, RuntimeConfig, RuntimeConfigError, SdkRoot, ServerRuntimeConfig, StorePackage, ToolDir,
    ToolLocation, ToolPathSource, ToolRuntimeConfig, TreeEntry,
};

fn bind(text: &str) -> BindAddr {
    let (host, port) = text.rsplit_once(':').unwrap();
    let octets: Vec<u8> = host.split('.').map(|part| part.parse().unwrap()).collect();
    BindAddr {
        host: BindHost::V4(octets.try_into().unwrap()),
        port: port.parse().unwrap(),
        shown: text.to_string(),
    }
}

fn bind_v6(segments: [u16; 8]) -> BindAddr {
    BindAddr {
        host: BindHost::V6(segments),
        port: 1,
        shown: "[...]:1".to_string(),
    }
}

fn parse(input: &str) -> Result<RuntimeConfig, String> {
    let table: toml::Table = input.parse().map_err(|error: toml::de::Error| error.to_string())?;
    let mut config = RuntimeConfig::default();
    config.version = table["version"].as_integer().unwrap() as u32;
    if let Some(server) = table.get("server") {
        config.server.bind = bind(server["bind"].as_str().unwrap());
    }
    if let Some(tools) = table.get("tools") {
        config.tools.symbol_path = tools
            .get("symbol_path")
            .map(|value| value.as_str().unwrap().to_string());
        if let Some(ida) = tools.get("ida") {
            config.tools.ida.allow_py_eval = ida["allow_py_eval"].as_bool().unwrap();
        }
    }
    if let Some(proxy) = table.get("proxy") {
        config.proxy = match proxy["mode"].as_str().unwrap() {
            "none" => ProxyConfig::Unset,
            "env" => ProxyConfig::Env {
                variables: proxy["variables"]
                    .as_table()
                    .unwrap()
                    .iter()
                    .fold(ProxyVariables::new(), |known, (key, value)| {
                        known.with(key.clone(), value.as_str().unwrap().to_string())
                    }),
            },
            other => return Err(format!("unknown variant `{other}`")),
        };
    }
    Ok(config)
}

fn file(name: &str) -> TreeEntry {
    TreeEntry::File {
        name: PathPart::Normal(name.to_string()),
    }
}

fn folder(name: &str, entries: Vec<TreeEntry>) -> TreeEntry {
    TreeEntry::Dir {
        name: PathPart::Normal(name.to_string()),
        entries,
    }
}

fn package(name: &str, arch_has_dbgeng: bool, entries: Vec<TreeEntry>) -> StorePackage {
    StorePackage {
        name: name.to_string(),
        arch_has_dbgeng,
        has_ttd: false,
        entries,
    }
}

fn ttd_package(name: &str) -> StorePackage {
    StorePackage {
        name: name.to_string(),
        arch_has_dbgeng: false,
        has_ttd: true,
        entries: Vec::new(),
    }
}

fn shown(dir: &ToolDir) -> String {
    let mut names = vec![dir.root.text.clone()];
    for step in &dir.steps {
        match step {
            PathPart::Normal(name) => names.push(name.clone()),
            other => panic!("unexpected step {other:?}"),
        }
    }
    names.join("/")
}

fn places() -> DbgEngPlaces {
    DbgEngPlaces {
        runtime_dir: HostPath::new("root/DbgAtlas/rt/windbg/amd64"),
        runtime_has_dbgeng: true,
        runtime_has_ttd: true,
        windows_apps: HostPath::new("root/WindowsApps"),
        packages: vec![package(
            "Microsoft.WinDbg_2.0.0.0_x64__8wekyb3d8bbwe",
            true,
            Vec::new(),
        )],
        sdks: vec![SdkRoot {
            root: HostPath::new("root/Windows Kits/10"),
            arch_has_dbgeng: true,
            root_has_dbgeng: false,
        }],
        system_root: HostPath::new("root/Windows"),
        system_has_dbgeng: true,
        arch: Arch::X64,
    }
}

#[test]
fn parses_runtime_config_without_workspace_manifest_fields() {
    let config = RuntimeConfig::from_toml_str(parse(
        r#"
version = 1

[server]
bind = "127.0.0.1:7331"

[tools]
symbol_path = "srv*C:\\symbols*https://msdl.microsoft.com/download/symbols"

[proxy]
mode = "none"
"#,
    ))
    .unwrap();

    assert_eq!(config.server.bind.port, 7331);
    assert_eq!(
        config.tools.symbol_path.as_deref(),
        Some("srv*C:\\symbols*https://msdl.microsoft.com/download/symbols")
    );
    assert!(!config.tools.ida.allow_py_eval);
    assert_eq!(config.proxy, ProxyConfig::Unset);
}

#[test]
fn parses_ida_py_eval_opt_in() {
    let config = RuntimeConfig::from_toml_str(parse(
        r#"
version = 1

[tools.ida]
allow_py_eval = true
"#,
    ))
    .unwrap();

    assert!(config.tools.ida.allow_py_eval);
}

#[test]
fn rejects_non_loopback_bind() {
    let error = RuntimeConfig::from_toml_str(parse(
        r#"
version = 1

[server]
bind = "0.0.0.0:7331"
"#,
    ))
    .unwrap_err();

    assert!(matches!(error, RuntimeConfigError::NonLoopbackBind(_)));
    assert_eq!(
        error.message(),
        "server bind address must be loopback: 0.0.0.0:7331"
    );
}

#[test]
fn rejects_symbol_path_control_characters() {
    let error = RuntimeConfig::from_toml_str(parse(
        r#"
version = 1

[tools]
symbol_path = "srv*C:\\symbols\n.shell dir"
"#,
    ))
    .unwrap_err();

    assert!(matches!(
        error,
        RuntimeConfigError::ControlCharacters {
            field: "tools.symbol_path"
        }
    ));
}

#[test]
fn validates_proxy_keys() {
    let error = RuntimeConfig::from_toml_str(parse(
        r#"
version = 1

[proxy]
mode = "env"

[proxy.variables]
BAD_PROXY = "http://127.0.0.1:7897"
"#,
    ))
    .unwrap_err();

    assert!(matches!(error, RuntimeConfigError::UnsupportedProxyKey(_)));
    assert_eq!(
        error.message(),
        "proxy.env key is not supported: BAD_PROXY"
    );
}

#[test]
fn texts_that_are_no_configuration_are_refused() {
    let error = RuntimeConfig::from_toml_str(parse("version = ")).unwrap_err();
    assert!(error.message().starts_with("parse runtime config: "));
    assert!(matches!(error, RuntimeConfigError::ParseToml(_)));
}

#[test]
fn files_that_cannot_be_read_are_refused() {
    let path = || HostPath::new("config.toml");
    let error = RuntimeConfig::load(path(), Err("not found".to_string())).unwrap_err();
    assert_eq!(
        error.message(),
        "read runtime config config.toml: not found"
    );
    assert!(RuntimeConfig::load(path(), Ok(Err("bad".to_string()))).is_err());
    let config = RuntimeConfig::load(path(), Ok(parse("version = 1"))).unwrap();
    assert_eq!(config, RuntimeConfig::default());
}

#[test]
fn the_default_configuration_is_accepted() {
    let config = RuntimeConfig::default();
    assert_eq!(config.version, 1);
    assert!(config.validate().is_ok());
    assert_eq!(config.server.bind, bind("127.0.0.1:0"));
    assert_eq!(default_bind(), bind("127.0.0.1:0"));
    assert_eq!(config.server, ServerRuntimeConfig::default());
    assert_eq!(config.tools, ToolRuntimeConfig::default());
    assert_eq!(config.tools.ida, IdaRuntimeConfig::default());
    assert!(!config.tools.ida.allow_py_eval);
    assert_eq!(config.process, ProcessLaunchPolicy::default());
    assert_eq!(config.process.child_identity, ChildIdentity::default());
    assert_eq!(
        config.process.fallback_child_identity,
        FallbackChildIdentity::CurrentProcess
    );
    assert_eq!(config.proxy, ProxyConfig::default());
}

#[test]
fn other_versions_are_refused_first() {
    let mut config = RuntimeConfig::default();
    config.version = 2;
    config.server.bind = bind("1.2.3.4:1");
    assert_eq!(
        config.validate().unwrap_err().message(),
        "unsupported runtime config version 2; expected 1"
    );
}

#[test]
fn loopback_addresses_are_known() {
    for address in ["127.0.0.1:1", "127.255.0.3:1"] {
        assert!(bind(address).is_loopback());
    }
    assert!(bind_v6([0, 0, 0, 0, 0, 0, 0, 1]).is_loopback());
    for address in ["128.0.0.1:1", "0.0.0.0:1"] {
        assert!(!bind(address).is_loopback());
    }
    assert!(!bind_v6([0; 8]).is_loopback());
    assert!(!bind_v6([0, 0, 0, 0, 0, 0, 0, 2]).is_loopback());
    assert!(!bind_v6([1, 0, 0, 0, 0, 0, 0, 1]).is_loopback());
}

#[test]
fn texts_must_not_be_blank_or_broken() {
    let refusal = |change: fn(&mut RuntimeConfig)| {
        let mut config = RuntimeConfig::default();
        change(&mut config);
        config.validate().unwrap_err()
    };
    let empty = |field: &'static str| RuntimeConfigError::EmptyValue { field };
    let control = |field: &'static str| RuntimeConfigError::ControlCharacters { field };
    assert_eq!(
        refusal(|config| config.tools.symbol_path = Some(" ".to_string())),
        empty("tools.symbol_path")
    );
    assert_eq!(
        refusal(|config| config.tools.ida.install_dir = Some(HostPath::new(""))),
        empty("tools.ida.install_dir")
    );
    assert_eq!(
        refusal(|config| config.tools.ida.python_executable = Some(HostPath::new("a\u{2028}b"))),
        control("tools.ida.python_executable")
    );
    assert_eq!(
        refusal(|config| config.tools.ida.vendor_src_dir = Some(HostPath::new("a\u{85}b"))),
        control("tools.ida.vendor_src_dir")
    );
    assert_eq!(
        refusal(|config| {
            config.proxy = ProxyConfig::Url {
                url: "\t".to_string(),
            }
        }),
        empty("proxy.url")
    );
    assert_eq!(
        refusal(|config| {
            config.proxy = ProxyConfig::Env {
                variables: ProxyVariables::new()
                    .with("HTTP_PROXY".to_string(), "http://x".to_string())
                    .with("no_proxy".to_string(), "a\0".to_string()),
            }
        }),
        control("proxy.env")
    );
    assert_eq!(
        empty("proxy.url").message(),
        "proxy.url must not be empty"
    );
    assert_eq!(
        control("proxy.env").message(),
        "proxy.env contains unsupported control characters"
    );
    let mut config = RuntimeConfig::default();
    config.proxy = ProxyConfig::Disabled;
    assert!(config.validate().is_ok());
}

#[test]
fn proxy_variables_stand_in_order_each_once() {
    let variables = [
        ("no_proxy", "1"),
        ("HTTP_PROXY", "2"),
        ("a", "3"),
        ("HTTP_PROXY", "4"),
        ("HTTPS_PROXY", "5"),
        ("", "6"),
        ("\u{e9}", "7"),
    ]
    .iter()
    .fold(ProxyVariables::new(), |known, (key, value)| {
        known.with(key.to_string(), value.to_string())
    });
    let entries: Vec<(&str, &str)> = variables
        .entries()
        .iter()
        .map(|(key, value)| (key.as_str(), value.as_str()))
        .collect();
    assert_eq!(
        entries,
        [
            ("", "6"),
            ("HTTPS_PROXY", "5"),
            ("HTTP_PROXY", "4"),
            ("a", "3"),
            ("no_proxy", "1"),
            ("\u{e9}", "7"),
        ]
    );
    assert!(ProxyVariables::new().entries().is_empty());
}

fn on_drive(letter: &str, names: &[&str]) -> HostPath {
    let mut path = HostPath::new("x");
    path.text = format!("{letter}:\\{}", names.join("\\"));
    path.absolute = true;
    path.parts = vec![PathPart::Prefix(format!("{letter}:")), PathPart::RootDir];
    path.parts
        .extend(names.iter().map(|name| PathPart::Normal(name.to_string())));
    path
}

#[test]
fn one_directory_is_one_candidate_whatever_the_case_of_its_drive() {
    let mut places = places();
    places.packages = Vec::new();
    places.sdks = Vec::new();
    places.runtime_dir = on_drive("c", &["Windows", "System32"]);
    places.system_root = on_drive("C", &["Windows"]);
    let candidates = resolve_dbgeng_dirs_from_roots(&places);
    assert_eq!(candidates.len(), 1);
    assert_eq!(candidates[0].source, ToolPathSource::DbgAtlasInstall);
    assert_eq!(candidates[0].dir.root.text, "c:\\Windows\\System32");

    places.system_root = on_drive("C", &["WINDOWS"]);
    assert_eq!(resolve_dbgeng_dirs_from_roots(&places).len(), 2);
    places.system_root = on_drive("D", &["Windows"]);
    assert_eq!(resolve_dbgeng_dirs_from_roots(&places).len(), 2);
}

#[test]
fn resolves_dbgeng_precedence_from_store_sdk_system32() {
    let candidates = resolve_dbgeng_dirs_from_roots(&places());
    assert_eq!(
        candidates
            .iter()
            .map(|location| location.source)
            .collect::<Vec<_>>(),
        vec![
            ToolPathSource::DbgAtlasInstall,
            ToolPathSource::AppStore,
            ToolPathSource::WindowsSdk,
            ToolPathSource::System32,
        ]
    );
    assert_eq!(
        candidates
            .iter()
            .map(|location| shown(&location.dir))
            .collect::<Vec<_>>(),
        vec![
            "root/DbgAtlas/rt/windbg/amd64",
            "root/WindowsApps/Microsoft.WinDbg_2.0.0.0_x64__8wekyb3d8bbwe/amd64",
            "root/Windows Kits/10/Debuggers/x64",
            "root/Windows/System32",
        ]
    );

    let mut without_store = places();
    without_store.runtime_has_dbgeng = false;
    without_store.packages = Vec::new();
    assert_eq!(
        resolve_dbgeng_dirs_from_roots(&without_store)[0].source,
        ToolPathSource::WindowsSdk
    );

    without_store.sdks[0].arch_has_dbgeng = false;
    assert_eq!(
        resolve_dbgeng_dirs_from_roots(&without_store)[0].source,
        ToolPathSource::System32
    );
}

#[test]
fn a_directory_is_a_candidate_once() {
    let mut places = places();
    places.sdks = vec![SdkRoot {
        root: HostPath::new("root/./DbgAtlas/rt//windbg/amd64"),
        arch_has_dbgeng: false,
        root_has_dbgeng: true,
    }];
    let sources: Vec<ToolPathSource> = resolve_dbgeng_dirs_from_roots(&places)
        .iter()
        .map(|location| location.source)
        .collect();
    assert_eq!(
        sources,
        [
            ToolPathSource::DbgAtlasInstall,
            ToolPathSource::AppStore,
            ToolPathSource::System32,
        ]
    );
}

#[test]
fn resolves_ttd_precedence_from_dbgeng_sibling_then_store() {
    let apps = HostPath::new("root/WindowsApps");
    let packages = vec![ttd_package(
        "Microsoft.TimeTravelDebugging_2.0.0.0_x64__8wekyb3d8bbwe",
    )];
    let candidates = vec![ToolLocation {
        dir: ToolDir::at(&HostPath::new("root/dbgeng")),
        source: ToolPathSource::AppStore,
    }];

    let sibling =
        resolve_ttd_dir_from_roots(&candidates, &vec![true], &apps, &packages).unwrap();
    assert_eq!(sibling.source, ToolPathSource::DbgEngSibling);
    assert_eq!(shown(&sibling.dir), "root/dbgeng/ttd");

    let store =
        resolve_ttd_dir_from_roots(&Vec::new(), &Vec::new(), &apps, &packages).unwrap();
    assert_eq!(store.source, ToolPathSource::AppStore);
    assert_eq!(
        shown(&store.dir),
        "root/WindowsApps/Microsoft.TimeTravelDebugging_2.0.0.0_x64__8wekyb3d8bbwe"
    );

    let store = resolve_ttd_dir_from_roots(&candidates, &vec![false], &apps, &packages).unwrap();
    assert_eq!(store.source, ToolPathSource::AppStore);
    assert!(resolve_ttd_dir_from_roots(&candidates, &vec![false], &apps, &Vec::new()).is_none());
}

#[test]
fn resolves_dbgatlas_runtime_dbgeng_and_ttd_together() {
    let mut places = places();
    places.packages = Vec::new();
    places.sdks = Vec::new();
    places.system_has_dbgeng = false;
    let candidates = resolve_dbgeng_dirs_from_roots(&places);
    let ttd = resolve_ttd_dir_from_roots(
        &candidates,
        &vec![true],
        &places.windows_apps,
        &places.packages,
    );
    let tools = resolve_tool_paths(candidates, ttd);

    assert_eq!(shown(tools.dbgeng_dir().unwrap()), places.runtime_dir.text);
    assert_eq!(tools.dbgeng_dirs().len(), 1);
    assert_eq!(
        shown(tools.ttd_dir().unwrap()),
        "root/DbgAtlas/rt/windbg/amd64/ttd"
    );
    assert_eq!(
        tools.dbgeng.unwrap().source,
        ToolPathSource::DbgAtlasInstall
    );
    assert_eq!(
        tools.ttd.unwrap(),
        ToolLocation {
            dir: ToolDir::at(&places.runtime_dir).join("ttd"),
            source: ToolPathSource::DbgEngSibling,
        }
    );
}

#[test]
fn skips_incomplete_dbgatlas_runtime_candidate() {
    let mut places = places();
    places.runtime_has_ttd = false;
    places.sdks = Vec::new();
    places.system_has_dbgeng = false;
    let tools = RuntimeConfig::default()
        .resolve_tool_paths(resolve_dbgeng_dirs_from_roots(&places), None);

    assert_eq!(tools.dbgeng.unwrap().source, ToolPathSource::AppStore);
}

#[test]
fn nothing_is_resolved_where_nothing_is_found() {
    let tools = resolve_tool_paths(Vec::new(), None);
    assert!(tools.dbgeng_dir().is_none());
    assert!(tools.dbgeng_dirs().is_empty());
    assert!(tools.ttd_dir().is_none());
}

#[test]
fn the_last_package_that_holds_the_engine_counts() {
    let apps = HostPath::new("apps");
    let packages = vec![
        package("Microsoft.WinDbg_1.0", true, Vec::new()),
        package("Microsoft.WinDbg_3.0", false, Vec::new()),
        package("Microsoft.WinDbg_2.0", true, Vec::new()),
        package("Other_9", true, Vec::new()),
    ];
    let dir = find_store_dbgeng_dir(&apps, &packages, Arch::Arm64).unwrap();
    assert_eq!(shown(&dir), "apps/Microsoft.WinDbg_2.0/arm64");
    assert_eq!(
        resolve_store_windbg_dbgeng_dir(&apps, &packages, Arch::Arm64),
        Some(dir)
    );
    let empty = vec![package("Microsoft.WinDbg_3.0", false, Vec::new())];
    assert!(find_store_dbgeng_dir(&apps, &empty, Arch::X86).is_none());
}

#[test]
fn a_package_is_searched_below() {
    let apps = HostPath::new("apps");
    let entries = || {
        vec![
            file("readme"),
            folder("a", vec![folder("b", vec![file("DbgEng.DLL")])]),
        ]
    };
    let packages = vec![package("Microsoft.WinDbg_1.0", false, entries())];
    let dir = find_store_dbgeng_dir(&apps, &packages, Arch::X64).unwrap();
    assert_eq!(shown(&dir), "apps/Microsoft.WinDbg_1.0/a/b");

    let names = |depth: usize| {
        find_file_limited(&entries(), "dbgeng.dll", depth).map(|steps| steps.len())
    };
    assert_eq!(names(0), None);
    assert_eq!(names(2), None);
    assert_eq!(names(3), Some(3));
}

#[test]
fn the_last_recorder_package_counts() {
    let apps = HostPath::new("apps");
    let packages = vec![
        ttd_package("Microsoft.TimeTravelDebugging_1.10"),
        ttd_package("Microsoft.TimeTravelDebugging_1.9"),
        package("Microsoft.TimeTravelDebugging_2", false, Vec::new()),
    ];
    let dir = find_store_ttd_dir(&apps, &packages).unwrap();
    assert_eq!(shown(&dir), "apps/Microsoft.TimeTravelDebugging_1.9");
    assert!(find_store_ttd_dir(&apps, &Vec::new()).is_none());
}

#[test]
fn the_first_sdk_that_holds_the_engine_counts() {
    let sdk = |root: &str, arch_has_dbgeng: bool, root_has_dbgeng: bool| SdkRoot {
        root: HostPath::new(root),
        arch_has_dbgeng,
        root_has_dbgeng,
    };
    let sdks = vec![
        sdk("a", false, false),
        sdk("b", false, true),
        sdk("c", true, true),
    ];
    let dir = find_sdk_dbgeng_dir(&sdks, Arch::X86).unwrap();
    assert_eq!(shown(&dir), "b");
    let dir = find_sdk_dbgeng_dir(&vec![sdk("c", true, true)], Arch::X86).unwrap();
    assert_eq!(shown(&dir), "c/Debuggers/x86");
    assert!(find_sdk_dbgeng_dir(&Vec::new(), Arch::X86).is_none());
}

#[test]
fn processors_have_two_names() {
    assert_eq!(Arch::X64.debugger_arch(), "x64");
    assert_eq!(Arch::X64.windbg_runtime_arch(), "amd64");
    assert_eq!(Arch::Arm64.debugger_arch(), "arm64");
    assert_eq!(Arch::Arm64.windbg_runtime_arch(), "arm64");
    assert_eq!(Arch::X86.debugger_arch(), "x86");
    assert_eq!(Arch::X86.windbg_runtime_arch(), "x86");
}

#[test]
fn search_roots_follow_the_environment() {
    let environment = |given: bool| {
        let path = |text: &str| if given { Some(HostPath::new(text)) } else { None };
        HostEnvironment {
            program_data: path("data"),
            program_files: path("files"),
            program_files_x86: path("files86"),
            system_root: path("windows"),
            windows_sdk_dir: path("sdk"),
            wdk_content_root: path("wdk"),
            windows_sdk_executable_path_x64: path("exe"),
        }
    };
    let joined = |path: &dbgatlas::path::JoinedPath| {
        let mut names = vec![path.base.text.clone()];
        names.extend(path.names.clone());
        names.join("/")
    };
    let roots = tool_search_roots(environment(true), Arch::X64);
    assert_eq!(
        joined(&roots.dbgatlas_windbg_runtime_dir),
        "data/DbgAtlas/rt/windbg/amd64"
    );
    assert_eq!(
        joined(&roots.program_files_windows_apps),
        "files/WindowsApps"
    );
    assert_eq!(joined(&roots.system_root), "windows");
    assert_eq!(
        roots
            .windows_kits_roots
            .iter()
            .map(joined)
            .collect::<Vec<_>>(),
        [
            "sdk",
            "wdk",
            "exe",
            "files86/Windows Kits/10",
            "files/Windows Kits/10"
        ]
    );

    let roots = tool_search_roots(environment(false), Arch::X86);
    assert_eq!(
        joined(&roots.dbgatlas_windbg_runtime_dir),
        "C:\\ProgramData/DbgAtlas/rt/windbg/x86"
    );
    assert_eq!(
        joined(&default_dbgatlas_windbg_runtime_dir(&None, Arch::X86)),
        joined(&roots.dbgatlas_windbg_runtime_dir)
    );
    assert_eq!(joined(&roots.system_root), "C:\\Windows");
    assert_eq!(
        roots
            .windows_kits_roots
            .iter()
            .map(joined)
            .collect::<Vec<_>>(),
        [
            "C:\\Program Files (x86)/Windows Kits/10",
            "C:\\Program Files/Windows Kits/10"
        ]
    );
}
